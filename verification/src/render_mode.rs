//! The render-method switcher: number keys pick between deferred and
//! forward rendering, space pauses the scene animation, and a key hides the
//! on-screen help text. The camera prepass components to apply and the help
//! text itself are computed here; the engine glue only carries them out.

use vstd::prelude::*;

verus! {

/// The opaque-geometry render method currently selected.
#[derive(Clone, Copy, PartialEq, Eq, Structural, Debug)]
pub enum DefaultRenderMode {
    Deferred,
    Forward,
    ForwardPrepass,
}

impl Default for DefaultRenderMode {
    fn default() -> (r: Self)
        ensures
            r == DefaultRenderMode::Deferred,
    {
        DefaultRenderMode::Deferred
    }
}

/// Which prepass components every camera must carry for a render method.
#[derive(Clone, Copy, PartialEq, Eq, Structural, Debug)]
pub struct PrepassConfig {
    pub normal: bool,
    pub depth: bool,
    pub motion_vectors: bool,
    pub deferred: bool,
}

/// The camera prepass components a render method calls for.
pub open spec fn spec_prepass_config(mode: DefaultRenderMode) -> PrepassConfig {
    match mode {
        DefaultRenderMode::Deferred => PrepassConfig {
            normal: false,
            depth: true,
            motion_vectors: true,
            deferred: true,
        },
        DefaultRenderMode::Forward => PrepassConfig {
            normal: false,
            depth: false,
            motion_vectors: false,
            deferred: false,
        },
        DefaultRenderMode::ForwardPrepass => PrepassConfig {
            normal: true,
            depth: true,
            motion_vectors: true,
            deferred: false,
        },
    }
}

/// The keys the switcher reads in one frame.
#[derive(Clone, Copy, PartialEq, Eq, Structural, Debug)]
pub struct RenderModeKeys {
    pub just_pause: bool,
    pub just_deferred: bool,
    pub just_forward: bool,
    pub just_forward_prepass: bool,
    pub just_hide_ui: bool,
}

/// The render method after a frame's keys: each pressed number key takes
/// effect in order, so the highest one pressed wins.
pub open spec fn spec_next_render_mode(
    mode: DefaultRenderMode,
    keys: RenderModeKeys,
) -> DefaultRenderMode {
    if keys.just_forward_prepass {
        DefaultRenderMode::ForwardPrepass
    } else if keys.just_forward {
        DefaultRenderMode::Forward
    } else if keys.just_deferred {
        DefaultRenderMode::Deferred
    } else {
        mode
    }
}

/// The camera reconfigurations a frame's keys call for, in key order.
pub open spec fn spec_prepass_changes(keys: RenderModeKeys) -> Seq<PrepassConfig> {
    (if keys.just_deferred {
        seq![spec_prepass_config(DefaultRenderMode::Deferred)]
    } else {
        Seq::empty()
    }) + (if keys.just_forward {
        seq![spec_prepass_config(DefaultRenderMode::Forward)]
    } else {
        Seq::empty()
    }) + (if keys.just_forward_prepass {
        seq![spec_prepass_config(DefaultRenderMode::ForwardPrepass)]
    } else {
        Seq::empty()
    })
}

/// Applies a frame's keys: toggles pause and the help text, switches the
/// render method, and returns the prepass reconfigurations to apply to every
/// camera, in order.
pub fn switch_mode(
    mode: &mut DefaultRenderMode,
    pause: &mut bool,
    hide_ui: &mut bool,
    keys: &RenderModeKeys,
) -> (changes: Vec<PrepassConfig>)
    ensures
        *final(pause) == (*old(pause) ^ keys.just_pause),
        *final(hide_ui) == (*old(hide_ui) ^ keys.just_hide_ui),
        *final(mode) == spec_next_render_mode(*old(mode), *keys),
        changes@ == spec_prepass_changes(*keys),
{
    let mut changes: Vec<PrepassConfig> = Vec::new();
    if keys.just_pause {
        *pause = !*pause;
    }
    if keys.just_deferred {
        *mode = DefaultRenderMode::Deferred;
        changes.push(
            PrepassConfig { normal: false, depth: true, motion_vectors: true, deferred: true },
        );
    }
    if keys.just_forward {
        *mode = DefaultRenderMode::Forward;
        changes.push(
            PrepassConfig { normal: false, depth: false, motion_vectors: false, deferred: false },
        );
    }
    if keys.just_forward_prepass {
        *mode = DefaultRenderMode::ForwardPrepass;
        changes.push(
            PrepassConfig { normal: true, depth: true, motion_vectors: true, deferred: false },
        );
    }
    if keys.just_hide_ui {
        *hide_ui = !*hide_ui;
    }
    proof {
        assert(changes@ =~= spec_prepass_changes(*keys));
    }
    changes
}

/// The selection marker in the help text: an arrow on the active line.
pub open spec fn spec_mode_marker(active: bool) -> Seq<char> {
    if active {
        ">"@
    } else {
        ""@
    }
}

/// The help text shown for a render mode; nothing while the UI is hidden.
pub open spec fn spec_status_text(mode: DefaultRenderMode, hide_ui: bool) -> Seq<char> {
    if hide_ui {
        Seq::empty()
    } else {
        "(H) Hide UI\n"@ + "(Space) Play/Pause\n\n"@ + "Rendering Method:\n"@ + "(1) "@
            + spec_mode_marker(mode is Deferred) + " Deferred\n"@ + "(2) "@ + spec_mode_marker(
            mode is Forward,
        ) + " Forward\n"@ + "(3) "@ + spec_mode_marker(mode is ForwardPrepass)
            + " Forward + Prepass\n"@
    }
}

/// One mode line's marker.
fn mode_marker(active: bool) -> (r: &'static str)
    ensures
        r@ == spec_mode_marker(active),
{
    if active {
        ">"
    } else {
        ""
    }
}

/// Renders the frame's help text for the render-method switcher.
pub fn status_text(mode: &DefaultRenderMode, hide_ui: bool) -> (text: String)
    ensures
        text@ == spec_status_text(*mode, hide_ui),
{
    let mut text = String::new();
    if hide_ui {
        proof {
            assert(text@ =~= spec_status_text(*mode, hide_ui));
        }
        return text;
    }
    text.append("(H) Hide UI\n");
    text.append("(Space) Play/Pause\n\n");
    text.append("Rendering Method:\n");
    text.append("(1) ");
    text.append(mode_marker(matches!(mode, DefaultRenderMode::Deferred)));
    text.append(" Deferred\n");
    text.append("(2) ");
    text.append(mode_marker(matches!(mode, DefaultRenderMode::Forward)));
    text.append(" Forward\n");
    text.append("(3) ");
    text.append(mode_marker(matches!(mode, DefaultRenderMode::ForwardPrepass)));
    text.append(" Forward + Prepass\n");
    proof {
        assert(text@ =~= spec_status_text(*mode, hide_ui));
    }
    text
}

} // verus!
