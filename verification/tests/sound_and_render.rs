use editor_core::DefaultRenderMode;
use editor_core::PrepassConfig;
use editor_core::RenderModeKeys;
use editor_core::SoundPlayback;
use editor_core::SoundSource;
use editor_core::plan_sound_playback;
use editor_core::status_text;
use editor_core::switch_mode;

#[test]
fn attached_sound_reuses_entity_and_fills_in_emitter() {
    let plan = plan_sound_playback(&SoundSource::Attached(42), false);
    assert_eq!(
        plan,
        SoundPlayback::Spatial {
            attach_to_existing: Some(42),
            insert_emitter: true,
            despawn_after: false,
        }
    );
    let already = plan_sound_playback(&SoundSource::Attached(42), true);
    assert_eq!(
        already,
        SoundPlayback::Spatial {
            attach_to_existing: Some(42),
            insert_emitter: false,
            despawn_after: false,
        }
    );
}

#[test]
fn located_sound_gets_a_temporary_carrier() {
    let plan = plan_sound_playback(&SoundSource::Located, false);
    assert_eq!(
        plan,
        SoundPlayback::Spatial {
            attach_to_existing: None,
            insert_emitter: true,
            despawn_after: true,
        }
    );
}

#[test]
fn local_player_sound_is_flat() {
    assert_eq!(plan_sound_playback(&SoundSource::LocalPlayer, false), SoundPlayback::Flat);
}

fn no_render_keys() -> RenderModeKeys {
    RenderModeKeys {
        just_pause: false,
        just_deferred: false,
        just_forward: false,
        just_forward_prepass: false,
        just_hide_ui: false,
    }
}

#[test]
fn number_keys_pick_the_render_method() {
    let mut mode = DefaultRenderMode::Deferred;
    let mut pause = true;
    let mut hide_ui = false;
    let mut keys = no_render_keys();
    keys.just_forward = true;
    let changes = switch_mode(&mut mode, &mut pause, &mut hide_ui, &keys);
    assert_eq!(mode, DefaultRenderMode::Forward);
    assert_eq!(
        changes,
        vec![PrepassConfig {
            normal: false,
            depth: false,
            motion_vectors: false,
            deferred: false,
        }]
    );
}

#[test]
fn several_number_keys_apply_in_order_and_last_wins() {
    let mut mode = DefaultRenderMode::Forward;
    let mut pause = true;
    let mut hide_ui = false;
    let mut keys = no_render_keys();
    keys.just_deferred = true;
    keys.just_forward_prepass = true;
    let changes = switch_mode(&mut mode, &mut pause, &mut hide_ui, &keys);
    assert_eq!(mode, DefaultRenderMode::ForwardPrepass);
    assert_eq!(changes.len(), 2);
    assert_eq!(
        changes[0],
        PrepassConfig { normal: false, depth: true, motion_vectors: true, deferred: true }
    );
    assert_eq!(
        changes[1],
        PrepassConfig { normal: true, depth: true, motion_vectors: true, deferred: false }
    );
}

#[test]
fn pause_and_ui_keys_toggle() {
    let mut mode = DefaultRenderMode::Deferred;
    let mut pause = true;
    let mut hide_ui = false;
    let mut keys = no_render_keys();
    keys.just_pause = true;
    keys.just_hide_ui = true;
    let changes = switch_mode(&mut mode, &mut pause, &mut hide_ui, &keys);
    assert!(changes.is_empty());
    assert!(!pause);
    assert!(hide_ui);
    assert_eq!(mode, DefaultRenderMode::Deferred);
}

#[test]
fn status_text_marks_the_active_mode() {
    let text = status_text(&DefaultRenderMode::Deferred, false);
    assert_eq!(
        text,
        "(H) Hide UI\n(Space) Play/Pause\n\nRendering Method:\n\
         (1) > Deferred\n(2)  Forward\n(3)  Forward + Prepass\n"
    );
    let forward = status_text(&DefaultRenderMode::Forward, false);
    assert!(forward.contains("(2) > Forward\n"));
    assert!(forward.contains("(1)  Deferred\n"));
}

#[test]
fn hidden_ui_shows_no_text() {
    assert_eq!(status_text(&DefaultRenderMode::Forward, true), "");
}
