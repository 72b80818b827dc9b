//! Turns a frame's raw key and mouse snapshot into editor commands. The
//! emission order matters: a save hotkey swallows the rest of the frame, and
//! axis locks are only live while a manipulation is running.

use vstd::prelude::*;

use crate::commands::CurrentObjectManipulationMode;
use crate::commands::EditorCommand;
use crate::commands::EditorSelected;
use crate::defs::EditorAxis;
use crate::defs::ManipulationMode;

verus! {

/// What the keyboard and mouse looked like this frame, as far as the hotkey
/// rules care.
#[derive(Clone, Copy, PartialEq, Eq, Structural, Debug)]
pub struct HotkeySnapshot {
    /// The UI layer wants the keyboard or the pointer; hotkeys stand down.
    pub ui_wants_input: bool,
    pub left_mouse_pressed: bool,
    pub ctrl_pressed: bool,
    pub just_s: bool,
    pub just_l: bool,
    pub just_o: bool,
    pub just_delete: bool,
    pub just_g: bool,
    pub just_r: bool,
    pub just_escape: bool,
    pub just_x: bool,
    pub just_y: bool,
    pub just_z: bool,
}

/// One command when the key fired, none otherwise.
pub open spec fn emitted_if(fired: bool, cmd: EditorCommand) -> Seq<EditorCommand> {
    if fired {
        seq![cmd]
    } else {
        Seq::empty()
    }
}

/// Two commands when the key fired, none otherwise.
pub open spec fn emitted_pair_if(fired: bool, first: EditorCommand, second: EditorCommand) -> Seq<
    EditorCommand,
> {
    if fired {
        seq![first, second]
    } else {
        Seq::empty()
    }
}

/// The commands a frame's snapshot resolves to, in emission order.
pub open spec fn hotkey_commands(
    input: HotkeySnapshot,
    selected: EditorSelected,
    manip_mode: CurrentObjectManipulationMode,
) -> Seq<EditorCommand> {
    if input.ui_wants_input {
        Seq::empty()
    } else {
        let confirm = emitted_if(input.left_mouse_pressed, EditorCommand::Confirm);
        if input.just_s && input.ctrl_pressed {
            confirm + seq![EditorCommand::Save]
        } else {
            let global = confirm + emitted_if(input.just_l, EditorCommand::SwapLocal)
                + emitted_if(input.just_o, EditorCommand::OpenFile);
            if selected.0 is Some {
                let with_selection = global + emitted_if(
                    input.just_delete,
                    EditorCommand::DeleteSelected,
                ) + emitted_pair_if(
                    input.just_g,
                    EditorCommand::SetMode(ManipulationMode::Move),
                    EditorCommand::BeginTransform,
                ) + emitted_pair_if(
                    input.just_r,
                    EditorCommand::SetMode(ManipulationMode::Rotate),
                    EditorCommand::BeginTransform,
                ) + emitted_pair_if(
                    input.just_s,
                    EditorCommand::SetMode(ManipulationMode::Scale),
                    EditorCommand::BeginTransform,
                ) + emitted_if(input.just_escape, EditorCommand::Cancel);
                if manip_mode.mode != ManipulationMode::Inactive {
                    with_selection + emitted_if(
                        input.just_x,
                        EditorCommand::RestrictAxis(EditorAxis::X),
                    ) + emitted_if(input.just_y, EditorCommand::RestrictAxis(EditorAxis::Y))
                        + emitted_if(input.just_z, EditorCommand::RestrictAxis(EditorAxis::Z))
                } else {
                    with_selection
                }
            } else {
                global
            }
        }
    }
}

/// No command in the sequence locks an axis.
pub open spec fn no_axis_lock(cmds: Seq<EditorCommand>) -> bool {
    forall|i: int| 0 <= i < cmds.len() ==> !(#[trigger] cmds[i] is RestrictAxis)
}

proof fn lemma_no_axis_lock_concat(a: Seq<EditorCommand>, b: Seq<EditorCommand>)
    requires
        no_axis_lock(a),
        no_axis_lock(b),
    ensures
        no_axis_lock(a + b),
{
    assert forall|i: int| 0 <= i < (a + b).len() implies !((a + b)[i] is RestrictAxis) by {
        if i < a.len() {
            assert((a + b)[i] == a[i]);
        } else {
            assert((a + b)[i] == b[i - a.len()]);
        }
    }
}

proof fn lemma_no_axis_lock_emitted(fired: bool, cmd: EditorCommand)
    requires
        !(cmd is RestrictAxis),
    ensures
        no_axis_lock(emitted_if(fired, cmd)),
{
}

proof fn lemma_no_axis_lock_pair(fired: bool, first: EditorCommand, second: EditorCommand)
    requires
        !(first is RestrictAxis),
        !(second is RestrictAxis),
    ensures
        no_axis_lock(emitted_pair_if(fired, first, second)),
{
}

/// While no manipulation is running, the hotkey layer cannot ask for an
/// axis lock: the lock keys are only read with a tool active.
pub proof fn lemma_idle_frame_never_locks_axis(
    input: HotkeySnapshot,
    selected: EditorSelected,
    manip_mode: CurrentObjectManipulationMode,
)
    requires
        manip_mode.mode == ManipulationMode::Inactive,
    ensures
        no_axis_lock(hotkey_commands(input, selected, manip_mode)),
{
    let confirm = emitted_if(input.left_mouse_pressed, EditorCommand::Confirm);
    lemma_no_axis_lock_emitted(input.left_mouse_pressed, EditorCommand::Confirm);
    if input.ui_wants_input {
    } else if input.just_s && input.ctrl_pressed {
        lemma_no_axis_lock_concat(confirm, seq![EditorCommand::Save]);
    } else {
        let with_l = confirm + emitted_if(input.just_l, EditorCommand::SwapLocal);
        let global = with_l + emitted_if(input.just_o, EditorCommand::OpenFile);
        lemma_no_axis_lock_emitted(input.just_l, EditorCommand::SwapLocal);
        lemma_no_axis_lock_concat(confirm, emitted_if(input.just_l, EditorCommand::SwapLocal));
        lemma_no_axis_lock_emitted(input.just_o, EditorCommand::OpenFile);
        lemma_no_axis_lock_concat(with_l, emitted_if(input.just_o, EditorCommand::OpenFile));
        if selected.0 is Some {
            let after_delete = global + emitted_if(
                input.just_delete,
                EditorCommand::DeleteSelected,
            );
            lemma_no_axis_lock_emitted(input.just_delete, EditorCommand::DeleteSelected);
            lemma_no_axis_lock_concat(global, emitted_if(
                input.just_delete,
                EditorCommand::DeleteSelected,
            ));
            let g_pair = emitted_pair_if(
                input.just_g,
                EditorCommand::SetMode(ManipulationMode::Move),
                EditorCommand::BeginTransform,
            );
            lemma_no_axis_lock_pair(input.just_g, EditorCommand::SetMode(ManipulationMode::Move),
                EditorCommand::BeginTransform);
            lemma_no_axis_lock_concat(after_delete, g_pair);
            let after_g = after_delete + g_pair;
            let r_pair = emitted_pair_if(
                input.just_r,
                EditorCommand::SetMode(ManipulationMode::Rotate),
                EditorCommand::BeginTransform,
            );
            lemma_no_axis_lock_pair(input.just_r, EditorCommand::SetMode(ManipulationMode::Rotate),
                EditorCommand::BeginTransform);
            lemma_no_axis_lock_concat(after_g, r_pair);
            let after_r = after_g + r_pair;
            let s_pair = emitted_pair_if(
                input.just_s,
                EditorCommand::SetMode(ManipulationMode::Scale),
                EditorCommand::BeginTransform,
            );
            lemma_no_axis_lock_pair(input.just_s, EditorCommand::SetMode(ManipulationMode::Scale),
                EditorCommand::BeginTransform);
            lemma_no_axis_lock_concat(after_r, s_pair);
            let after_s = after_r + s_pair;
            lemma_no_axis_lock_emitted(input.just_escape, EditorCommand::Cancel);
            lemma_no_axis_lock_concat(after_s, emitted_if(input.just_escape, EditorCommand::Cancel));
        }
    }
}

/// Appending one conditional command is the same as concatenating its
/// one-or-empty sequence.
proof fn lemma_push_one(
    prefix: Seq<EditorCommand>,
    built: Seq<EditorCommand>,
    fired: bool,
    cmd: EditorCommand,
)
    requires
        built == if fired {
            prefix.push(cmd)
        } else {
            prefix
        },
    ensures
        built == prefix + emitted_if(fired, cmd),
{
    if fired {
        assert(built =~= prefix + emitted_if(fired, cmd));
    } else {
        assert(built =~= prefix + emitted_if(fired, cmd));
    }
}

/// Appending one conditional command pair is the same as concatenating its
/// two-or-empty sequence.
proof fn lemma_push_pair(
    prefix: Seq<EditorCommand>,
    built: Seq<EditorCommand>,
    fired: bool,
    first: EditorCommand,
    second: EditorCommand,
)
    requires
        built == if fired {
            prefix.push(first).push(second)
        } else {
            prefix
        },
    ensures
        built == prefix + emitted_pair_if(fired, first, second),
{
    if fired {
        assert(built =~= prefix + emitted_pair_if(fired, first, second));
    } else {
        assert(built =~= prefix + emitted_pair_if(fired, first, second));
    }
}

/// Resolves the frame's input snapshot into the commands to queue.
#[verifier::rlimit(30)]
pub fn resolve_hotkey_intents(
    input: &HotkeySnapshot,
    selected: &EditorSelected,
    manip_mode: &CurrentObjectManipulationMode,
) -> (cmds: Vec<EditorCommand>)
    ensures
        cmds@ == hotkey_commands(*input, *selected, *manip_mode),
{
    let mut cmds: Vec<EditorCommand> = Vec::new();
    if input.ui_wants_input {
        proof {
            assert(cmds@ =~= hotkey_commands(*input, *selected, *manip_mode));
        }
        return cmds;
    }
    let ghost confirm = emitted_if(input.left_mouse_pressed, EditorCommand::Confirm);
    if input.left_mouse_pressed {
        cmds.push(EditorCommand::Confirm);
    }
    proof {
        assert(cmds@ =~= confirm);
    }
    if input.just_s && input.ctrl_pressed {
        let ghost before_save = cmds@;
        cmds.push(EditorCommand::Save);
        proof {
            lemma_push_one(before_save, cmds@, true, EditorCommand::Save);
            assert(emitted_if(true, EditorCommand::Save) =~= seq![EditorCommand::Save]);
            assert(cmds@ == hotkey_commands(*input, *selected, *manip_mode));
        }
        return cmds;
    }
    let ghost before_l = cmds@;
    if input.just_l {
        cmds.push(EditorCommand::SwapLocal);
    }
    proof {
        lemma_push_one(before_l, cmds@, input.just_l, EditorCommand::SwapLocal);
    }
    let ghost before_o = cmds@;
    if input.just_o {
        cmds.push(EditorCommand::OpenFile);
    }
    let ghost global = confirm + emitted_if(input.just_l, EditorCommand::SwapLocal) + emitted_if(
        input.just_o,
        EditorCommand::OpenFile,
    );
    proof {
        lemma_push_one(before_o, cmds@, input.just_o, EditorCommand::OpenFile);
        assert(cmds@ == global);
    }
    if selected.0.is_some() {
        let ghost before_delete = cmds@;
        if input.just_delete {
            cmds.push(EditorCommand::DeleteSelected);
        }
        let ghost after_delete = global + emitted_if(
            input.just_delete,
            EditorCommand::DeleteSelected,
        );
        proof {
            lemma_push_one(before_delete, cmds@, input.just_delete,
                EditorCommand::DeleteSelected);
        }
        let ghost before_g = cmds@;
        if input.just_g {
            cmds.push(EditorCommand::SetMode(ManipulationMode::Move));
            cmds.push(EditorCommand::BeginTransform);
        }
        let ghost after_g = after_delete + emitted_pair_if(
            input.just_g,
            EditorCommand::SetMode(ManipulationMode::Move),
            EditorCommand::BeginTransform,
        );
        proof {
            lemma_push_pair(before_g, cmds@, input.just_g,
                EditorCommand::SetMode(ManipulationMode::Move), EditorCommand::BeginTransform);
        }
        let ghost before_r = cmds@;
        if input.just_r {
            cmds.push(EditorCommand::SetMode(ManipulationMode::Rotate));
            cmds.push(EditorCommand::BeginTransform);
        }
        let ghost after_r = after_g + emitted_pair_if(
            input.just_r,
            EditorCommand::SetMode(ManipulationMode::Rotate),
            EditorCommand::BeginTransform,
        );
        proof {
            lemma_push_pair(before_r, cmds@, input.just_r,
                EditorCommand::SetMode(ManipulationMode::Rotate), EditorCommand::BeginTransform);
        }
        let ghost before_s = cmds@;
        if input.just_s {
            cmds.push(EditorCommand::SetMode(ManipulationMode::Scale));
            cmds.push(EditorCommand::BeginTransform);
        }
        let ghost after_s = after_r + emitted_pair_if(
            input.just_s,
            EditorCommand::SetMode(ManipulationMode::Scale),
            EditorCommand::BeginTransform,
        );
        proof {
            lemma_push_pair(before_s, cmds@, input.just_s,
                EditorCommand::SetMode(ManipulationMode::Scale), EditorCommand::BeginTransform);
        }
        let ghost before_escape = cmds@;
        if input.just_escape {
            cmds.push(EditorCommand::Cancel);
        }
        let ghost with_selection = after_s + emitted_if(input.just_escape, EditorCommand::Cancel);
        proof {
            lemma_push_one(before_escape, cmds@, input.just_escape, EditorCommand::Cancel);
        }
        if manip_mode.mode != ManipulationMode::Inactive {
            let ghost before_x = cmds@;
            if input.just_x {
                cmds.push(EditorCommand::RestrictAxis(EditorAxis::X));
            }
            let ghost after_x = with_selection + emitted_if(
                input.just_x,
                EditorCommand::RestrictAxis(EditorAxis::X),
            );
            proof {
                lemma_push_one(before_x, cmds@, input.just_x,
                    EditorCommand::RestrictAxis(EditorAxis::X));
            }
            let ghost before_y = cmds@;
            if input.just_y {
                cmds.push(EditorCommand::RestrictAxis(EditorAxis::Y));
            }
            let ghost after_y = after_x + emitted_if(
                input.just_y,
                EditorCommand::RestrictAxis(EditorAxis::Y),
            );
            proof {
                lemma_push_one(before_y, cmds@, input.just_y,
                    EditorCommand::RestrictAxis(EditorAxis::Y));
            }
            let ghost before_z = cmds@;
            if input.just_z {
                cmds.push(EditorCommand::RestrictAxis(EditorAxis::Z));
            }
            proof {
                lemma_push_one(before_z, cmds@, input.just_z,
                    EditorCommand::RestrictAxis(EditorAxis::Z));
            }
        }
    }
    assert(cmds@ == hotkey_commands(*input, *selected, *manip_mode));
    cmds
}

} // verus!
