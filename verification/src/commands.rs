//! The editor command state machine. User intents arrive as commands; this
//! module decides how the manipulation state changes and which side effects
//! the engine glue must carry out, as a pure transition function.

use vstd::prelude::*;

use crate::defs::EditorAxis;
use crate::defs::ManipulationMode;

verus! {

/// An entity handle, as the engine names it.
pub type EntityId = u64;

/// The currently selected editor object, if any.
#[derive(Clone, Copy, PartialEq, Eq, Structural, Debug)]
pub struct EditorSelected(pub Option<EntityId>);

/// How the selected object is being manipulated right now.
#[derive(Clone, Copy, PartialEq, Eq, Structural, Debug)]
pub struct CurrentObjectManipulationMode {
    pub mode: ManipulationMode,
    pub axis_restriction: Option<EditorAxis>,
    pub local: bool,
}

impl Default for CurrentObjectManipulationMode {
    fn default() -> (r: Self)
        ensures
            r == (CurrentObjectManipulationMode {
                mode: ManipulationMode::Inactive,
                axis_restriction: None,
                local: false,
            }),
    {
        CurrentObjectManipulationMode {
            mode: ManipulationMode::Inactive,
            axis_restriction: None,
            local: false,
        }
    }
}

/// A user intent, resolved from hotkeys or the UI.
#[derive(Clone, Copy, PartialEq, Eq, Structural, Debug)]
pub enum EditorCommand {
    OpenFile,
    DeleteSelected,
    BeginTransform,
    SetMode(ManipulationMode),
    RestrictAxis(EditorAxis),
    Confirm,
    Cancel,
    SwapLocal,
    Save,
}

/// A side effect the engine glue must perform on the state machine's behalf.
#[derive(Clone, Copy, PartialEq, Eq, Structural, Debug)]
pub enum EditorAction {
    /// Ask the user for a scene file and spawn it.
    OpenFileDialog,
    /// Remove the entity and its subtree from the world.
    Despawn(EntityId),
    /// Put the selected object back at the transform captured when the
    /// manipulation began.
    RevertTransform(Option<EntityId>),
    /// Clear the highlight meshes, the gizmos and the rotation edit buffer.
    Deselect,
    /// Record the cursor position and the object's transform as the starting
    /// point of a manipulation.
    CaptureTransformStart(EntityId),
    /// Serialize the scene to disk.
    SaveScene,
}

/// The state the command executor owns: what is selected and how it is being
/// manipulated.
#[derive(Clone, Copy, PartialEq, Eq, Structural, Debug)]
pub struct EditorState {
    pub manip_mode: CurrentObjectManipulationMode,
    pub selected: EditorSelected,
}

/// The state after one command.
pub open spec fn next_state(s: EditorState, cmd: EditorCommand) -> EditorState {
    match cmd {
        EditorCommand::OpenFile => s,
        EditorCommand::DeleteSelected => match s.selected.0 {
            Some(_) => EditorState {
                manip_mode: CurrentObjectManipulationMode {
                    mode: ManipulationMode::Inactive,
                    ..s.manip_mode
                },
                selected: EditorSelected(None),
            },
            None => s,
        },
        EditorCommand::BeginTransform => s,
        EditorCommand::SetMode(m) => EditorState {
            manip_mode: CurrentObjectManipulationMode {
                mode: m,
                axis_restriction: None,
                ..s.manip_mode
            },
            ..s
        },
        EditorCommand::RestrictAxis(a) => EditorState {
            manip_mode: CurrentObjectManipulationMode {
                axis_restriction: Some(a),
                ..s.manip_mode
            },
            ..s
        },
        EditorCommand::Confirm => if s.manip_mode.mode != ManipulationMode::Inactive {
            EditorState {
                manip_mode: CurrentObjectManipulationMode {
                    mode: ManipulationMode::Inactive,
                    axis_restriction: None,
                    ..s.manip_mode
                },
                ..s
            }
        } else {
            s
        },
        EditorCommand::Cancel => EditorState {
            manip_mode: CurrentObjectManipulationMode {
                mode: ManipulationMode::Inactive,
                axis_restriction: None,
                ..s.manip_mode
            },
            selected: if s.manip_mode.mode == ManipulationMode::Inactive {
                EditorSelected(None)
            } else {
                s.selected
            },
        },
        EditorCommand::SwapLocal => EditorState {
            manip_mode: CurrentObjectManipulationMode { local: !s.manip_mode.local, ..s.manip_mode },
            ..s
        },
        EditorCommand::Save => s,
    }
}

/// The side effects one command asks of the engine glue.
pub open spec fn actions_for(s: EditorState, cmd: EditorCommand) -> Seq<EditorAction> {
    match cmd {
        EditorCommand::OpenFile => seq![EditorAction::OpenFileDialog],
        EditorCommand::DeleteSelected => match s.selected.0 {
            Some(e) => seq![EditorAction::Despawn(e)],
            None => Seq::empty(),
        },
        EditorCommand::BeginTransform => match s.selected.0 {
            Some(e) => seq![EditorAction::CaptureTransformStart(e)],
            None => Seq::empty(),
        },
        EditorCommand::SetMode(_) => if s.manip_mode.mode != ManipulationMode::Inactive {
            seq![EditorAction::RevertTransform(s.selected.0)]
        } else {
            Seq::empty()
        },
        EditorCommand::RestrictAxis(_) => seq![EditorAction::RevertTransform(s.selected.0)],
        EditorCommand::Confirm => Seq::empty(),
        EditorCommand::Cancel => if s.manip_mode.mode != ManipulationMode::Inactive {
            seq![EditorAction::RevertTransform(s.selected.0)]
        } else {
            seq![EditorAction::Deselect]
        },
        EditorCommand::SwapLocal => Seq::empty(),
        EditorCommand::Save => seq![EditorAction::SaveScene],
    }
}

/// A whole command queue, folded through the transition function.
pub open spec fn run_commands(s: EditorState, cmds: Seq<EditorCommand>) -> (EditorState, Seq<
    EditorAction,
>)
    decreases cmds.len(),
{
    if cmds.len() == 0 {
        (s, Seq::empty())
    } else {
        let first_actions = actions_for(s, cmds[0]);
        let after_first = next_state(s, cmds[0]);
        let rest = run_commands(after_first, cmds.skip(1));
        (rest.0, first_actions + rest.1)
    }
}

/// Applies one command: updates the manipulation state and returns the side
/// effects the engine glue must perform, in order.
pub fn apply_editor_command(state: &mut EditorState, cmd: &EditorCommand) -> (actions: Vec<
    EditorAction,
>)
    ensures
        *final(state) == next_state(*old(state), *cmd),
        actions@ == actions_for(*old(state), *cmd),
{
    let mut actions: Vec<EditorAction> = Vec::new();
    match cmd {
        EditorCommand::OpenFile => {
            actions.push(EditorAction::OpenFileDialog);
        },
        EditorCommand::DeleteSelected => {
            if let Some(entity) = state.selected.0 {
                actions.push(EditorAction::Despawn(entity));
                state.selected = EditorSelected(None);
                state.manip_mode.mode = ManipulationMode::Inactive;
            }
        },
        EditorCommand::BeginTransform => {
            if let Some(entity) = state.selected.0 {
                actions.push(EditorAction::CaptureTransformStart(entity));
            }
        },
        EditorCommand::SetMode(mode) => {
            // An unconfirmed manipulation is abandoned before the tool changes.
            if state.manip_mode.mode != ManipulationMode::Inactive {
                actions.push(EditorAction::RevertTransform(state.selected.0));
            }
            state.manip_mode.axis_restriction = None;
            state.manip_mode.mode = *mode;
        },
        EditorCommand::RestrictAxis(axis) => {
            actions.push(EditorAction::RevertTransform(state.selected.0));
            state.manip_mode.axis_restriction = Some(*axis);
        },
        EditorCommand::Confirm => {
            if state.manip_mode.mode != ManipulationMode::Inactive {
                state.manip_mode.mode = ManipulationMode::Inactive;
                state.manip_mode.axis_restriction = None;
            }
        },
        EditorCommand::Cancel => {
            if state.manip_mode.mode != ManipulationMode::Inactive {
                actions.push(EditorAction::RevertTransform(state.selected.0));
            } else {
                actions.push(EditorAction::Deselect);
                state.selected = EditorSelected(None);
            }
            state.manip_mode.mode = ManipulationMode::Inactive;
            state.manip_mode.axis_restriction = None;
        },
        EditorCommand::SwapLocal => {
            state.manip_mode.local = !state.manip_mode.local;
        },
        EditorCommand::Save => {
            actions.push(EditorAction::SaveScene);
        },
    }
    actions
}

/// Drains a frame's command queue in order, returning every side effect the
/// engine glue must perform.
pub fn editor_command_executor(state: &mut EditorState, cmds: &Vec<EditorCommand>) -> (actions:
    Vec<EditorAction>)
    ensures
        *final(state) == run_commands(*old(state), cmds@).0,
        actions@ == run_commands(*old(state), cmds@).1,
{
    let ghost s0 = *state;
    let mut actions: Vec<EditorAction> = Vec::new();
    let mut i: usize = 0;
    proof {
        assert(cmds@.skip(0) =~= cmds@);
        assert(Seq::<EditorAction>::empty() + run_commands(s0, cmds@).1 =~= run_commands(
            s0,
            cmds@,
        ).1);
    }
    while i < cmds.len()
        invariant
            i <= cmds@.len(),
            run_commands(s0, cmds@).0 == run_commands(*state, cmds@.skip(i as int)).0,
            run_commands(s0, cmds@).1 == actions@ + run_commands(*state, cmds@.skip(i as int)).1,
        decreases cmds@.len() - i,
    {
        let ghost pre = *state;
        let mut step = apply_editor_command(state, &cmds[i]);
        actions.append(&mut step);
        proof {
            let tail = cmds@.skip(i as int);
            assert(tail[0] == cmds@[i as int]);
            assert(tail.skip(1) =~= cmds@.skip(i as int + 1));
        }
        i = i + 1;
    }
    proof {
        assert(cmds@.skip(cmds@.len() as int) =~= Seq::<EditorCommand>::empty());
        assert(actions@ + Seq::<EditorAction>::empty() =~= actions@);
    }
    actions
}

/// Whatever the state, a confirmed or cancelled manipulation leaves no tool
/// running and no axis locked, so the next manipulation starts clean.
pub proof fn lemma_finishing_commands_reset_mode(s: EditorState)
    ensures
        next_state(s, EditorCommand::Confirm).manip_mode.mode == ManipulationMode::Inactive,
        next_state(s, EditorCommand::Confirm).manip_mode.axis_restriction == (if s.manip_mode.mode
            == ManipulationMode::Inactive {
            s.manip_mode.axis_restriction
        } else {
            None::<EditorAxis>
        }),
        next_state(s, EditorCommand::Cancel).manip_mode.mode == ManipulationMode::Inactive,
        next_state(s, EditorCommand::Cancel).manip_mode.axis_restriction is None,
{
}

/// An axis lock can only ever be placed while some manipulation runs: the
/// hotkey layer only emits the lock while a tool is active, and every other
/// command clears or keeps the lock.
pub proof fn lemma_axis_lock_only_set_by_restrict(s: EditorState, cmd: EditorCommand)
    requires
        s.manip_mode.axis_restriction is None,
        !(cmd is RestrictAxis),
    ensures
        next_state(s, cmd).manip_mode.axis_restriction is None,
{
}

/// A fresh selection by clicking is only honoured while no manipulation is in
/// flight.
pub fn can_change_selection(manip_mode: &CurrentObjectManipulationMode) -> (r: bool)
    ensures
        r == (manip_mode.mode == ManipulationMode::Inactive),
{
    manip_mode.mode == ManipulationMode::Inactive
}

} // verus!
