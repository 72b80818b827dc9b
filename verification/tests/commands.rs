use editor_core::CurrentObjectManipulationMode;
use editor_core::EditorAction;
use editor_core::EditorAxis;
use editor_core::EditorCommand;
use editor_core::EditorSelected;
use editor_core::EditorState;
use editor_core::ManipulationMode;
use editor_core::apply_editor_command;
use editor_core::can_change_selection;
use editor_core::editor_command_executor;

fn idle_state(selected: Option<u64>) -> EditorState {
    EditorState {
        manip_mode: CurrentObjectManipulationMode {
            mode: ManipulationMode::Inactive,
            axis_restriction: None,
            local: false,
        },
        selected: EditorSelected(selected),
    }
}

fn moving_state(selected: Option<u64>) -> EditorState {
    EditorState {
        manip_mode: CurrentObjectManipulationMode {
            mode: ManipulationMode::Move,
            axis_restriction: Some(EditorAxis::X),
            local: false,
        },
        selected: EditorSelected(selected),
    }
}

#[test]
fn delete_selected_despawns_and_clears() {
    let mut s = moving_state(Some(7));
    let acts = apply_editor_command(&mut s, &EditorCommand::DeleteSelected);
    assert_eq!(acts, vec![EditorAction::Despawn(7)]);
    assert_eq!(s.selected.0, None);
    assert_eq!(s.manip_mode.mode, ManipulationMode::Inactive);
}

#[test]
fn delete_without_selection_does_nothing() {
    let mut s = idle_state(None);
    let acts = apply_editor_command(&mut s, &EditorCommand::DeleteSelected);
    assert!(acts.is_empty());
    assert_eq!(s, idle_state(None));
}

#[test]
fn set_mode_reverts_unconfirmed_manipulation() {
    let mut s = moving_state(Some(7));
    let acts = apply_editor_command(&mut s, &EditorCommand::SetMode(ManipulationMode::Rotate));
    assert_eq!(acts, vec![EditorAction::RevertTransform(Some(7))]);
    assert_eq!(s.manip_mode.mode, ManipulationMode::Rotate);
    assert_eq!(s.manip_mode.axis_restriction, None);
}

#[test]
fn set_mode_from_idle_reverts_nothing() {
    let mut s = idle_state(Some(7));
    let acts = apply_editor_command(&mut s, &EditorCommand::SetMode(ManipulationMode::Scale));
    assert!(acts.is_empty());
    assert_eq!(s.manip_mode.mode, ManipulationMode::Scale);
}

#[test]
fn cancel_during_manipulation_reverts_and_keeps_selection() {
    let mut s = moving_state(Some(7));
    let acts = apply_editor_command(&mut s, &EditorCommand::Cancel);
    assert_eq!(acts, vec![EditorAction::RevertTransform(Some(7))]);
    assert_eq!(s.selected.0, Some(7));
    assert_eq!(s.manip_mode.mode, ManipulationMode::Inactive);
    assert_eq!(s.manip_mode.axis_restriction, None);
}

#[test]
fn cancel_while_idle_deselects() {
    let mut s = idle_state(Some(7));
    let acts = apply_editor_command(&mut s, &EditorCommand::Cancel);
    assert_eq!(acts, vec![EditorAction::Deselect]);
    assert_eq!(s.selected.0, None);
}

#[test]
fn confirm_ends_manipulation_silently() {
    let mut s = moving_state(Some(7));
    let acts = apply_editor_command(&mut s, &EditorCommand::Confirm);
    assert!(acts.is_empty());
    assert_eq!(s.manip_mode.mode, ManipulationMode::Inactive);
    assert_eq!(s.manip_mode.axis_restriction, None);
    assert_eq!(s.selected.0, Some(7));
}

#[test]
fn begin_transform_captures_selected_object() {
    let mut s = idle_state(Some(9));
    let acts = apply_editor_command(&mut s, &EditorCommand::BeginTransform);
    assert_eq!(acts, vec![EditorAction::CaptureTransformStart(9)]);
    assert_eq!(s, idle_state(Some(9)));
}

#[test]
fn restrict_axis_reverts_and_locks() {
    let mut s = moving_state(Some(7));
    let acts = apply_editor_command(&mut s, &EditorCommand::RestrictAxis(EditorAxis::Z));
    assert_eq!(acts, vec![EditorAction::RevertTransform(Some(7))]);
    assert_eq!(s.manip_mode.axis_restriction, Some(EditorAxis::Z));
    assert_eq!(s.manip_mode.mode, ManipulationMode::Move);
}

#[test]
fn swap_local_toggles() {
    let mut s = idle_state(None);
    apply_editor_command(&mut s, &EditorCommand::SwapLocal);
    assert!(s.manip_mode.local);
    apply_editor_command(&mut s, &EditorCommand::SwapLocal);
    assert!(!s.manip_mode.local);
}

#[test]
fn open_file_and_save_only_emit_actions() {
    let mut s = idle_state(None);
    assert_eq!(
        apply_editor_command(&mut s, &EditorCommand::OpenFile),
        vec![EditorAction::OpenFileDialog]
    );
    assert_eq!(
        apply_editor_command(&mut s, &EditorCommand::Save),
        vec![EditorAction::SaveScene]
    );
    assert_eq!(s, idle_state(None));
}

#[test]
fn executor_runs_queue_in_order() {
    let mut s = idle_state(Some(4));
    let cmds = vec![
        EditorCommand::SetMode(ManipulationMode::Move),
        EditorCommand::BeginTransform,
        EditorCommand::RestrictAxis(EditorAxis::Y),
        EditorCommand::Confirm,
    ];
    let acts = editor_command_executor(&mut s, &cmds);
    assert_eq!(
        acts,
        vec![
            EditorAction::CaptureTransformStart(4),
            EditorAction::RevertTransform(Some(4)),
        ]
    );
    assert_eq!(s.manip_mode.mode, ManipulationMode::Inactive);
    assert_eq!(s.manip_mode.axis_restriction, None);
    assert_eq!(s.selected.0, Some(4));
}

#[test]
fn selection_change_blocked_during_manipulation() {
    assert!(can_change_selection(&idle_state(None).manip_mode));
    assert!(!can_change_selection(&moving_state(None).manip_mode));
}
