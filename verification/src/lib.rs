//! Decision core of a small 3D level editor and its companion game.
//!
//! The host game engine owns rendering, physics, audio and the entity store;
//! this crate holds the logic that decides what the engine glue should do:
//! the object-manipulation state machine (move / rotate / scale with axis
//! locking), hotkey resolution, the editor hierarchy with cycle-safe
//! re-parenting, asset-path handling, and the input, sound and render-mode
//! decision rules.

use vstd::prelude::*;

mod camera_state;
mod commands;
mod defs;
mod hierarchy;
mod hotkeys;
mod movement;
mod paths;
mod render_mode;
mod scene_instances;
mod scene_tree;
mod sound;

pub use camera_state::CameraMotion;
pub use camera_state::CursorGrab;
pub use camera_state::EditorCamera;
pub use camera_state::PlayerCamera;
pub use camera_state::camera_motion_action;
pub use camera_state::orbit_condition;
pub use camera_state::toggle_cursor;
pub use camera_state::toggle_cursor_condition;
pub use commands::CurrentObjectManipulationMode;
pub use commands::EditorAction;
pub use commands::EditorCommand;
pub use commands::EditorSelected;
pub use commands::EditorState;
pub use commands::EntityId;
pub use commands::apply_editor_command;
pub use commands::can_change_selection;
pub use commands::editor_command_executor;
pub use defs::EditorAxis;
pub use defs::ManipulationMode;
pub use hierarchy::EditorHierarchy;
pub use hierarchy::select_parent_by_name;
pub use hotkeys::HotkeySnapshot;
pub use hotkeys::resolve_hotkey_intents;
pub use movement::MovementDecision;
pub use movement::MovementKeys;
pub use movement::PlayerInput;
pub use movement::handle_keyboard_input;
pub use movement::movement_step;
pub use paths::decimal_string;
pub use paths::level_object_asset_path;
pub use paths::strip_assets_prefix;
pub use render_mode::DefaultRenderMode;
pub use render_mode::PrepassConfig;
pub use render_mode::RenderModeKeys;
pub use render_mode::status_text;
pub use render_mode::switch_mode;
pub use scene_instances::EditorGltfInstances;
pub use scene_instances::GltfRef;
pub use scene_instances::GltfSpawnPlan;
pub use scene_instances::InstantiatedGltfInstance;
pub use scene_instances::apply_gltf_hierarchy;
pub use scene_instances::plan_gltf_spawns;
pub use scene_tree::SceneNode;
pub use scene_tree::highlight_targets;
pub use scene_tree::observe_targets;
pub use sound::SoundEvent;
pub use sound::SoundPlayback;
pub use sound::SoundSource;
pub use sound::plan_sound_playback;

verus! {

/// Marker for the player entity, as stored in saved scenes.
pub struct Player;

/// Classifies an entity the player can interact with.
pub struct Interactable {
    pub kind: InteractableType,
}

pub enum InteractableType {
    Door,
    Lever,
    Terminal,
}

/// Marker for a level root that was spawned but whose child transforms the
/// engine has not propagated yet.
pub struct AwaitingTransformPropagation;

} // verus!
