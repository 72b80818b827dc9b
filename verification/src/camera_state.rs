//! Cursor-lock state and motion dispatch for the editor camera, and the
//! matching rules for the in-game player camera. The engine glue feeds in
//! key states and applies the returned grab decision to the window.

use vstd::prelude::*;

verus! {

/// How the window cursor should be held after a toggle.
#[derive(Clone, Copy, PartialEq, Eq, Structural, Debug)]
pub enum CursorGrab {
    /// Hide the cursor and lock it to the window.
    Locked,
    /// Show the cursor and let it move freely.
    Free,
}

/// The lock state of the editor's free camera.
#[derive(Clone, Copy, PartialEq, Eq, Structural, Debug)]
pub struct EditorCamera {
    /// Whether the cursor lock toggle is available at all.
    pub cursor_lock_toggle_enabled: bool,
    /// Whether the cursor is currently locked to the window.
    pub cursor_lock_active: bool,
}

impl Default for EditorCamera {
    /// The editor starts with a free cursor and the toggle available.
    fn default() -> (r: Self)
        ensures
            r == (EditorCamera { cursor_lock_toggle_enabled: true, cursor_lock_active: false }),
    {
        EditorCamera { cursor_lock_toggle_enabled: true, cursor_lock_active: false }
    }
}

/// Which motion the editor camera performs this frame.
#[derive(Clone, Copy, PartialEq, Eq, Structural, Debug)]
pub enum CameraMotion {
    /// Free-look orbit plus keyboard flight, while the cursor is locked.
    OrbitAndWasd,
    /// Pan across the view plane.
    Pan,
    /// Orbit around the focus.
    Orbit,
    /// Dolly along the view direction by the scroll wheel.
    Scroll,
}

/// Hotkeys only run while the cursor lock toggle is enabled; with no camera
/// present they are not suppressed.
pub fn toggle_cursor_condition(cam: Option<&EditorCamera>) -> (r: bool)
    ensures
        r == match cam {
            Some(c) => c.cursor_lock_toggle_enabled,
            None => true,
        },
{
    match cam {
        Some(c) => c.cursor_lock_toggle_enabled,
        None => true,
    }
}

/// The editor's cursor-lock toggle: pressing any key of the chord while the
/// whole chord is held flips the lock, and any press refreshes the window's
/// grab state.
pub fn toggle_cursor(cam: &mut EditorCamera, any_just_pressed: bool, all_pressed: bool) -> (r:
    Option<CursorGrab>)
    ensures
        !any_just_pressed ==> *final(cam) == *old(cam) && r is None,
        any_just_pressed ==> final(cam).cursor_lock_active == (if all_pressed {
            !old(cam).cursor_lock_active
        } else {
            old(cam).cursor_lock_active
        }),
        any_just_pressed ==> final(cam).cursor_lock_toggle_enabled == old(
            cam,
        ).cursor_lock_toggle_enabled,
        any_just_pressed ==> r == Some(
            if final(cam).cursor_lock_active {
                CursorGrab::Locked
            } else {
                CursorGrab::Free
            },
        ),
{
    if !any_just_pressed {
        return None;
    }
    if all_pressed {
        cam.cursor_lock_active = !cam.cursor_lock_active;
    }
    if cam.cursor_lock_active {
        Some(CursorGrab::Locked)
    } else {
        Some(CursorGrab::Free)
    }
}

/// Picks the editor camera's motion for the frame: locked cursor means
/// free flight; otherwise the middle mouse button pans (with shift) or
/// orbits, and the wheel dollies.
pub fn camera_motion_action(cam: &EditorCamera, middle_pressed: bool, shift_pressed: bool) -> (r:
    CameraMotion)
    ensures
        r == (if cam.cursor_lock_active {
            CameraMotion::OrbitAndWasd
        } else if middle_pressed && shift_pressed {
            CameraMotion::Pan
        } else if middle_pressed {
            CameraMotion::Orbit
        } else {
            CameraMotion::Scroll
        }),
{
    if cam.cursor_lock_active {
        CameraMotion::OrbitAndWasd
    } else if middle_pressed {
        if shift_pressed {
            CameraMotion::Pan
        } else {
            CameraMotion::Orbit
        }
    } else {
        CameraMotion::Scroll
    }
}

/// The lock state of the in-game player camera.
#[derive(Clone, Copy, PartialEq, Eq, Structural, Debug)]
pub struct PlayerCamera {
    /// Whether the cursor lock toggle is available at all.
    pub cursor_lock_toggle_enabled: bool,
    /// Whether the cursor is currently locked to the window.
    pub cursor_lock_active: bool,
}

impl Default for PlayerCamera {
    /// The game starts with the cursor captured and the toggle available.
    fn default() -> (r: Self)
        ensures
            r == (PlayerCamera { cursor_lock_toggle_enabled: true, cursor_lock_active: true }),
    {
        PlayerCamera { cursor_lock_toggle_enabled: true, cursor_lock_active: true }
    }
}

impl PlayerCamera {
    /// The game's cursor-lock toggle: one key flips the lock, and the
    /// window's grab state always follows the current lock.
    pub fn toggle_cursor(&mut self, just_pressed: bool) -> (r: CursorGrab)
        ensures
            final(self).cursor_lock_active == (if just_pressed {
                !old(self).cursor_lock_active
            } else {
                old(self).cursor_lock_active
            }),
            final(self).cursor_lock_toggle_enabled == old(self).cursor_lock_toggle_enabled,
            r == (if final(self).cursor_lock_active {
                CursorGrab::Locked
            } else {
                CursorGrab::Free
            }),
    {
        if just_pressed {
            self.cursor_lock_active = !self.cursor_lock_active;
        }
        if self.cursor_lock_active {
            CursorGrab::Locked
        } else {
            CursorGrab::Free
        }
    }

    /// The game's toggle runs only while enabled; with no camera present it
    /// is not suppressed.
    pub fn toggle_cursor_condition(cam: Option<&PlayerCamera>) -> (r: bool)
        ensures
            r == match cam {
                Some(c) => c.cursor_lock_toggle_enabled,
                None => true,
            },
    {
        match cam {
            Some(c) => c.cursor_lock_toggle_enabled,
            None => true,
        }
    }
}

/// The player camera orbits only while the cursor is locked; with no camera
/// present the orbit system is not suppressed.
pub fn orbit_condition(cam: Option<&PlayerCamera>) -> (r: bool)
    ensures
        r == match cam {
            Some(c) => c.cursor_lock_active,
            None => true,
        },
{
    match cam {
        Some(c) => c.cursor_lock_active,
        None => true,
    }
}

} // verus!
