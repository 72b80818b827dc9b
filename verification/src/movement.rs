//! Player movement decisions: what the keyboard asks for, and the grounded /
//! coyote-time / jump bookkeeping that runs every physics step. The engine
//! glue turns the decisions into character-controller motion.

use vstd::prelude::*;

use crate::sound::SoundEvent;
use crate::sound::SoundSource;

verus! {

/// What the player asked for, as of the last input frame. The direction is
/// kept unnormalised, one unit per held key; the engine glue normalises it
/// before scaling by speed.
#[derive(Clone, Copy, PartialEq, Eq, Structural, Debug)]
pub struct PlayerInput {
    /// Rightward minus leftward, in {-1, 0, 1}.
    pub move_x: i8,
    /// Forward minus backward, in {-1, 0, 1}.
    pub move_y: i8,
    pub running: bool,
    pub sneaking: bool,
    pub requested_jump: bool,
}

/// The movement keys of one input frame.
#[derive(Clone, Copy, PartialEq, Eq, Structural, Debug)]
pub struct MovementKeys {
    pub forward_pressed: bool,
    pub backward_pressed: bool,
    pub left_pressed: bool,
    pub right_pressed: bool,
    pub just_run_toggle: bool,
    pub just_sneak_toggle: bool,
    pub just_jump: bool,
}

/// Reads a frame's movement keys: held keys add up to a direction, the run
/// and sneak keys toggle, and a jump request latches until the physics step
/// consumes it.
pub fn handle_keyboard_input(input: &mut PlayerInput, keys: &MovementKeys)
    ensures
        final(input).move_y == (if keys.forward_pressed {
            1int
        } else {
            0int
        }) - (if keys.backward_pressed {
            1int
        } else {
            0int
        }),
        final(input).move_x == (if keys.right_pressed {
            1int
        } else {
            0int
        }) - (if keys.left_pressed {
            1int
        } else {
            0int
        }),
        final(input).running == (old(input).running ^ keys.just_run_toggle),
        final(input).sneaking == (old(input).sneaking ^ keys.just_sneak_toggle),
        final(input).requested_jump == (old(input).requested_jump || keys.just_jump),
{
    let mut move_x: i8 = 0;
    let mut move_y: i8 = 0;
    if keys.forward_pressed {
        move_y = move_y + 1;
    }
    if keys.backward_pressed {
        move_y = move_y - 1;
    }
    if keys.left_pressed {
        move_x = move_x - 1;
    }
    if keys.right_pressed {
        move_x = move_x + 1;
    }
    if keys.just_run_toggle {
        input.running = !input.running;
    }
    input.move_x = move_x;
    input.move_y = move_y;
    if keys.just_sneak_toggle {
        input.sneaking = !input.sneaking;
    }
    // The physics step runs less often than input polling, so an unconsumed
    // request must not be overwritten by a released key.
    if !input.requested_jump {
        input.requested_jump = keys.just_jump;
    }
}

/// What one physics step decided, for the engine glue to act on.
pub struct MovementDecision {
    /// The player just touched down; play the landing sound.
    pub land_sound: Option<SoundEvent>,
    /// Begin a jump: give the vertical speed its jump value and spend the
    /// coyote window.
    pub start_jump: bool,
    /// Zero the vertical speed and restart the coyote window.
    pub reset_vertical: bool,
    pub new_was_grounded: bool,
    pub new_requested_jump: bool,
}

/// The grounded / jump bookkeeping of one physics step. Landing (grounded
/// after an airborne step) emits the body-fall sound; an airborne step
/// drops any pending jump request, so a jump can only start from the
/// ground.
pub fn movement_step(
    grounded: bool,
    was_grounded: bool,
    requested_jump: bool,
    coyote_timer_positive: bool,
) -> (d: MovementDecision)
    ensures
        d.land_sound is Some <==> (grounded && !was_grounded),
        match d.land_sound {
            Some(ev) => ev.sound_source == SoundSource::LocalPlayer && ev.sound_path@
                == "sounds/bodyfallMED.wav"@,
            None => true,
        },
        d.new_was_grounded == grounded,
        d.new_requested_jump == (if grounded {
            requested_jump
        } else {
            false
        }),
        d.start_jump == ((grounded || coyote_timer_positive) && d.new_requested_jump),
        d.reset_vertical == grounded,
{
    let land_sound: Option<SoundEvent> = if grounded && !was_grounded {
        Some(
            SoundEvent {
                sound_source: SoundSource::LocalPlayer,
                sound_path: "sounds/bodyfallMED.wav".to_owned(),
            },
        )
    } else {
        None
    };
    let new_requested_jump = if grounded {
        requested_jump
    } else {
        false
    };
    let start_jump = (grounded || coyote_timer_positive) && new_requested_jump;
    MovementDecision {
        land_sound,
        start_jump,
        reset_vertical: grounded,
        new_was_grounded: grounded,
        new_requested_jump,
    }
}

} // verus!
