//! Sound triggering decisions: where a requested sound is played from, and
//! which bookkeeping components the emitting entity needs.

use vstd::prelude::*;

use crate::commands::EntityId;

verus! {

/// Where a sound comes from. A located sound's world position is engine
/// data; the decision rules only need to know that one must be emitted from
/// a fresh entity at that position.
#[derive(Clone, Copy, PartialEq, Eq, Structural, Debug)]
pub enum SoundSource {
    /// Emitted from an entity that already exists.
    Attached(EntityId),
    /// Emitted from a point in the world; a carrier entity is spawned there.
    Located,
    /// Made by the local player; played flat, not spatially.
    LocalPlayer,
}

/// A request to play a sound file from some source.
pub struct SoundEvent {
    pub sound_source: SoundSource,
    pub sound_path: String,
}

/// How the engine glue must play a requested sound.
#[derive(Clone, Copy, PartialEq, Eq, Structural, Debug)]
pub enum SoundPlayback {
    Spatial {
        /// The existing entity to emit from; a fresh carrier entity is
        /// spawned at the sound's position when there is none.
        attach_to_existing: Option<EntityId>,
        /// Whether the emitting entity still needs its spatial emitter
        /// components.
        insert_emitter: bool,
        /// Whether the emitting entity is temporary and must be despawned
        /// once playback stops.
        despawn_after: bool,
    },
    /// Played without spatialisation.
    Flat,
}

/// Decides how to play a sound: attached sounds reuse their entity and only
/// get emitter components when missing, located sounds get a temporary
/// carrier entity that is cleaned up afterwards, and the local player's own
/// sounds are played flat.
pub fn plan_sound_playback(source: &SoundSource, attached_has_emitter: bool) -> (r: SoundPlayback)
    ensures
        r == match *source {
            SoundSource::Attached(e) => (SoundPlayback::Spatial {
                attach_to_existing: Some(e),
                insert_emitter: !attached_has_emitter,
                despawn_after: false,
            }),
            SoundSource::Located => (SoundPlayback::Spatial {
                attach_to_existing: None,
                insert_emitter: true,
                despawn_after: true,
            }),
            SoundSource::LocalPlayer => SoundPlayback::Flat,
        },
{
    match source {
        SoundSource::Attached(e) => SoundPlayback::Spatial {
            attach_to_existing: Some(*e),
            insert_emitter: !attached_has_emitter,
            despawn_after: false,
        },
        SoundSource::Located => SoundPlayback::Spatial {
            attach_to_existing: None,
            insert_emitter: true,
            despawn_after: true,
        },
        SoundSource::LocalPlayer => SoundPlayback::Flat,
    }
}

} // verus!
