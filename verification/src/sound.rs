//! One-shot sound effects: fire-and-forget playback requests.
//!
//! A play-sound request carries which sound to play (as an asset key), a
//! playback volume, and optionally a position for spatial playback. The
//! intake phase spawns a playing source per request; the update phase
//! despawns each source whose sink has drained. The audio backend itself
//! is a collaborator: these functions decide what to spawn and when to
//! despawn, on plain values.

use vstd::prelude::*;

verus! {

use crate::path::Vec3Fixed;

/// Marker for a spawned one-shot sound source.
#[derive(Clone, Copy, Debug)]
pub struct SoundEffect;

/// A request to play a sound once.
#[derive(Clone, Copy, PartialEq, Eq, Structural, Debug)]
pub struct PlaySoundEvent {
    /// The sound asset to play, by its key.
    pub sound: u64,
    /// The playback volume, in thousandths.
    pub volume: u64,
    /// Where to play it; a position makes the playback spatial.
    pub position: Option<Vec3Fixed>,
}

/// Announcement that a one-shot sound has finished, by its asset key.
#[derive(Clone, Copy, PartialEq, Eq, Structural, Debug)]
pub struct SoundFinishedEvent(pub u64);

impl PlaySoundEvent {
    pub fn new(sound: u64, volume: u64, position: Option<Vec3Fixed>) -> (ev: Self)
        ensures
            ev == (PlaySoundEvent { sound, volume, position }),
    {
        PlaySoundEvent { sound, volume, position }
    }

    /// Whether the intake phase spawns this request as spatial playback:
    /// exactly when it carries a position.
    pub fn catch_play_sound_events(&self) -> (spatial: bool)
        ensures
            spatial == self.position is Some,
    {
        match self.position {
            Some(_) => true,
            None => false,
        }
    }
}

/// Whether a spawned sound-effect entity should be despawned this frame:
/// exactly when one of its sinks exists and has drained. A sink that is
/// absent (still loading) keeps the entity alive.
pub fn update_sound_effects(sink_empty: Option<bool>, spatial_sink_empty: Option<bool>) -> (
    despawn: bool)
    ensures
        despawn == (sink_empty == Some(true) || spatial_sink_empty == Some(true)),
{
    let drained = match sink_empty {
        Some(empty) => empty,
        None => false,
    };
    let spatial_drained = match spatial_sink_empty {
        Some(empty) => empty,
        None => false,
    };
    drained || spatial_drained
}

} // verus!
