//! Per-entity transition state machines: screen fades and audio fades.
//!
//! Each transition owns one one-shot countdown timer and is driven once per
//! frame by its update function, which computes the driven scalar (an
//! opacity or a playback volume), advances the timer, and reports when the
//! state must be detached from its entity. On the tick that completes the
//! timer the driven scalar is written at exactly its endpoint, so a fade
//! never leaves its property short of the target.

use vstd::prelude::*;

verus! {

use crate::fixed::{FRAC_SCALE, lerp_fixed, lerp_u64, lemma_lerp_at_start, lemma_lerp_at_end};
use crate::timer::{CountdownTimer, TimerMode, once_crosses};

/// Which looping ambient source a fade addresses.
#[derive(Clone, Copy, PartialEq, Eq, Structural, Hash, Debug)]
pub enum AmbientAudioType {
    Computer,
    Storm,
}

impl AmbientAudioType {
    /// Every ambient source the scene owns, in spawn order.
    pub fn all() -> (types: Vec<AmbientAudioType>)
        ensures
            types@ == seq![AmbientAudioType::Computer, AmbientAudioType::Storm],
    {
        let mut types = Vec::new();
        types.push(AmbientAudioType::Computer);
        types.push(AmbientAudioType::Storm);
        proof {
            assert(types@ =~= seq![AmbientAudioType::Computer, AmbientAudioType::Storm]);
        }
        types
    }

    /// The source's display name, used to label its entity.
    pub fn label(&self) -> (name: &'static str)
        ensures
            *self is Computer ==> name@ == "Computer"@,
            *self is Storm ==> name@ == "Storm"@,
    {
        match self {
            AmbientAudioType::Computer => "Computer",
            AmbientAudioType::Storm => "Storm",
        }
    }
}

/// Marker pairing an audio source entity with its ambient type.
#[derive(Clone, Copy, Debug)]
pub struct AmbientAudio(pub AmbientAudioType);

impl AmbientAudio {
    /// Whether this source plays the given ambient type.
    pub fn is_type(&self, audio_type: &AmbientAudioType) -> (r: bool)
        ensures
            r == (self.0 == *audio_type),
    {
        self.0 == *audio_type
    }
}

/// A pending or attached ambient-audio transition.
///
/// `VolumeFade` interpolates from a captured live volume to an explicit
/// target; `FadeOut` interpolates from a captured live volume to silence
/// and pauses playback on completion; `FadeIn` interpolates from silence to
/// an explicit target; `Play` sets a volume immediately, with no timer.
#[derive(Clone, Copy, Debug)]
pub enum AmbientAudioEvent {
    VolumeFade { audio_type: AmbientAudioType, timer: CountdownTimer, target_volume: u64, starting_volume: u64 },
    FadeOut { audio_type: AmbientAudioType, timer: CountdownTimer, starting_volume: u64 },
    FadeIn { audio_type: AmbientAudioType, timer: CountdownTimer, target_volume: u64 },
    Play { audio_type: AmbientAudioType, volume: u64 },
}

/// The volume an ambient transition drives at a given progress fraction.
pub open spec fn fade_value(ev: AmbientAudioEvent, frac: int) -> int {
    match ev {
        AmbientAudioEvent::VolumeFade { target_volume, starting_volume, .. } => lerp_fixed(
            starting_volume as int,
            target_volume as int,
            frac,
        ),
        AmbientAudioEvent::FadeOut { starting_volume, .. } => lerp_fixed(
            starting_volume as int,
            0,
            frac,
        ),
        AmbientAudioEvent::FadeIn { target_volume, .. } => lerp_fixed(
            0,
            target_volume as int,
            frac,
        ),
        AmbientAudioEvent::Play { volume, .. } => volume as int,
    }
}

/// The transition's timer, where it has one.
pub open spec fn fade_timer(ev: AmbientAudioEvent) -> Option<CountdownTimer> {
    match ev {
        AmbientAudioEvent::VolumeFade { timer, .. } => Some(timer),
        AmbientAudioEvent::FadeOut { timer, .. } => Some(timer),
        AmbientAudioEvent::FadeIn { timer, .. } => Some(timer),
        AmbientAudioEvent::Play { .. } => None,
    }
}

/// An attached transition carries a live one-shot timer: completion
/// detaches it in the same frame.
pub open spec fn fade_event_wf(ev: AmbientAudioEvent) -> bool {
    match fade_timer(ev) {
        Some(t) => t.wf() && t.mode_spec() is Once && !t.is_completed(),
        None => true,
    }
}

/// Whether this frame's delta completes the transition's timer.
pub open spec fn fade_crosses(ev: AmbientAudioEvent, delta: int) -> bool {
    match fade_timer(ev) {
        Some(t) => once_crosses(t.duration(), t.elapsed(), delta),
        None => true,
    }
}

/// What the adoption phase turns an intent event into: the same event with
/// the live playback volume written into its starting volume (where the
/// variant has one).
pub open spec fn adopted_event(ev: AmbientAudioEvent, live_volume: u64) -> AmbientAudioEvent {
    match ev {
        AmbientAudioEvent::VolumeFade { audio_type, timer, target_volume, .. } =>
            AmbientAudioEvent::VolumeFade {
            audio_type,
            timer,
            target_volume,
            starting_volume: live_volume,
        },
        AmbientAudioEvent::FadeOut { audio_type, timer, .. } => AmbientAudioEvent::FadeOut {
            audio_type,
            timer,
            starting_volume: live_volume,
        },
        _ => ev,
    }
}

impl AmbientAudioEvent {
    /// A fade from the (later captured) live volume to an explicit target.
    pub fn volume_fade(audio_type: AmbientAudioType, duration_ms: u64, target_volume: u64) -> (
        ev: Self)
        ensures
            ev matches AmbientAudioEvent::VolumeFade {
                audio_type: a,
                timer,
                target_volume: t,
                starting_volume,
            } && a == audio_type && t == target_volume && starting_volume == 0 && timer
                == CountdownTimer::new_spec(duration_ms),
            fade_event_wf(ev),
    {
        AmbientAudioEvent::VolumeFade {
            audio_type,
            timer: CountdownTimer::new(duration_ms, TimerMode::Once),
            target_volume,
            starting_volume: 0,
        }
    }

    /// A fade from the (later captured) live volume to silence.
    pub fn fade_out(audio_type: AmbientAudioType, duration_ms: u64) -> (ev: Self)
        ensures
            ev matches AmbientAudioEvent::FadeOut { audio_type: a, timer, starting_volume } && a
                == audio_type && starting_volume == 0 && timer == CountdownTimer::new_spec(
                duration_ms,
            ),
            fade_event_wf(ev),
    {
        AmbientAudioEvent::FadeOut {
            audio_type,
            timer: CountdownTimer::new(duration_ms, TimerMode::Once),
            starting_volume: 0,
        }
    }

    /// A fade from silence to an explicit target.
    pub fn fade_in(audio_type: AmbientAudioType, duration_ms: u64, target_volume: u64) -> (ev:
        Self)
        ensures
            ev matches AmbientAudioEvent::FadeIn { audio_type: a, timer, target_volume: t } && a
                == audio_type && t == target_volume && timer == CountdownTimer::new_spec(
                duration_ms,
            ),
            fade_event_wf(ev),
    {
        AmbientAudioEvent::FadeIn {
            audio_type,
            timer: CountdownTimer::new(duration_ms, TimerMode::Once),
            target_volume,
        }
    }

    /// An immediate one-shot volume set.
    pub fn play(audio_type: AmbientAudioType, volume: u64) -> (ev: Self)
        ensures
            ev == (AmbientAudioEvent::Play { audio_type, volume }),
            fade_event_wf(ev),
    {
        AmbientAudioEvent::Play { audio_type, volume }
    }

    /// Which ambient source the event addresses.
    pub fn ambient_type(&self) -> (t: AmbientAudioType)
        ensures
            t == self.spec_ambient_type(),
    {
        match self {
            AmbientAudioEvent::VolumeFade { audio_type, .. } => *audio_type,
            AmbientAudioEvent::FadeOut { audio_type, .. } => *audio_type,
            AmbientAudioEvent::FadeIn { audio_type, .. } => *audio_type,
            AmbientAudioEvent::Play { audio_type, .. } => *audio_type,
        }
    }

    pub open spec fn spec_ambient_type(self) -> AmbientAudioType {
        match self {
            AmbientAudioEvent::VolumeFade { audio_type, .. } => audio_type,
            AmbientAudioEvent::FadeOut { audio_type, .. } => audio_type,
            AmbientAudioEvent::FadeIn { audio_type, .. } => audio_type,
            AmbientAudioEvent::Play { audio_type, .. } => audio_type,
        }
    }

    /// Writes the captured live volume into the variants that fade away
    /// from it; the others start from a fixed baseline and are unchanged.
    pub fn set_starting_volume(&mut self, starting_volume: u64)
        ensures
            *final(self) == adopted_event(*old(self), starting_volume),
    {
        match self {
            AmbientAudioEvent::VolumeFade { starting_volume: volume, .. } => {
                *volume = starting_volume;
            },
            AmbientAudioEvent::FadeOut { starting_volume: volume, .. } => {
                *volume = starting_volume;
            },
            AmbientAudioEvent::FadeIn { .. } => {
            },
            AmbientAudioEvent::Play { .. } => {
            },
        }
    }

    /// The starting volume a variant fades away from: the captured live
    /// volume, or the fixed baseline of 0 where none is captured.
    pub open spec fn spec_starting_volume(self) -> u64 {
        match self {
            AmbientAudioEvent::VolumeFade { starting_volume, .. } => starting_volume,
            AmbientAudioEvent::FadeOut { starting_volume, .. } => starting_volume,
            AmbientAudioEvent::FadeIn { .. } => 0,
            AmbientAudioEvent::Play { .. } => 0,
        }
    }

    /// The captured starting volume, or the fixed baseline of 0 for the
    /// variants that do not capture one.
    pub fn get_starting_volume(&self) -> (v: u64)
        ensures
            v == self.spec_starting_volume(),
            !(*self is Play) ==> v as int == fade_value(*self, 0),
    {
        proof {
            match *self {
                AmbientAudioEvent::VolumeFade { target_volume, starting_volume, .. } => {
                    lemma_lerp_at_start(starting_volume as int, target_volume as int);
                },
                AmbientAudioEvent::FadeOut { starting_volume, .. } => {
                    lemma_lerp_at_start(starting_volume as int, 0);
                },
                AmbientAudioEvent::FadeIn { target_volume, .. } => {
                    lemma_lerp_at_start(0, target_volume as int);
                },
                AmbientAudioEvent::Play { .. } => {
                },
            }
        }
        match self {
            AmbientAudioEvent::VolumeFade { starting_volume, .. } => *starting_volume,
            AmbientAudioEvent::FadeOut { starting_volume, .. } => *starting_volume,
            AmbientAudioEvent::FadeIn { .. } => 0,
            AmbientAudioEvent::Play { .. } => 0,
        }
    }
}

/// How one tick of a live one-shot timer relates its before and after
/// states.
pub open spec fn ticked_once(before: CountdownTimer, after: CountdownTimer, delta: int) -> bool {
    &&& after.duration() == before.duration()
    &&& after.mode_spec() == before.mode_spec()
    &&& after.elapsed() == crate::timer::once_step_elapsed(
        before.duration(),
        before.elapsed(),
        delta,
    )
    &&& after.is_completed() == (before.is_completed() || once_crosses(
        before.duration(),
        before.elapsed(),
        delta,
    ))
}

/// What one ambient update tick asks of the audio sink.
#[derive(Clone, Copy, PartialEq, Eq, Structural, Debug)]
pub struct AmbientAudioStep {
    /// The playback volume to write this frame.
    pub volume: u64,
    /// Pause playback (a completed `FadeOut` pauses at exactly zero).
    pub pause: bool,
    /// Remove the transition from its entity this frame.
    pub detach: bool,
}

/// The adoption phase's per-event work: capture the live playback volume of
/// the addressed source into the caught intent event, producing the state
/// to attach. The capture happens at adoption time, not at tick time, so a
/// fade requested with only a target originates from whatever volume is
/// actually playing.
pub fn catch_ambient_audio_events(ev: &AmbientAudioEvent, live_volume: u64) -> (adopted:
    AmbientAudioEvent)
    requires
        fade_event_wf(*ev),
    ensures
        adopted == adopted_event(*ev, live_volume),
        fade_event_wf(adopted),
{
    let mut adopted = ev.clone();
    adopted.set_starting_volume(live_volume);
    adopted
}

/// One frame of an attached ambient transition: computes the driven volume
/// from the timer's progress, advances the timer, and reports completion.
/// On the completing tick the volume is written at exactly its endpoint
/// (the target, or exact silence for `FadeOut`), and the state detaches.
pub fn update_ambient_audio_events(ev: &mut AmbientAudioEvent, delta_ms: u64) -> (step:
    AmbientAudioStep)
    requires
        fade_event_wf(*old(ev)),
    ensures
        final(ev).spec_ambient_type() == old(ev).spec_ambient_type(),
        step.detach == fade_crosses(*old(ev), delta_ms as int),
        step.volume as int == fade_value(
            *old(ev),
            if step.detach {
                FRAC_SCALE as int
            } else {
                fade_timer(*old(ev))->Some_0.spec_fraction()
            },
        ),
        step.pause == (old(ev) matches AmbientAudioEvent::FadeOut { .. } && step.detach),
        !step.detach ==> fade_event_wf(*final(ev)),
        fade_value(*final(ev), 0) == fade_value(*old(ev), 0),
        match (*old(ev), *final(ev)) {
            (
                AmbientAudioEvent::VolumeFade { audio_type: a0, timer: t0, target_volume: tv0, starting_volume: sv0 },
                AmbientAudioEvent::VolumeFade { audio_type: a1, timer: t1, target_volume: tv1, starting_volume: sv1 },
            ) => a0 == a1 && tv0 == tv1 && sv0 == sv1 && ticked_once(t0, t1, delta_ms as int),
            (
                AmbientAudioEvent::FadeOut { audio_type: a0, timer: t0, starting_volume: sv0 },
                AmbientAudioEvent::FadeOut { audio_type: a1, timer: t1, starting_volume: sv1 },
            ) => a0 == a1 && sv0 == sv1 && ticked_once(t0, t1, delta_ms as int),
            (
                AmbientAudioEvent::FadeIn { audio_type: a0, timer: t0, target_volume: tv0 },
                AmbientAudioEvent::FadeIn { audio_type: a1, timer: t1, target_volume: tv1 },
            ) => a0 == a1 && tv0 == tv1 && ticked_once(t0, t1, delta_ms as int),
            (AmbientAudioEvent::Play { .. }, AmbientAudioEvent::Play { .. }) => *final(ev) == *old(
                ev,
            ),
            _ => false,
        },
{
    match ev {
        AmbientAudioEvent::VolumeFade { timer, target_volume, starting_volume, .. } => {
            let frac_before = timer.fraction();
            let just = timer.tick(delta_ms);
            let frac = if just {
                FRAC_SCALE
            } else {
                frac_before
            };
            let volume = lerp_u64(*starting_volume, *target_volume, frac);
            AmbientAudioStep { volume, pause: false, detach: just }
        },
        AmbientAudioEvent::FadeOut { timer, starting_volume, .. } => {
            let frac_before = timer.fraction();
            let just = timer.tick(delta_ms);
            let frac = if just {
                FRAC_SCALE
            } else {
                frac_before
            };
            let volume = lerp_u64(*starting_volume, 0, frac);
            AmbientAudioStep { volume, pause: just, detach: just }
        },
        AmbientAudioEvent::FadeIn { timer, target_volume, .. } => {
            let frac_before = timer.fraction();
            let just = timer.tick(delta_ms);
            let frac = if just {
                FRAC_SCALE
            } else {
                frac_before
            };
            let volume = lerp_u64(0, *target_volume, frac);
            AmbientAudioStep { volume, pause: false, detach: just }
        },
        AmbientAudioEvent::Play { volume, .. } => {
            AmbientAudioStep { volume: *volume, pause: false, detach: true }
        },
    }
}

/// Fade endpoint exactness law: at full progress a `FadeOut` drives its
/// scalar to exactly 0 and a `FadeIn` to exactly its configured target;
/// combined with the update contract, the completing tick writes exactly
/// that endpoint and detaches the state.
pub proof fn lemma_fade_endpoint_exactness(ev: AmbientAudioEvent)
    ensures
        ev matches AmbientAudioEvent::FadeOut { .. } ==> fade_value(ev, FRAC_SCALE as int) == 0,
        ev matches AmbientAudioEvent::FadeIn { target_volume, .. } ==> fade_value(
            ev,
            FRAC_SCALE as int,
        ) == target_volume,
{
    match ev {
        AmbientAudioEvent::FadeOut { starting_volume, .. } => {
            lemma_lerp_at_end(starting_volume as int, 0);
        },
        AmbientAudioEvent::FadeIn { target_volume, .. } => {
            lemma_lerp_at_end(0, target_volume as int);
        },
        _ => {
        },
    }
}

/// Volume-fade live-start law: adopting a `VolumeFade` intent against a
/// source playing at some live volume yields a transition whose driven
/// scalar is exactly that live volume at progress 0 and exactly the
/// configured target at full progress.
pub proof fn lemma_volume_fade_captures_live_start(ev: AmbientAudioEvent, live_volume: u64)
    requires
        ev matches AmbientAudioEvent::VolumeFade { .. },
    ensures
        fade_value(adopted_event(ev, live_volume), 0) == live_volume,
        ev matches AmbientAudioEvent::VolumeFade { target_volume, .. } ==> fade_value(
            adopted_event(ev, live_volume),
            FRAC_SCALE as int,
        ) == target_volume,
{
    match ev {
        AmbientAudioEvent::VolumeFade { target_volume, .. } => {
            lemma_lerp_at_start(live_volume as int, target_volume as int);
            lemma_lerp_at_end(live_volume as int, target_volume as int);
        },
        _ => {
        },
    }
}

/// Marker for the full-screen black overlay entity that blackout
/// transitions drive.
#[derive(Clone, Copy, Debug)]
pub struct BlackoutUI;

/// A screen-blackout transition attached to the overlay entity.
#[derive(Clone, Copy, Debug)]
pub enum BlackoutTransition {
    FadeIn(CountdownTimer),
    FadeOut(CountdownTimer),
}

/// The overlay opacity a blackout transition drives at a given fraction:
/// a `FadeIn` (into the scene) thins the black overlay as time passes, a
/// `FadeOut` thickens it.
pub open spec fn blackout_value(tr: BlackoutTransition, frac: int) -> int {
    match tr {
        BlackoutTransition::FadeIn(_) => FRAC_SCALE as int - frac,
        BlackoutTransition::FadeOut(_) => frac,
    }
}

pub open spec fn blackout_timer(tr: BlackoutTransition) -> CountdownTimer {
    match tr {
        BlackoutTransition::FadeIn(t) => t,
        BlackoutTransition::FadeOut(t) => t,
    }
}

/// An attached blackout transition carries a live one-shot timer.
pub open spec fn blackout_wf(tr: BlackoutTransition) -> bool {
    &&& blackout_timer(tr).wf()
    &&& blackout_timer(tr).mode_spec() is Once
    &&& !blackout_timer(tr).is_completed()
}

/// What one blackout update tick asks of the overlay.
#[derive(Clone, Copy, PartialEq, Eq, Structural, Debug)]
pub struct BlackoutStep {
    /// The overlay opacity to write this frame, in `[0, FRAC_SCALE]`.
    pub alpha: u64,
    /// Remove the transition from the overlay entity this frame.
    pub detach: bool,
}

impl BlackoutTransition {
    /// A fade from full black into the scene.
    pub fn fade_in(duration_ms: u64) -> (tr: Self)
        ensures
            tr == BlackoutTransition::FadeIn(CountdownTimer::new_spec(duration_ms)),
            blackout_wf(tr),
    {
        BlackoutTransition::FadeIn(CountdownTimer::new(duration_ms, TimerMode::Once))
    }

    /// A fade from the scene to full black.
    pub fn fade_out(duration_ms: u64) -> (tr: Self)
        ensures
            tr == BlackoutTransition::FadeOut(CountdownTimer::new_spec(duration_ms)),
            blackout_wf(tr),
    {
        BlackoutTransition::FadeOut(CountdownTimer::new(duration_ms, TimerMode::Once))
    }
}

/// One frame of an attached blackout transition: computes the overlay
/// opacity from the timer's progress, advances the timer, and reports
/// completion. The completing tick writes the exact endpoint (0 for a
/// `FadeIn`, full black for a `FadeOut`) and detaches the state.
pub fn update_blackout(tr: &mut BlackoutTransition, delta_ms: u64) -> (step: BlackoutStep)
    requires
        blackout_wf(*old(tr)),
    ensures
        step.detach == once_crosses(
            blackout_timer(*old(tr)).duration(),
            blackout_timer(*old(tr)).elapsed(),
            delta_ms as int,
        ),
        step.alpha as int == blackout_value(
            *old(tr),
            if step.detach {
                FRAC_SCALE as int
            } else {
                blackout_timer(*old(tr)).spec_fraction()
            },
        ),
        step.alpha <= FRAC_SCALE,
        !step.detach ==> blackout_wf(*final(tr)),
        (*final(tr)) is FadeIn == (*old(tr)) is FadeIn,
        ticked_once(blackout_timer(*old(tr)), blackout_timer(*final(tr)), delta_ms as int),
{
    match tr {
        BlackoutTransition::FadeIn(timer) => {
            let alpha_before = timer.fraction_remaining();
            let just = timer.tick(delta_ms);
            let alpha = if just {
                0
            } else {
                alpha_before
            };
            BlackoutStep { alpha, detach: just }
        },
        BlackoutTransition::FadeOut(timer) => {
            let alpha_before = timer.fraction();
            let just = timer.tick(delta_ms);
            let alpha = if just {
                FRAC_SCALE
            } else {
                alpha_before
            };
            BlackoutStep { alpha, detach: just }
        },
    }
}

} // verus!
