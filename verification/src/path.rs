//! The multi-segment camera path follower.
//!
//! A follower holds an ordered queue of path segments, each with a target
//! transform, a duration and an easing curve, plus one active countdown
//! timer whose duration always equals the front segment's. Each frame the
//! live transform is interpolated toward the front target by the eased
//! progress fraction; the tick that completes a segment lands the transform
//! exactly on that segment's target, pops it, and either starts the next
//! segment with a fresh timer or — when the queue drains — detaches the
//! whole follower.
//!
//! Transforms are fixed-point data: coordinates and rotation components in
//! thousandths. Rotation blending is linear on the four components, exact
//! at both endpoints; a rendering consumer renormalizes when it converts
//! back to its own rotation type.

use vstd::prelude::*;

verus! {

use std::collections::VecDeque;
use crate::easing::{EasingFunction, ease, ease_spec};
use crate::fixed::{FRAC_SCALE, lerp_fixed, lerp_i64};
use crate::timer::{CountdownTimer, TimerMode, once_crosses};
use vstd::arithmetic::div_mod::{lemma_div_is_ordered, lemma_div_multiples_vanish};
use vstd::arithmetic::mul::{lemma_mul_inequality, lemma_mul_is_commutative};

/// A position in fixed-point thousandths.
#[derive(Clone, Copy, PartialEq, Eq, Structural, Debug)]
pub struct Vec3Fixed {
    pub x: i64,
    pub y: i64,
    pub z: i64,
}

/// A rotation as four fixed-point components in thousandths.
#[derive(Clone, Copy, PartialEq, Eq, Structural, Debug)]
pub struct QuatFixed {
    pub x: i64,
    pub y: i64,
    pub z: i64,
    pub w: i64,
}

/// A camera pose: position and rotation.
#[derive(Clone, Copy, PartialEq, Eq, Structural, Debug)]
pub struct Transform {
    pub translation: Vec3Fixed,
    pub rotation: QuatFixed,
}

/// One leg of a camera path.
#[derive(Clone, Copy, PartialEq, Eq, Structural, Debug)]
pub struct CameraPathSegment {
    pub target_transform: Transform,
    pub curve: EasingFunction,
    pub length: u64,
}

/// A transform interpolated toward a target by `frac / FRAC_SCALE`.
pub open spec fn lerp_transform(from: Transform, to: Transform, frac: int) -> Transform {
    Transform {
        translation: Vec3Fixed {
            x: lerp_fixed(from.translation.x as int, to.translation.x as int, frac) as i64,
            y: lerp_fixed(from.translation.y as int, to.translation.y as int, frac) as i64,
            z: lerp_fixed(from.translation.z as int, to.translation.z as int, frac) as i64,
        },
        rotation: QuatFixed {
            x: lerp_fixed(from.rotation.x as int, to.rotation.x as int, frac) as i64,
            y: lerp_fixed(from.rotation.y as int, to.rotation.y as int, frac) as i64,
            z: lerp_fixed(from.rotation.z as int, to.rotation.z as int, frac) as i64,
            w: lerp_fixed(from.rotation.w as int, to.rotation.w as int, frac) as i64,
        },
    }
}

/// Interpolates a whole transform toward a target.
pub fn lerp_transform_exec(from: &Transform, to: &Transform, frac: u64) -> (r: Transform)
    requires
        frac <= FRAC_SCALE,
    ensures
        r == lerp_transform(*from, *to, frac as int),
{
    Transform {
        translation: Vec3Fixed {
            x: lerp_i64(from.translation.x, to.translation.x, frac),
            y: lerp_i64(from.translation.y, to.translation.y, frac),
            z: lerp_i64(from.translation.z, to.translation.z, frac),
        },
        rotation: QuatFixed {
            x: lerp_i64(from.rotation.x, to.rotation.x, frac),
            y: lerp_i64(from.rotation.y, to.rotation.y, frac),
            z: lerp_i64(from.rotation.z, to.rotation.z, frac),
            w: lerp_i64(from.rotation.w, to.rotation.w, frac),
        },
    }
}

/// The frame delta scaled by the time-dilation factor (in thousandths).
pub open spec fn scaled_delta(delta: int, dilation: int) -> int {
    delta * dilation / (FRAC_SCALE as int)
}

/// An ordered queue of path segments attached to a camera entity.
pub struct CameraPathFollower {
    pub path: VecDeque<CameraPathSegment>,
    pub timer: CountdownTimer,
    pub should_run: bool,
}

impl CameraPathFollower {
    /// Invariant: the active timer is a live one-shot whose duration equals
    /// the front segment's.
    pub open spec fn wf(self) -> bool {
        &&& self.timer.wf()
        &&& self.timer.mode_spec() is Once
        &&& self.path@.len() > 0 ==> (!self.timer.is_completed() && self.timer.duration()
            == self.path@[0].length)
    }

    pub open spec fn segments(self) -> Seq<CameraPathSegment> {
        self.path@
    }

    /// A single eased move to one target transform.
    pub fn to_transform(transform: Transform, duration_ms: u64) -> (f: Self)
        ensures
            f.segments() == seq![
                CameraPathSegment {
                    target_transform: transform,
                    curve: EasingFunction::EaseInOut,
                    length: duration_ms,
                },
            ],
            f.timer == CountdownTimer::new_spec(duration_ms),
            f.should_run,
            f.wf(),
    {
        let mut cam_path = Self::default();
        cam_path.push_node(transform, duration_ms, EasingFunction::EaseInOut);
        proof {
            assert(cam_path.segments() =~= seq![
                CameraPathSegment {
                    target_transform: transform,
                    curve: EasingFunction::EaseInOut,
                    length: duration_ms,
                },
            ]);
        }
        cam_path
    }

    /// Appends a segment; a push onto an empty queue (re)initializes the
    /// active timer to the new segment's duration, so a follower built from
    /// one node starts counting down right away.
    pub fn push_node(&mut self, target: Transform, duration_ms: u64, curve: EasingFunction)
        requires
            old(self).wf(),
        ensures
            final(self).wf(),
            final(self).segments() == old(self).segments().push(
                CameraPathSegment { target_transform: target, curve, length: duration_ms },
            ),
            final(self).should_run == old(self).should_run,
            old(self).segments().len() == 0 ==> final(self).timer == CountdownTimer::new_spec(
                duration_ms,
            ),
            old(self).segments().len() > 0 ==> final(self).timer == old(self).timer,
    {
        if self.path.len() == 0 {
            self.timer = CountdownTimer::new(duration_ms, TimerMode::Once);
        }
        self.path.push_back(
            CameraPathSegment { target_transform: target, curve, length: duration_ms },
        );
    }

    /// The front segment's target pose. Callers must check non-emptiness
    /// first: there is no default pose to fall back on.
    pub fn get_current_target(&self) -> (t: &Transform)
        requires
            self.segments().len() > 0,
        ensures
            *t == self.segments()[0].target_transform,
    {
        &self.path[0].target_transform
    }

    /// The front segment's easing curve.
    pub fn get_current_curve(&self) -> (c: EasingFunction)
        requires
            self.segments().len() > 0,
        ensures
            c == self.segments()[0].curve,
    {
        self.path[0].curve
    }

    /// The front segment's duration in milliseconds.
    pub fn get_current_length(&self) -> (l: u64)
        requires
            self.segments().len() > 0,
        ensures
            l == self.segments()[0].length,
    {
        self.path[0].length
    }

    /// All queued segments, front first, for inspection and debug drawing.
    pub fn iter_transforms(&self) -> (segments: &VecDeque<CameraPathSegment>)
        ensures
            segments@ == self.segments(),
    {
        &self.path
    }
}

impl Default for CameraPathFollower {
    /// An empty follower: no segments, a zero timer, running.
    fn default() -> (f: Self)
        ensures
            f.segments() == Seq::<CameraPathSegment>::empty(),
            f.timer == CountdownTimer::new_spec(0),
            f.should_run,
            f.wf(),
    {
        let f = CameraPathFollower {
            path: VecDeque::new(),
            timer: CountdownTimer::new(0, TimerMode::Once),
            should_run: true,
        };
        f
    }
}

/// A timer sitting completed at its duration, as a drained follower
/// leaves its own.
pub open spec fn finished_timer(t: CountdownTimer) -> CountdownTimer {
    CountdownTimer {
        duration_ms: t.duration_ms,
        elapsed_ms: t.duration_ms,
        mode: t.mode,
        completed: true,
    }
}

/// One step of a running follower, on plain values: the remaining
/// segments, the new active timer, the pose written to the live transform,
/// and whether the follower detaches.
pub open spec fn follow_step_model(
    segments: Seq<CameraPathSegment>,
    timer: CountdownTimer,
    tr: Transform,
    delta: int,
    dilation: int,
) -> (Seq<CameraPathSegment>, CountdownTimer, Transform, bool) {
    let front = segments[0];
    let scaled = scaled_delta(delta, dilation);
    let crossed = once_crosses(timer.duration(), timer.elapsed(), scaled);
    if crossed {
        let rest = segments.drop_first();
        if rest.len() == 0 {
            (rest, finished_timer(timer), front.target_transform, true)
        } else {
            (rest, CountdownTimer::new_spec(rest[0].length), front.target_transform, false)
        }
    } else {
        let eased = ease_spec(front.curve, timer.spec_fraction());
        (
            segments,
            CountdownTimer {
                duration_ms: timer.duration_ms,
                elapsed_ms: (timer.elapsed() + scaled) as u64,
                mode: timer.mode,
                completed: false,
            },
            lerp_transform(tr, front.target_transform, eased),
            false,
        )
    }
}

/// What one follower step does, in full; a disabled follower does nothing.
pub open spec fn follow_step_spec(
    f: CameraPathFollower,
    tr: Transform,
    delta: int,
    dilation: int,
) -> (Seq<CameraPathSegment>, CountdownTimer, Transform, bool) {
    if !f.should_run {
        (f.segments(), f.timer, tr, false)
    } else {
        follow_step_model(f.segments(), f.timer, tr, delta, dilation)
    }
}

/// One frame of the follower: interpolate the live transform toward the
/// front target by the eased progress, advance the timer by the dilated
/// frame delta, and on segment completion land exactly on the target, pop
/// the segment, and start the next one — or report detachment when the
/// queue has drained. Returns true exactly when the follower must be
/// removed from its entity.
pub fn follow_path(
    f: &mut CameraPathFollower,
    transform: &mut Transform,
    delta_ms: u64,
    dilation_permille: u64,
) -> (detach: bool)
    requires
        old(f).wf(),
        old(f).segments().len() > 0,
        dilation_permille <= FRAC_SCALE,
    ensures
        final(f).wf(),
        ({
            let (spec_segments, spec_timer, spec_tr, spec_detach) = follow_step_spec(
                *old(f),
                *old(transform),
                delta_ms as int,
                dilation_permille as int,
            );
            &&& final(f).segments() == spec_segments
            &&& final(f).timer == spec_timer
            &&& *final(transform) == spec_tr
            &&& detach == spec_detach
            &&& final(f).should_run == old(f).should_run
        }),
{
    if !f.should_run {
        return false;
    }
    proof {
        lemma_scaled_delta_bounded(delta_ms as int, dilation_permille as int);
    }
    let scaled: u64 = (((delta_ms as u128) * (dilation_permille as u128)) / (
    FRAC_SCALE as u128)) as u64;
    let frac = f.timer.fraction();
    let curve = f.path[0].curve;
    let target = f.path[0].target_transform;
    let eased = ease(curve, frac);
    let just = f.timer.tick(scaled);
    if just {
        *transform = target;
        let popped = f.path.pop_front();
        if f.path.len() == 0 {
            proof {
                assert(old(f).segments().drop_first() =~= f.path@);
            }
            return true;
        }
        proof {
            assert(old(f).segments().drop_first() =~= f.path@);
        }
        let next_length = f.path[0].length;
        f.timer = CountdownTimer::new(next_length, TimerMode::Once);
        false
    } else {
        *transform = lerp_transform_exec(transform, &target, eased);
        false
    }
}

/// The dilated delta never exceeds the raw delta while the dilation factor
/// is at most unity.
proof fn lemma_scaled_delta_bounded(delta: int, dilation: int)
    requires
        0 <= delta <= u64::MAX,
        0 <= dilation <= FRAC_SCALE,
    ensures
        0 <= scaled_delta(delta, dilation) <= delta,
{
    let s = FRAC_SCALE as int;
    lemma_mul_inequality(dilation, s, delta);
    lemma_mul_is_commutative(dilation, delta);
    lemma_mul_is_commutative(s, delta);
    lemma_div_is_ordered(delta * dilation, delta * s, s);
    lemma_mul_is_commutative(delta, s);
    lemma_div_multiples_vanish(delta, s);
    lemma_div_is_ordered(0, delta * dilation, s);
}

/// Path order law, completion half: the step that completes the front
/// segment writes that segment's target transform exactly — before any
/// later segment's timer has advanced, since the next segment starts with
/// a fresh timer of its own duration and zero elapsed time.
pub proof fn lemma_segment_completion_exact(
    f: CameraPathFollower,
    tr: Transform,
    delta: int,
    dilation: int,
)
    requires
        f.wf(),
        f.should_run,
        f.segments().len() > 0,
        once_crosses(f.timer.duration(), f.timer.elapsed(), scaled_delta(delta, dilation)),
    ensures
        follow_step_spec(f, tr, delta, dilation).2 == f.segments()[0].target_transform,
        f.segments().len() > 1 ==> follow_step_spec(f, tr, delta, dilation).1
            == CountdownTimer::new_spec(f.segments()[1].length),
        f.segments().len() > 1 ==> follow_step_spec(f, tr, delta, dilation).1.elapsed() == 0,
{
}

/// Path order law, detachment half: a step detaches the follower exactly
/// when it completes the last remaining segment — never while any earlier
/// segment is still queued, so every segment individually finishes before
/// the follower disappears.
pub proof fn lemma_detach_only_when_drained(
    f: CameraPathFollower,
    tr: Transform,
    delta: int,
    dilation: int,
)
    requires
        f.wf(),
        f.segments().len() > 0,
    ensures
        follow_step_spec(f, tr, delta, dilation).3 <==> (f.should_run && f.segments().len() == 1
            && once_crosses(f.timer.duration(), f.timer.elapsed(), scaled_delta(delta, dilation))),
{
}

/// The pop trace of a running follower over a whole schedule: one record
/// per completed segment — the segment, the pose written as it completed,
/// and the timer state right after — stopping when the follower detaches
/// or the schedule ends.
pub open spec fn follow_run_pops(
    segments: Seq<CameraPathSegment>,
    timer: CountdownTimer,
    tr: Transform,
    deltas: Seq<u64>,
    dilation: int,
) -> Seq<(CameraPathSegment, Transform, CountdownTimer)>
    decreases deltas.len(),
{
    if deltas.len() == 0 || segments.len() == 0 {
        Seq::empty()
    } else {
        let (s1, t1, tr1, det) = follow_step_model(segments, timer, tr, deltas[0] as int, dilation);
        if det {
            seq![(segments[0], tr1, t1)]
        } else if s1.len() < segments.len() {
            seq![(segments[0], tr1, t1)] + follow_run_pops(s1, t1, tr1, deltas.drop_first(), dilation)
        } else {
            follow_run_pops(s1, t1, tr1, deltas.drop_first(), dilation)
        }
    }
}

/// Whether the follower detaches at some step of the schedule.
pub open spec fn follow_run_detaches(
    segments: Seq<CameraPathSegment>,
    timer: CountdownTimer,
    tr: Transform,
    deltas: Seq<u64>,
    dilation: int,
) -> bool
    decreases deltas.len(),
{
    if deltas.len() == 0 || segments.len() == 0 {
        false
    } else {
        let (s1, t1, tr1, det) = follow_step_model(segments, timer, tr, deltas[0] as int, dilation);
        det || follow_run_detaches(s1, t1, tr1, deltas.drop_first(), dilation)
    }
}

/// Path-queue drain-order law: over any schedule of frame deltas, a
/// running follower completes its segments strictly in queue order. Each
/// completion writes exactly that segment's target transform, and hands
/// the next segment a fresh timer of its own duration with nothing
/// elapsed — so a later segment's timer never advances before every
/// earlier segment has reached its target. The follower detaches exactly
/// when its last segment completes.
pub proof fn lemma_path_queue_drains_in_order(
    segments: Seq<CameraPathSegment>,
    timer: CountdownTimer,
    tr: Transform,
    deltas: Seq<u64>,
    dilation: int,
)
    requires
        segments.len() > 0,
        timer.wf(),
        timer.mode_spec() is Once,
        !timer.is_completed(),
        timer.duration() == segments[0].length,
        0 <= dilation <= FRAC_SCALE,
    ensures
        ({
            let pops = follow_run_pops(segments, timer, tr, deltas, dilation);
            &&& pops.len() <= segments.len()
            &&& forall|i: int|
                0 <= i < pops.len() ==> ((#[trigger] pops[i]).0 == segments[i] && pops[i].1
                    == segments[i].target_transform)
            &&& forall|i: int|
                0 <= i < pops.len() && i + 1 < segments.len() ==> (#[trigger] pops[i]).2
                    == CountdownTimer::new_spec(segments[i + 1].length)
            &&& follow_run_detaches(segments, timer, tr, deltas, dilation) <==> pops.len()
                == segments.len()
        }),
    decreases deltas.len(),
{
    if deltas.len() == 0 {
        return ;
    }
    let delta = deltas[0] as int;
    let rest = deltas.drop_first();
    let scaled = scaled_delta(delta, dilation);
    assert(0 <= scaled <= delta) by {
        lemma_scaled_delta_bounded(delta, dilation);
    }
    let (s1, t1, tr1, det) = follow_step_model(segments, timer, tr, delta, dilation);
    let pops = follow_run_pops(segments, timer, tr, deltas, dilation);
    if once_crosses(timer.duration(), timer.elapsed(), scaled) {
        if segments.len() == 1 {
            assert(pops =~= seq![(segments[0], tr1, t1)]);
        } else {
            assert(s1 == segments.drop_first());
            assert(forall|j: int| 0 <= j < s1.len() ==> s1[j] == segments[j + 1]);
            assert(t1 == CountdownTimer::new_spec(segments[1].length));
            lemma_path_queue_drains_in_order(s1, t1, tr1, rest, dilation);
            let tail_pops = follow_run_pops(s1, t1, tr1, rest, dilation);
            assert(pops =~= seq![(segments[0], tr1, t1)] + tail_pops);
            assert(forall|i: int|
                1 <= i < pops.len() ==> #[trigger] pops[i] == tail_pops[i - 1]);
        }
    } else {
        lemma_path_queue_drains_in_order(s1, t1, tr1, rest, dilation);
    }
}

} // verus!
