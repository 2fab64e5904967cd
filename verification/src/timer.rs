//! The countdown timer: the one shared scheduling primitive.
//!
//! A timer owns a duration and an elapsed time, both in milliseconds. It is
//! advanced once per frame by `tick`, which reports the one-shot
//! "just finished" edge: true for exactly the tick that crosses the duration,
//! never before and never again after. `fraction` and `fraction_remaining`
//! are pure queries, clamped to `[0, FRAC_SCALE]` even after overshoot.

use vstd::prelude::*;

verus! {

use crate::fixed::FRAC_SCALE;
use vstd::arithmetic::div_mod::{lemma_div_is_ordered, lemma_div_multiples_vanish};
use vstd::arithmetic::mul::{lemma_mul_inequality, lemma_mul_is_commutative};

/// Whether a timer stops at its duration or wraps around and runs again.
#[derive(Clone, Copy, PartialEq, Eq, Structural, Debug)]
pub enum TimerMode {
    Once,
    Repeating,
}

/// A frame-tick countdown timer with fraction-based progress queries.
#[derive(Clone, Copy, Debug)]
pub struct CountdownTimer {
    pub duration_ms: u64,
    pub elapsed_ms: u64,
    pub mode: TimerMode,
    pub completed: bool,
}

/// Elapsed time after one `Once`-mode tick: advances by `delta` and clamps
/// at the duration.
pub open spec fn once_step_elapsed(duration: int, elapsed: int, delta: int) -> int {
    if elapsed + delta >= duration {
        duration
    } else {
        elapsed + delta
    }
}

/// Whether a `Once`-mode tick reaches or passes the duration.
pub open spec fn once_crosses(duration: int, elapsed: int, delta: int) -> bool {
    elapsed + delta >= duration
}

impl CountdownTimer {
    /// The configured duration, in milliseconds.
    pub open spec fn duration(self) -> int {
        self.duration_ms as int
    }

    /// The accumulated elapsed time, in milliseconds.
    pub open spec fn elapsed(self) -> int {
        self.elapsed_ms as int
    }

    pub open spec fn mode_spec(self) -> TimerMode {
        self.mode
    }

    /// Whether the timer has ever crossed its duration (sticky for `Once`;
    /// for `Repeating`, whether the most recent tick wrapped).
    pub open spec fn is_completed(self) -> bool {
        self.completed
    }

    /// Internal invariant: elapsed time never exceeds the duration, and a
    /// completed `Once` timer sits exactly at its duration.
    pub open spec fn wf(self) -> bool {
        match self.mode {
            TimerMode::Once => {
                &&& self.elapsed_ms <= self.duration_ms
                &&& (self.completed ==> self.elapsed_ms == self.duration_ms)
            },
            TimerMode::Repeating => {
                if self.duration_ms == 0 {
                    self.elapsed_ms == 0
                } else {
                    self.elapsed_ms < self.duration_ms
                }
            },
        }
    }

    /// The elapsed fraction, scaled by `FRAC_SCALE`. A zero-duration timer
    /// counts as fully elapsed.
    pub open spec fn spec_fraction(self) -> int {
        if self.duration_ms == 0 {
            FRAC_SCALE as int
        } else {
            (self.elapsed_ms as int) * (FRAC_SCALE as int) / (self.duration_ms as int)
        }
    }

    /// A fresh one-shot timer, as the transition constructors build it.
    pub open spec fn new_spec(duration_ms: u64) -> CountdownTimer {
        CountdownTimer { duration_ms, elapsed_ms: 0, mode: TimerMode::Once, completed: false }
    }

    /// Creates a fresh timer with nothing elapsed.
    pub fn new(duration_ms: u64, mode: TimerMode) -> (t: Self)
        ensures
            t.duration() == duration_ms,
            t.elapsed() == 0,
            t.mode_spec() == mode,
            !t.is_completed(),
            t.wf(),
    {
        CountdownTimer { duration_ms, elapsed_ms: 0, mode, completed: false }
    }

    pub fn duration_ms(&self) -> (d: u64)
        ensures
            d == self.duration(),
    {
        self.duration_ms
    }

    pub fn elapsed_ms(&self) -> (e: u64)
        ensures
            e == self.elapsed(),
    {
        self.elapsed_ms
    }

    pub fn mode(&self) -> (m: TimerMode)
        ensures
            m == self.mode_spec(),
    {
        self.mode
    }

    /// Whether the timer has finished (crossed its duration).
    pub fn finished(&self) -> (f: bool)
        ensures
            f == self.is_completed(),
    {
        self.completed
    }

    /// Rewinds the timer to a fresh state.
    pub fn reset(&mut self)
        ensures
            final(self).duration() == old(self).duration(),
            final(self).mode_spec() == old(self).mode_spec(),
            final(self).elapsed() == 0,
            !final(self).is_completed(),
            final(self).wf(),
    {
        self.elapsed_ms = 0;
        self.completed = false;
    }

    /// Advances the timer by one frame's elapsed time. Returns the
    /// edge-triggered "just finished" signal: for a `Once` timer, true on
    /// exactly the call that crosses the duration; for a `Repeating` timer,
    /// true on every call that wraps.
    pub fn tick(&mut self, delta_ms: u64) -> (just_finished: bool)
        requires
            old(self).wf(),
        ensures
            final(self).wf(),
            final(self).duration() == old(self).duration(),
            final(self).mode_spec() == old(self).mode_spec(),
            old(self).mode_spec() is Once ==> {
                &&& final(self).elapsed() == once_step_elapsed(
                    old(self).duration(),
                    old(self).elapsed(),
                    delta_ms as int,
                )
                &&& final(self).is_completed() == (old(self).is_completed() || once_crosses(
                    old(self).duration(),
                    old(self).elapsed(),
                    delta_ms as int,
                ))
                &&& just_finished == (once_crosses(
                    old(self).duration(),
                    old(self).elapsed(),
                    delta_ms as int,
                ) && !old(self).is_completed())
            },
            old(self).mode_spec() is Repeating ==> {
                &&& just_finished == (old(self).elapsed() + delta_ms >= old(self).duration())
                &&& final(self).is_completed() == just_finished
                &&& (old(self).duration() > 0 ==> final(self).elapsed() == (old(self).elapsed()
                    + delta_ms) % old(self).duration())
                &&& (old(self).duration() == 0 ==> final(self).elapsed() == 0)
            },
    {
        match self.mode {
            TimerMode::Once => {
                let remaining = self.duration_ms - self.elapsed_ms;
                if delta_ms >= remaining {
                    self.elapsed_ms = self.duration_ms;
                    let just = !self.completed;
                    self.completed = true;
                    just
                } else {
                    self.elapsed_ms = self.elapsed_ms + delta_ms;
                    false
                }
            },
            TimerMode::Repeating => {
                if self.duration_ms == 0 {
                    self.elapsed_ms = 0;
                    self.completed = true;
                    true
                } else {
                    let total: u128 = self.elapsed_ms as u128 + delta_ms as u128;
                    let crossed = total >= self.duration_ms as u128;
                    self.elapsed_ms = (total % (self.duration_ms as u128)) as u64;
                    self.completed = crossed;
                    crossed
                }
            },
        }
    }

    /// The elapsed fraction in `[0, FRAC_SCALE]`. Pure; never mutates.
    pub fn fraction(&self) -> (f: u64)
        requires
            self.wf(),
        ensures
            f == self.spec_fraction(),
            f <= FRAC_SCALE,
    {
        if self.duration_ms == 0 {
            FRAC_SCALE
        } else {
            proof {
                self.lemma_fraction_in_range();
            }
            let num: u128 = (self.elapsed_ms as u128) * (FRAC_SCALE as u128);
            (num / (self.duration_ms as u128)) as u64
        }
    }

    /// The remaining fraction: `FRAC_SCALE - fraction()`.
    pub fn fraction_remaining(&self) -> (f: u64)
        requires
            self.wf(),
        ensures
            f == FRAC_SCALE - self.spec_fraction(),
    {
        let frac = self.fraction();
        FRAC_SCALE - frac
    }

    /// The fraction is always in `[0, FRAC_SCALE]` for a well-formed timer.
    pub proof fn lemma_fraction_in_range(self)
        requires
            self.wf(),
        ensures
            0 <= self.spec_fraction() <= FRAC_SCALE,
    {
        if self.duration_ms != 0 {
            let e = self.elapsed_ms as int;
            let d = self.duration_ms as int;
            let s = FRAC_SCALE as int;
            lemma_mul_inequality(e, d, s);
            lemma_mul_is_commutative(e, s);
            lemma_mul_is_commutative(d, s);
            lemma_div_is_ordered(e * s, d * s, d);
            lemma_mul_is_commutative(s, d);
            lemma_div_multiples_vanish(s, d);
            lemma_div_is_ordered(0, e * s, d);
        }
    }

    /// A `Once` timer that has fully elapsed reports a fraction of exactly
    /// `FRAC_SCALE`.
    pub proof fn lemma_full_elapsed_fraction(self)
        requires
            self.wf(),
            self.elapsed() == self.duration(),
        ensures
            self.spec_fraction() == FRAC_SCALE,
    {
        if self.duration_ms != 0 {
            let d = self.duration_ms as int;
            let s = FRAC_SCALE as int;
            lemma_mul_is_commutative(d, s);
            lemma_div_multiples_vanish(s, d);
        }
    }
}

/// The total of a schedule of frame deltas.
pub open spec fn sum_of(deltas: Seq<u64>) -> int
    decreases deltas.len(),
{
    if deltas.len() == 0 {
        0
    } else {
        deltas[0] + sum_of(deltas.drop_first())
    }
}

/// Elapsed time of a `Once` timer after ticking through a whole schedule.
pub open spec fn once_elapsed_after(duration: int, elapsed: int, deltas: Seq<u64>) -> int
    decreases deltas.len(),
{
    if deltas.len() == 0 {
        elapsed
    } else {
        once_elapsed_after(
            duration,
            once_step_elapsed(duration, elapsed, deltas[0] as int),
            deltas.drop_first(),
        )
    }
}

/// How many ticks of the schedule report the just-finished edge, starting
/// from a timer whose completion flag is `done`.
pub open spec fn once_finish_edges(duration: int, elapsed: int, done: bool, deltas: Seq<u64>) -> int
    decreases deltas.len(),
{
    if deltas.len() == 0 {
        0
    } else {
        let crossed = once_crosses(duration, elapsed, deltas[0] as int);
        (if crossed && !done {
            1int
        } else {
            0int
        }) + once_finish_edges(
            duration,
            once_step_elapsed(duration, elapsed, deltas[0] as int),
            done || crossed,
            deltas.drop_first(),
        )
    }
}

/// Once the edge has fired, it never fires again: a completed timer sits at
/// its duration and reports no further edges, however it is ticked.
pub proof fn lemma_once_no_edge_after_completion(duration: int, deltas: Seq<u64>)
    requires
        duration >= 0,
    ensures
        once_elapsed_after(duration, duration, deltas) == duration,
        once_finish_edges(duration, duration, true, deltas) == 0,
    decreases deltas.len(),
{
    if deltas.len() > 0 {
        lemma_once_no_edge_after_completion(duration, deltas.drop_first());
    }
}

/// Monotonic fraction law: ticking a `Once` timer with non-negative deltas
/// whose sum reaches the remaining time drives the elapsed time to exactly
/// the duration — so the fraction reaches exactly `FRAC_SCALE` — and the
/// just-finished edge fires on exactly one tick of the schedule, however
/// the total is split across ticks.
pub proof fn lemma_once_single_finish(duration: int, elapsed: int, deltas: Seq<u64>)
    requires
        0 <= elapsed <= duration,
        deltas.len() > 0,
        sum_of(deltas) >= duration - elapsed,
    ensures
        once_elapsed_after(duration, elapsed, deltas) == duration,
        once_finish_edges(duration, elapsed, false, deltas) == 1,
    decreases deltas.len(),
{
    let d0 = deltas[0] as int;
    let rest = deltas.drop_first();
    if once_crosses(duration, elapsed, d0) {
        lemma_once_no_edge_after_completion(duration, rest);
    } else {
        assert(rest.len() > 0) by {
            if rest.len() == 0 {
                assert(sum_of(rest) == 0);
            }
        }
        lemma_once_single_finish(duration, elapsed + d0, rest);
    }
}

/// No premature completion: while the deltas sum to less than the remaining
/// time, the timer accumulates exactly their total and no edge ever fires.
pub proof fn lemma_once_no_premature_finish(duration: int, elapsed: int, deltas: Seq<u64>)
    requires
        0 <= elapsed <= duration,
        sum_of(deltas) < duration - elapsed,
    ensures
        once_elapsed_after(duration, elapsed, deltas) == elapsed + sum_of(deltas),
        once_elapsed_after(duration, elapsed, deltas) < duration,
        once_finish_edges(duration, elapsed, false, deltas) == 0,
    decreases deltas.len(),
{
    if deltas.len() > 0 {
        let d0 = deltas[0] as int;
        let rest = deltas.drop_first();
        lemma_sum_of_nonneg(rest);
        lemma_once_no_premature_finish(duration, elapsed + d0, rest);
    }
}

/// A schedule of unsigned deltas always sums to a non-negative total.
pub proof fn lemma_sum_of_nonneg(deltas: Seq<u64>)
    ensures
        sum_of(deltas) >= 0,
    decreases deltas.len(),
{
    if deltas.len() > 0 {
        lemma_sum_of_nonneg(deltas.drop_first());
    }
}

} // verus!
