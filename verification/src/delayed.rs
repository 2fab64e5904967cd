//! The generic delayed-event queue: deliver a payload after a fixed delay.
//!
//! A queue holds entries pairing an arbitrary payload with a fresh one-shot
//! countdown timer. Once per frame, `resolve` ticks every entry by the
//! frame's delta, hands back the payloads whose timers just finished, and
//! prunes every finished entry — so an entry can never fire twice, and it
//! fires on exactly the resolution pass whose cumulative elapsed time first
//! reaches its delay, however the total is split across frames.

use vstd::prelude::*;

verus! {

use crate::timer::{CountdownTimer, TimerMode, once_crosses, sum_of};

/// A payload scheduled for future delivery.
#[derive(Clone, Debug)]
pub struct DelayedEvent<E> {
    pub event: E,
    pub delay: CountdownTimer,
}

/// A queue entry must carry a live one-shot timer: delivery prunes an entry
/// the moment its timer completes, so no completed timer ever sits in the
/// queue.
pub open spec fn entry_wf<E>(e: DelayedEvent<E>) -> bool {
    &&& e.delay.wf()
    &&& e.delay.mode_spec() is Once
    &&& !e.delay.is_completed()
}

/// Whether a resolution pass with this frame delta delivers the entry.
pub open spec fn entry_crosses<E>(e: DelayedEvent<E>, delta: int) -> bool {
    once_crosses(e.delay.duration(), e.delay.elapsed(), delta)
}

/// The entry as it survives an undelivering pass: same payload, same delay,
/// elapsed time advanced by the frame delta.
pub open spec fn ticked_entry<E>(e: DelayedEvent<E>, delta: int) -> DelayedEvent<E> {
    DelayedEvent {
        event: e.event,
        delay: CountdownTimer {
            duration_ms: e.delay.duration_ms,
            elapsed_ms: (e.delay.elapsed() + delta) as u64,
            mode: e.delay.mode,
            completed: false,
        },
    }
}

/// A fresh entry as `DelayedEvent::new` builds it.
pub open spec fn fresh_entry<E>(event: E, delay_ms: u64) -> DelayedEvent<E> {
    DelayedEvent {
        event,
        delay: CountdownTimer {
            duration_ms: delay_ms,
            elapsed_ms: 0,
            mode: TimerMode::Once,
            completed: false,
        },
    }
}

/// The payloads one resolution pass delivers, in queue order.
pub open spec fn emitted_payloads<E>(entries: Seq<DelayedEvent<E>>, delta: int) -> Seq<E>
    decreases entries.len(),
{
    if entries.len() == 0 {
        Seq::empty()
    } else {
        let rest = emitted_payloads(entries.drop_first(), delta);
        if entry_crosses(entries[0], delta) {
            seq![entries[0].event] + rest
        } else {
            rest
        }
    }
}

/// The entries one resolution pass leaves in the queue, in order.
pub open spec fn surviving_entries<E>(entries: Seq<DelayedEvent<E>>, delta: int) -> Seq<
    DelayedEvent<E>,
>
    decreases entries.len(),
{
    if entries.len() == 0 {
        Seq::empty()
    } else {
        let rest = surviving_entries(entries.drop_first(), delta);
        if entry_crosses(entries[0], delta) {
            rest
        } else {
            seq![ticked_entry(entries[0], delta)] + rest
        }
    }
}

impl<E> DelayedEvent<E> {
    /// Wraps a payload with a fresh one-shot countdown of `delay_ms`.
    pub fn new(event: E, delay_ms: u64) -> (e: Self)
        ensures
            e == fresh_entry(event, delay_ms),
            entry_wf(e),
    {
        DelayedEvent { event, delay: CountdownTimer::new(delay_ms, TimerMode::Once) }
    }
}

/// The per-payload-type scheduling buffer.
pub struct DelayedEvents<E> {
    pub events: Vec<DelayedEvent<E>>,
}

impl<E> DelayedEvents<E> {
    /// The queued entries, in insertion order (the order is irrelevant for
    /// correctness: every entry is resolved independently).
    pub open spec fn entries(self) -> Seq<DelayedEvent<E>> {
        self.events@
    }

    /// Queue invariant: no finished entry ever remains queued.
    pub open spec fn wf(self) -> bool {
        forall|i: int| 0 <= i < self.events@.len() ==> entry_wf(#[trigger] self.events@[i])
    }

    /// An empty queue.
    pub fn new() -> (q: Self)
        ensures
            q.entries() == Seq::<DelayedEvent<E>>::empty(),
            q.wf(),
    {
        DelayedEvents { events: Vec::new() }
    }

    pub fn len(&self) -> (n: usize)
        ensures
            n == self.entries().len(),
    {
        self.events.len()
    }

    /// Appends a payload with a fresh countdown; always succeeds.
    pub fn enqueue(&mut self, event: E, delay_ms: u64)
        requires
            old(self).wf(),
        ensures
            final(self).wf(),
            final(self).entries() == old(self).entries().push(fresh_entry(event, delay_ms)),
    {
        let entry = DelayedEvent::new(event, delay_ms);
        self.events.push(entry);
    }

    /// Adopts an already-built entry, as the intake phase does for entries
    /// caught from the event channel.
    pub fn push_entry(&mut self, entry: DelayedEvent<E>)
        requires
            old(self).wf(),
            entry_wf(entry),
        ensures
            final(self).wf(),
            final(self).entries() == old(self).entries().push(entry),
    {
        self.events.push(entry);
    }

    /// One resolution pass: ticks every entry by the frame delta, returns
    /// the payloads whose timers just finished (each exactly once), and
    /// prunes every finished entry.
    pub fn resolve(&mut self, delta_ms: u64) -> (emitted: Vec<E>)
        requires
            old(self).wf(),
        ensures
            final(self).wf(),
            final(self).entries() == surviving_entries(old(self).entries(), delta_ms as int),
            emitted@ == emitted_payloads(old(self).entries(), delta_ms as int),
    {
        let ghost orig = self.events@;
        let ghost delta = delta_ms as int;
        let mut kept: Vec<DelayedEvent<E>> = Vec::new();
        let mut out: Vec<E> = Vec::new();
        let ghost mut i: int = 0;
        proof {
            assert(orig.skip(0) =~= orig);
        }
        while self.events.len() > 0
            invariant
                0 <= i <= orig.len(),
                self.events@ == orig.skip(i),
                forall|j: int| 0 <= j < orig.len() ==> entry_wf(#[trigger] orig[j]),
                forall|j: int| 0 <= j < kept@.len() ==> entry_wf(#[trigger] kept@[j]),
                out@ + emitted_payloads(orig.skip(i), delta) == emitted_payloads(orig, delta),
                kept@ + surviving_entries(orig.skip(i), delta) == surviving_entries(orig, delta),
                delta == delta_ms as int,
            decreases self.events@.len(),
        {
            proof {
                assert(orig.skip(i).len() > 0);
                assert(orig.skip(i)[0] == orig[i]);
                assert(orig.skip(i).drop_first() =~= orig.skip(i + 1));
            }
            let mut entry = self.events.remove(0);
            let ghost old_entry = entry;
            let just = entry.delay.tick(delta_ms);
            if just {
                out.push(entry.event);
                proof {
                    assert(out@ + emitted_payloads(orig.skip(i + 1), delta) =~= emitted_payloads(
                        orig,
                        delta,
                    ));
                }
            } else {
                proof {
                    assert(entry == ticked_entry(old_entry, delta));
                }
                kept.push(entry);
                proof {
                    assert(kept@ + surviving_entries(orig.skip(i + 1), delta) =~= surviving_entries(
                        orig,
                        delta,
                    ));
                }
            }
            proof {
                i = i + 1;
            }
        }
        proof {
            assert(orig.skip(orig.len() as int) =~= Seq::<DelayedEvent<E>>::empty());
            assert(out@ =~= emitted_payloads(orig, delta));
            assert(kept@ =~= surviving_entries(orig, delta));
        }
        self.events = kept;
        out
    }
}

impl<E> Default for DelayedEvents<E> {
    /// A payload type's queue starts empty.
    fn default() -> (q: Self)
        ensures
            q.entries() == Seq::<DelayedEvent<E>>::empty(),
            q.wf(),
    {
        DelayedEvents { events: Vec::new() }
    }
}

/// Every payload delivered over a whole schedule of resolution passes, in
/// delivery order.
pub open spec fn emissions_over<E>(entries: Seq<DelayedEvent<E>>, deltas: Seq<u64>) -> Seq<E>
    decreases deltas.len(),
{
    if deltas.len() == 0 {
        Seq::empty()
    } else {
        emitted_payloads(entries, deltas[0] as int) + emissions_over(
            surviving_entries(entries, deltas[0] as int),
            deltas.drop_first(),
        )
    }
}

/// The queue contents after a whole schedule of resolution passes.
pub open spec fn queue_after<E>(entries: Seq<DelayedEvent<E>>, deltas: Seq<u64>) -> Seq<
    DelayedEvent<E>,
>
    decreases deltas.len(),
{
    if deltas.len() == 0 {
        entries
    } else {
        queue_after(surviving_entries(entries, deltas[0] as int), deltas.drop_first())
    }
}

/// An empty queue stays empty and delivers nothing, however it is resolved.
proof fn lemma_empty_queue_run<E>(deltas: Seq<u64>)
    ensures
        emissions_over(Seq::<DelayedEvent<E>>::empty(), deltas) == Seq::<E>::empty(),
        queue_after(Seq::<DelayedEvent<E>>::empty(), deltas) == Seq::<DelayedEvent<E>>::empty(),
    decreases deltas.len(),
{
    if deltas.len() > 0 {
        assert(surviving_entries(Seq::<DelayedEvent<E>>::empty(), deltas[0] as int) =~= Seq::<
            DelayedEvent<E>,
        >::empty());
        lemma_empty_queue_run::<E>(deltas.drop_first());
        assert(emitted_payloads(Seq::<DelayedEvent<E>>::empty(), deltas[0] as int) + Seq::<
            E,
        >::empty() =~= Seq::<E>::empty());
    }
}

/// One resolution pass over a one-entry queue, written out.
proof fn lemma_singleton_pass<E>(en: DelayedEvent<E>, d0: int)
    ensures
        entry_crosses(en, d0) ==> emitted_payloads(seq![en], d0) == seq![en.event]
            && surviving_entries(seq![en], d0) == Seq::<DelayedEvent<E>>::empty(),
        !entry_crosses(en, d0) ==> emitted_payloads(seq![en], d0) == Seq::<E>::empty()
            && surviving_entries(seq![en], d0) == seq![ticked_entry(en, d0)],
{
    let empty_entries = Seq::<DelayedEvent<E>>::empty();
    assert(emitted_payloads(empty_entries, d0) == Seq::<E>::empty());
    assert(surviving_entries(empty_entries, d0) == empty_entries);
    assert(seq![en].drop_first() =~= empty_entries);
    assert(seq![en][0] == en);
    if entry_crosses(en, d0) {
        assert(emitted_payloads(seq![en], d0) =~= seq![en.event]);
        assert(surviving_entries(seq![en], d0) =~= empty_entries);
    } else {
        assert(emitted_payloads(seq![en], d0) =~= Seq::<E>::empty());
        assert(surviving_entries(seq![en], d0) =~= seq![ticked_entry(en, d0)]);
    }
}

/// Delivery of a single queued entry, over any schedule whose total reaches
/// its remaining delay: the payload comes out exactly once and the entry is
/// gone afterwards.
proof fn lemma_single_entry_delivered<E>(en: DelayedEvent<E>, deltas: Seq<u64>)
    requires
        entry_wf(en),
        deltas.len() > 0,
        sum_of(deltas) >= en.delay.duration() - en.delay.elapsed(),
    ensures
        emissions_over(seq![en], deltas) == seq![en.event],
        queue_after(seq![en], deltas) == Seq::<DelayedEvent<E>>::empty(),
    decreases deltas.len(),
{
    let d0 = deltas[0] as int;
    let rest = deltas.drop_first();
    lemma_singleton_pass(en, d0);
    if entry_crosses(en, d0) {
        lemma_empty_queue_run::<E>(rest);
        assert(emissions_over(seq![en], deltas) =~= seq![en.event]);
    } else {
        let ticked = ticked_entry(en, d0);
        assert(entry_wf(ticked));
        assert(rest.len() > 0) by {
            if rest.len() == 0 {
                assert(sum_of(rest) == 0);
            }
        }
        lemma_single_entry_delivered(ticked, rest);
        assert(emissions_over(seq![en], deltas) =~= seq![en.event]);
    }
}

/// Non-delivery of a single queued entry, over any schedule whose total
/// stays below its remaining delay: nothing comes out and the entry is
/// still queued, advanced by exactly the schedule's total.
proof fn lemma_single_entry_kept<E>(en: DelayedEvent<E>, deltas: Seq<u64>)
    requires
        entry_wf(en),
        sum_of(deltas) < en.delay.duration() - en.delay.elapsed(),
    ensures
        emissions_over(seq![en], deltas) == Seq::<E>::empty(),
        queue_after(seq![en], deltas) == seq![ticked_entry(en, sum_of(deltas))],
    decreases deltas.len(),
{
    crate::timer::lemma_sum_of_nonneg(deltas);
    if deltas.len() == 0 {
        assert(ticked_entry(en, 0) == en);
        assert(queue_after(seq![en], deltas) =~= seq![ticked_entry(en, 0)]);
    } else {
        let d0 = deltas[0] as int;
        let rest = deltas.drop_first();
        crate::timer::lemma_sum_of_nonneg(rest);
        assert(!entry_crosses(en, d0));
        lemma_singleton_pass(en, d0);
        let ticked = ticked_entry(en, d0);
        assert(entry_wf(ticked));
        lemma_single_entry_kept(ticked, rest);
        assert(ticked_entry(ticked, sum_of(rest)) == ticked_entry(en, sum_of(deltas)));
        assert(emissions_over(seq![en], deltas) =~= Seq::<E>::empty());
    }
}

/// At-most-once delivery law: enqueueing a payload with some delay and
/// resolving with any schedule of frame deltas whose total reaches the
/// delay delivers the payload exactly once, and the entry is absent from
/// the queue on every later pass.
pub proof fn lemma_at_most_once_delivery<E>(event: E, delay_ms: u64, deltas: Seq<u64>)
    requires
        deltas.len() > 0,
        sum_of(deltas) >= delay_ms,
    ensures
        emissions_over(seq![fresh_entry(event, delay_ms)], deltas) == seq![event],
        queue_after(seq![fresh_entry(event, delay_ms)], deltas) == Seq::<DelayedEvent<E>>::empty(),
{
    lemma_single_entry_delivered(fresh_entry(event, delay_ms), deltas);
}

/// No premature delivery law: while the schedule's total stays below the
/// delay, nothing is delivered and the entry waits with exactly the total
/// elapsed.
pub proof fn lemma_no_premature_delivery<E>(event: E, delay_ms: u64, deltas: Seq<u64>)
    requires
        sum_of(deltas) < delay_ms,
    ensures
        emissions_over(seq![fresh_entry(event, delay_ms)], deltas) == Seq::<E>::empty(),
        queue_after(seq![fresh_entry(event, delay_ms)], deltas) == seq![
            ticked_entry(fresh_entry(event, delay_ms), sum_of(deltas)),
        ],
{
    lemma_single_entry_kept(fresh_entry(event, delay_ms), deltas);
}

} // verus!
