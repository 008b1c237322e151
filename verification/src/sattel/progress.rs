//! Throttle for high-frequency progress updates.
//!
//! A crawler reports an `Advance` for every chunk it downloads. Only every
//! hundredth of them is passed on; every other kind of update is passed on at
//! once. One counter serves the whole session: it is shared by all progress
//! bars, whatever their ids.

use vstd::prelude::*;
use crate::sattel::{ProgressBarEvent, ProgressBarEventView};

verus! {

/// Number of `Advance` updates that make up one forwarded update.
pub const ADVANCE_STRIDE: u8 = 100;

/// Whether an update that arrives when `count` advances are pending is passed on.
pub open spec fn forwards(count: nat, event: ProgressBarEventView) -> bool {
    match event {
        ProgressBarEventView::Advance { .. } => count + 1 == ADVANCE_STRIDE,
        _ => true,
    }
}

/// The number of pending advances after an update arrived at `count`.
pub open spec fn next_count(count: nat, event: ProgressBarEventView) -> nat {
    match event {
        ProgressBarEventView::Advance { .. } => if count + 1 == ADVANCE_STRIDE {
            0
        } else {
            count + 1
        },
        _ => count,
    }
}

/// The number of pending advances after all of `events` arrived, one by one, starting at `count`.
pub open spec fn count_after(count: nat, events: Seq<ProgressBarEventView>) -> nat
    decreases events.len(),
{
    if events.len() == 0 {
        count
    } else {
        next_count(count_after(count, events.drop_last()), events.last())
    }
}

/// Whether the update at position `i` of `events` is passed on, starting at `count`.
pub open spec fn forwarded_at(count: nat, events: Seq<ProgressBarEventView>, i: int) -> bool
    recommends
        0 <= i < events.len(),
{
    forwards(count_after(count, events.take(i)), events[i])
}

/// How many of `events` are passed on, starting at `count`.
pub open spec fn forwarded_total(count: nat, events: Seq<ProgressBarEventView>) -> nat
    decreases events.len(),
{
    if events.len() == 0 {
        0
    } else {
        let before = events.drop_last();
        forwarded_total(count, before) + if forwards(count_after(count, before), events.last()) {
            1nat
        } else {
            0nat
        }
    }
}

/// Whether every update in `events` is an `Advance`.
pub open spec fn all_advances(events: Seq<ProgressBarEventView>) -> bool {
    forall|i: int| 0 <= i < events.len() ==> (#[trigger] events[i]) is Advance
}

/// The throttle's state: how many advances arrived since the last one that was passed on.
pub struct ProgressCoalescer {
    advance_count: u8,
}

impl ProgressCoalescer {
    #[verifier::type_invariant]
    spec fn in_stride(&self) -> bool {
        self.advance_count < ADVANCE_STRIDE
    }

    /// Advances that arrived since the last forwarded one.
    pub closed spec fn pending(&self) -> nat {
        self.advance_count as nat
    }

    /// A throttle with nothing pending.
    pub fn new() -> (c: Self)
        ensures
            c.pending() == 0,
    {
        ProgressCoalescer { advance_count: 0 }
    }

    /// Advances that arrived since the last forwarded one.
    pub fn pending_advances(&self) -> (n: u8)
        ensures
            n == self.pending(),
            n < ADVANCE_STRIDE,
    {
        proof {
            use_type_invariant(self);
        }
        self.advance_count
    }

    /// Takes note of one update and says whether it is to be passed on.
    pub fn offer(&mut self, event: &ProgressBarEvent) -> (forward: bool)
        ensures
            forward == forwards(old(self).pending(), event@),
            final(self).pending() == next_count(old(self).pending(), event@),
    {
        proof {
            use_type_invariant(&*self);
        }
        match event {
            ProgressBarEvent::Advance { .. } => {
                if self.advance_count + 1 == ADVANCE_STRIDE {
                    self.advance_count = 0;
                    true
                } else {
                    self.advance_count = self.advance_count + 1;
                    false
                }
            },
            _ => true,
        }
    }
}

/// The pending count stays below the stride.
pub proof fn lemma_count_after_bounded(count: nat, events: Seq<ProgressBarEventView>)
    requires
        count < ADVANCE_STRIDE,
    ensures
        count_after(count, events) < ADVANCE_STRIDE,
    decreases events.len(),
{
    if events.len() > 0 {
        lemma_count_after_bounded(count, events.drop_last());
    }
}

/// After `n` advances in a row on a fresh throttle, `n % 100` are pending and
/// `n / 100` were passed on.
pub proof fn lemma_advances_from_fresh(events: Seq<ProgressBarEventView>)
    requires
        all_advances(events),
    ensures
        count_after(0, events) == events.len() % 100,
        forwarded_total(0, events) == events.len() / 100,
    decreases events.len(),
{
    if events.len() > 0 {
        let before = events.drop_last();
        assert(all_advances(before));
        lemma_advances_from_fresh(before);
        assert(events.last() is Advance);
    }
}

/// In a run of advances on a fresh throttle, exactly the hundredth, the
/// two-hundredth and so on are passed on.
pub proof fn lemma_every_hundredth_advance(events: Seq<ProgressBarEventView>, i: int)
    requires
        all_advances(events),
        0 <= i < events.len(),
    ensures
        forwarded_at(0, events, i) <==> (i + 1) % 100 == 0,
{
    let before = events.take(i);
    assert(all_advances(before));
    lemma_advances_from_fresh(before);
    assert(events[i] is Advance);
}

/// An update other than an `Advance` is passed on whatever came before it,
/// and leaves the pending count as it was.
pub proof fn lemma_other_updates_pass(count: nat, event: ProgressBarEventView)
    requires
        !(event is Advance),
    ensures
        forwards(count, event),
        next_count(count, event) == count,
{
}

} // verus!
