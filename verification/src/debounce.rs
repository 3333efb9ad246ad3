//! The debouncer: a one-slot coalescer between a fast producer and a slow
//! consumer.
//!
//! Values offered within one window overwrite the slot; the window's tick
//! empties the slot and emits at most one value, the latest one.  The
//! filter engine therefore runs at most once per window however fast the
//! user types.

use vstd::prelude::*;

verus! {

/// A single-value slot that keeps only the latest offer.
pub struct Debouncer<T> {
    pub slot: Option<T>,
}

impl<T> Debouncer<T> {
    pub fn new() -> (r: Debouncer<T>)
        ensures
            r.slot is None,
    {
        Debouncer { slot: None }
    }

    /// A new value arrives: it replaces whatever was waiting.
    pub fn offer(&mut self, value: T)
        ensures
            final(self).slot == Some(value),
    {
        self.slot = Some(value);
    }

    /// The window elapses: the waiting value, if any, is emitted and the
    /// slot empties, so one window emits at most one value.
    pub fn tick(&mut self) -> (r: Option<T>)
        ensures
            r == old(self).slot,
            final(self).slot is None,
    {
        self.slot.take()
    }
}

/// The slot after a run of offers: the last offer, or what was already
/// waiting when the run is empty.
pub open spec fn offers_outcome<T>(slot: Option<T>, offers: Seq<T>) -> Option<T>
    decreases offers.len(),
{
    if offers.len() == 0 {
        slot
    } else {
        offers_outcome(Some(offers[0]), offers.drop_first())
    }
}

/// Coalescing: however many values arrive within one window, the tick at
/// the window's end emits exactly the last of them, once.
pub proof fn lemma_debounce_coalesces<T>(slot: Option<T>, offers: Seq<T>)
    requires
        offers.len() > 0,
    ensures
        offers_outcome(slot, offers) == Some(offers.last()),
    decreases offers.len(),
{
    if offers.len() == 1 {
        assert(offers_outcome(Some(offers[0]), offers.drop_first()) == Some(offers[0]));
    } else {
        lemma_debounce_coalesces(Some(offers[0]), offers.drop_first());
        assert(offers.drop_first().last() == offers.last());
    }
}

} // verus!
