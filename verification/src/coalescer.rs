//! The single-slot conduit between the sample producer and the debounce
//! worker.

use vstd::prelude::*;

verus! {

/// A buffer that holds at most one unconsumed sample.
///
/// Its view is the sample that waits in the slot, if any.
pub struct EventCoalescer<T> {
    slot: Option<T>,
}

impl<T> View for EventCoalescer<T> {
    type V = Option<T>;

    closed spec fn view(&self) -> Option<T> {
        self.slot
    }
}

/// The slot after `sample` was offered to a coalescer that held `slot`.
pub open spec fn offered<T>(slot: Option<T>, sample: T) -> Option<T> {
    if slot is None {
        Some(sample)
    } else {
        slot
    }
}

impl<T> EventCoalescer<T> {
    /// An empty coalescer.
    pub fn new() -> (coalescer: Self)
        ensures
            coalescer@ is None,
    {
        EventCoalescer { slot: None }
    }

    /// Whether a sample waits to be taken.
    pub fn is_occupied(&self) -> (occupied: bool)
        ensures
            occupied == (self@ is Some),
    {
        self.slot.is_some()
    }

    /// Places `sample` in the slot if the slot is empty and discards it
    /// otherwise.  Returns whether the sample was placed.  There is no loop
    /// and no waiting in it: the producer gets its answer at once, whatever
    /// the consumer is doing.
    pub fn offer(&mut self, sample: T) -> (accepted: bool)
        ensures
            accepted == (old(self)@ is None),
            final(self)@ == offered(old(self)@, sample),
    {
        if self.slot.is_none() {
            self.slot = Some(sample);
            true
        } else {
            false
        }
    }

    /// Hands out the waiting sample, if there is one, and frees the slot.
    /// A consumer that finds nothing suspends until the next accepted
    /// `offer` and takes again.
    pub fn take(&mut self) -> (taken: Option<T>)
        ensures
            taken == old(self)@,
            final(self)@ is None,
    {
        self.slot.take()
    }
}

} // verus!
