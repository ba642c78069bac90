//! The single-slot "event occurred" signal from the debounce worker to the
//! watchdog.

use vstd::prelude::*;

verus! {

/// What the watchdog finds when it looks at the notify slot.
#[derive(Clone, Copy, Debug, PartialEq, Eq, Structural)]
pub enum SignalCheck {
    /// A signal was waiting; the look consumed it.
    Present,
    /// No signal was waiting, and the producer is still there.
    Absent,
    /// No signal was waiting, and the producer is gone for good.
    Closed,
}

/// The state of a notify slot as contracts see it.
pub struct NotifyState {
    /// A signal waits to be consumed.
    pub pending: bool,
    /// The producer side has terminated.
    pub closed: bool,
}

impl NotifyState {
    /// The slot after one offer.
    pub open spec fn offer(self) -> NotifyState {
        NotifyState { pending: self.pending || !self.closed, closed: self.closed }
    }

    /// The slot after `n` offers in a row.
    pub open spec fn offers(self, n: nat) -> NotifyState
        decreases n,
    {
        if n == 0 {
            self
        } else {
            self.offer().offers((n - 1) as nat)
        }
    }

    /// What a look at the slot reports.
    pub open spec fn report(self) -> SignalCheck {
        if self.pending {
            SignalCheck::Present
        } else if self.closed {
            SignalCheck::Closed
        } else {
            SignalCheck::Absent
        }
    }

    /// The slot after a look.
    pub open spec fn checked(self) -> NotifyState {
        NotifyState { pending: false, closed: self.closed }
    }
}

/// A one-bit mailbox: it remembers that at least one event occurred since the
/// watchdog last looked, not how many.
pub struct NotifySlot {
    pending: bool,
    closed: bool,
}

impl View for NotifySlot {
    type V = NotifyState;

    closed spec fn view(&self) -> NotifyState {
        NotifyState { pending: self.pending, closed: self.closed }
    }
}

impl NotifySlot {
    /// An empty slot with a live producer.
    pub fn new() -> (slot: Self)
        ensures
            slot@ == (NotifyState { pending: false, closed: false }),
    {
        NotifySlot { pending: false, closed: false }
    }

    /// Raises the signal.  Returns whether this call raised it: an offer to a
    /// slot whose signal is still pending is dropped, and so is an offer to a
    /// closed slot.
    pub fn offer(&mut self) -> (raised: bool)
        ensures
            raised == (!old(self)@.pending && !old(self)@.closed),
            final(self)@ == old(self)@.offer(),
    {
        if self.pending || self.closed {
            false
        } else {
            self.pending = true;
            true
        }
    }

    /// Looks at the slot without waiting and consumes the signal if one is
    /// pending.  A pending signal is reported even after the producer has
    /// gone; `Closed` is reported only once nothing is left to consume.
    pub fn check(&mut self) -> (found: SignalCheck)
        ensures
            found == old(self)@.report(),
            final(self)@ == old(self)@.checked(),
    {
        if self.pending {
            self.pending = false;
            SignalCheck::Present
        } else if self.closed {
            SignalCheck::Closed
        } else {
            SignalCheck::Absent
        }
    }

    /// Marks the producer side as terminated.  A signal that is already
    /// pending stays.
    pub fn close(&mut self)
        ensures
            final(self)@ == (NotifyState { pending: old(self)@.pending, closed: true }),
    {
        self.closed = true;
    }
}

/// However many signals are offered between two looks of the watchdog, the
/// second look finds exactly one observation if there was at least one offer
/// and none if there was no offer, and the look after it finds nothing.
pub proof fn law_offers_coalesce(slot: NotifyState, n: nat)
    requires
        !slot.closed,
    ensures
        slot.checked().offers(n).report() == (if n == 0 {
            SignalCheck::Absent
        } else {
            SignalCheck::Present
        }),
        slot.checked().offers(n).checked().report() == SignalCheck::Absent,
{
    lemma_offers(slot.checked(), n);
}

/// Repeated offers leave the slot as a single offer does.
proof fn lemma_offers(slot: NotifyState, n: nat)
    ensures
        slot.offers(n).closed == slot.closed,
        slot.offers(n).pending == (slot.pending || (n > 0 && !slot.closed)),
    decreases n,
{
    if n > 0 {
        lemma_offers(slot.offer(), (n - 1) as nat);
    }
}

} // verus!
