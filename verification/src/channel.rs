//! The two single-slot conduits as they run between tasks: bounded channels
//! of capacity one, used without ever waiting.
//!
//! What such a channel holds at a given moment depends on the other tasks,
//! so nothing here says which answer a call gets.  Each answer is turned
//! into the pipeline's own terms by a function that is exact for every
//! answer.

use vstd::prelude::*;
use crate::error::StepError;
use crate::notify::SignalCheck;
use crate::watchdog::{WatchdogCommand, WatchdogInput, WatchdogWorker};

verus! {

/// The sending half of a bounded channel.
#[verifier::external_type_specification]
#[verifier::external_body]
#[verifier::reject_recursive_types(T)]
pub struct ExSender<T>(tokio::sync::mpsc::Sender<T>);

/// The receiving half of a bounded channel.
#[verifier::external_type_specification]
#[verifier::external_body]
#[verifier::reject_recursive_types(T)]
pub struct ExReceiver<T>(tokio::sync::mpsc::Receiver<T>);

/// The answer of a send that does not wait.
pub enum SendAttempt<T> {
    /// The value is in the channel.
    Sent,
    /// The channel was full; the value comes back.
    Full(T),
    /// The receiving half is gone; the value comes back.
    Closed(T),
}

/// The answer of a receive that does not wait.
pub enum ReceiveAttempt<T> {
    /// A value was waiting.
    Received(T),
    /// Nothing was waiting, and a sender is still there.
    Empty,
    /// Nothing was waiting, and every sender is gone.
    Disconnected,
}

/// What became of a sample or signal that was offered to a channel.
#[derive(Clone, Copy, Debug, PartialEq, Eq, Structural)]
pub enum Offer {
    /// It waits in the slot.
    Accepted,
    /// The slot was occupied: it is lost.
    Dropped,
    /// The consumer is gone: it is lost.
    Closed,
}

/// `tokio::sync::mpsc::Sender::try_send`: tries to put `value` into the
/// channel and returns at once.  Which of the three answers comes back
/// depends on the channel at that moment; the contract claims only that a
/// value that was not sent is the one that was given.
#[verifier::external_body]
fn try_send<T>(sender: &tokio::sync::mpsc::Sender<T>, value: T) -> (attempt: SendAttempt<T>)
    ensures
        attempt matches SendAttempt::Full(back) ==> back == value,
        attempt matches SendAttempt::Closed(back) ==> back == value,
{
    match sender.try_send(value) {
        Ok(()) => SendAttempt::Sent,
        Err(tokio::sync::mpsc::error::TrySendError::Full(back)) => SendAttempt::Full(back),
        Err(tokio::sync::mpsc::error::TrySendError::Closed(back)) => SendAttempt::Closed(back),
    }
}

/// `tokio::sync::mpsc::Receiver::try_recv`: takes a waiting value out of the
/// channel, if there is one, and returns at once.  Which of the three
/// answers comes back depends on the channel at that moment; the contract
/// claims nothing of it.
#[verifier::external_body]
fn try_receive<T>(receiver: &mut tokio::sync::mpsc::Receiver<T>) -> (attempt: ReceiveAttempt<T>) {
    match receiver.try_recv() {
        Ok(value) => ReceiveAttempt::Received(value),
        Err(tokio::sync::mpsc::error::TryRecvError::Empty) => ReceiveAttempt::Empty,
        Err(tokio::sync::mpsc::error::TryRecvError::Disconnected) => ReceiveAttempt::Disconnected,
    }
}

/// What a send's answer means for the thing offered.
pub open spec fn offer_of<T>(attempt: SendAttempt<T>) -> Offer {
    match attempt {
        SendAttempt::Sent => Offer::Accepted,
        SendAttempt::Full(_) => Offer::Dropped,
        SendAttempt::Closed(_) => Offer::Closed,
    }
}

/// What a receive's answer means for the watchdog.
pub open spec fn check_of<T>(attempt: ReceiveAttempt<T>) -> SignalCheck {
    match attempt {
        ReceiveAttempt::Received(_) => SignalCheck::Present,
        ReceiveAttempt::Empty => SignalCheck::Absent,
        ReceiveAttempt::Disconnected => SignalCheck::Closed,
    }
}

/// Reads a send's answer: a value that came back is discarded.
pub fn settle_offer<T>(attempt: SendAttempt<T>) -> (offer: Offer)
    ensures
        offer == offer_of(attempt),
{
    match attempt {
        SendAttempt::Sent => Offer::Accepted,
        SendAttempt::Full(_) => Offer::Dropped,
        SendAttempt::Closed(_) => Offer::Closed,
    }
}

/// Reads a receive's answer: a value that was waiting is consumed.
pub fn settle_check<T>(attempt: ReceiveAttempt<T>) -> (found: SignalCheck)
    ensures
        found == check_of(attempt),
{
    match attempt {
        ReceiveAttempt::Received(_) => SignalCheck::Present,
        ReceiveAttempt::Empty => SignalCheck::Absent,
        ReceiveAttempt::Disconnected => SignalCheck::Closed,
    }
}

/// Offers `value` to the channel without waiting: it is placed if the slot
/// is free and discarded otherwise.  The producer gets its answer at once,
/// whatever the consumer is doing.
pub fn offer<T>(sender: &tokio::sync::mpsc::Sender<T>, value: T) -> (offer: Offer) {
    settle_offer(try_send(sender, value))
}

/// Looks at the channel without waiting and consumes what waits there.
pub fn check<T>(receiver: &mut tokio::sync::mpsc::Receiver<T>) -> (found: SignalCheck) {
    settle_check(try_receive(receiver))
}

/// The watchdog's move at the end of a window: looks at the notify channel
/// and steps the worker on what was found.  Whatever was found, the worker
/// has taken exactly the step that belongs to it.
pub fn look<T>(worker: &mut WatchdogWorker, receiver: &mut tokio::sync::mpsc::Receiver<T>) -> (result:
    (SignalCheck, Result<WatchdogCommand, StepError>))
    ensures
        match old(worker)@.next(WatchdogInput::Checked(result.0)) {
            Some((phase, command)) => {
                &&& result.1 matches Ok(given)
                &&& given@ == command
                &&& final(worker)@ == old(worker)@.at(phase)
            },
            None => {
                &&& result.1 == Err::<WatchdogCommand, StepError>(StepError::UnexpectedInput)
                &&& final(worker)@ == old(worker)@
            },
        },
{
    let found = check(receiver);
    let stepped = worker.step(WatchdogInput::Checked(found));
    (found, stepped)
}

} // verus!
