//! The debounce worker: one event notification per accepted sample, a
//! refractory rest after each, and one drained sample after the rest.

use vstd::prelude::*;
use crate::error::StepError;
use crate::notification::{
    event_notification, EventNotification, EventNotificationView, EventPayload, EventPayloadView,
};

verus! {

/// Where the worker stands in its cycle.
#[derive(Clone, Copy, Debug, PartialEq, Eq, Structural)]
pub enum DebouncePhase {
    /// Suspended in a take, for the sample that starts the next event.
    AwaitingSample,
    /// An event notification is with the publisher.
    Publishing,
    /// Suspended on the refractory timer.
    RefractorySleep,
    /// Suspended in a take, for the one sample that is thrown away.
    Draining,
}

/// What the caller reports back after carrying out a command.
#[derive(Debug, PartialEq)]
pub enum DebounceInput<T> {
    /// A take returned this sample.
    Sample(T),
    /// The publisher finished; `true` for success.
    Published(bool),
    /// The rest is over.
    TimerElapsed,
}

/// What the caller is to do next.
#[derive(Debug, PartialEq)]
pub enum DebounceCommand<T> {
    /// Suspend in a take of the coalescer until a sample is there.
    Take,
    /// Hand this notification to the publisher, once, and report the outcome.
    Publish(EventNotification<T>),
    /// Offer one signal to the notify slot if `signal` is set, then sleep for
    /// `seconds`.
    Rest { seconds: u64, signal: bool },
}

pub enum DebounceCommandView<T> {
    Take,
    Publish(EventNotificationView<T>),
    Rest { seconds: u64, signal: bool },
}

impl<T> View for DebounceCommand<T> {
    type V = DebounceCommandView<T>;

    open spec fn view(&self) -> DebounceCommandView<T> {
        match self {
            DebounceCommand::Take => DebounceCommandView::Take,
            DebounceCommand::Publish(notification) => DebounceCommandView::Publish(notification@),
            DebounceCommand::Rest { seconds, signal } => DebounceCommandView::Rest {
                seconds: *seconds,
                signal: *signal,
            },
        }
    }
}

/// The worker as contracts see it: its configuration and its phase.
pub struct DebounceModel {
    pub topic: Seq<char>,
    pub payload: EventPayloadView,
    pub refractory_seconds: u64,
    pub phase: DebouncePhase,
}

impl DebounceModel {
    /// The same worker in another phase.
    pub open spec fn at(self, phase: DebouncePhase) -> DebounceModel {
        DebounceModel { phase, ..self }
    }

    /// The phase that `input` leads to and the command that goes with it, or
    /// `None` where the current phase does not wait for `input`.
    ///
    /// A sample that arrives while awaiting becomes a notification; the
    /// publisher's answer, good or bad, starts the rest, and only a good one
    /// signals the watchdog; the timer leads to the drain; the drained sample
    /// is dropped and the worker awaits again.
    pub open spec fn next<T>(self, input: DebounceInput<T>) -> Option<
        (DebouncePhase, DebounceCommandView<T>),
    > {
        match (self.phase, input) {
            (DebouncePhase::AwaitingSample, DebounceInput::Sample(sample)) => Some(
                (
                    DebouncePhase::Publishing,
                    DebounceCommandView::Publish(
                        event_notification(self.topic, self.payload, sample),
                    ),
                ),
            ),
            (DebouncePhase::Publishing, DebounceInput::Published(delivered)) => Some(
                (
                    DebouncePhase::RefractorySleep,
                    DebounceCommandView::Rest {
                        seconds: self.refractory_seconds,
                        signal: delivered,
                    },
                ),
            ),
            (DebouncePhase::RefractorySleep, DebounceInput::TimerElapsed) => Some(
                (DebouncePhase::Draining, DebounceCommandView::Take),
            ),
            (DebouncePhase::Draining, DebounceInput::Sample(_)) => Some(
                (DebouncePhase::AwaitingSample, DebounceCommandView::Take),
            ),
            _ => None,
        }
    }
}

/// The decisions of the debounce loop.  The caller performs each command and
/// hands back what came of it; the worker never waits itself.
pub struct DebounceWorker {
    topic: String,
    payload: EventPayload,
    refractory_seconds: u64,
    phase: DebouncePhase,
}

impl View for DebounceWorker {
    type V = DebounceModel;

    closed spec fn view(&self) -> DebounceModel {
        DebounceModel {
            topic: self.topic@,
            payload: self.payload@,
            refractory_seconds: self.refractory_seconds,
            phase: self.phase,
        }
    }
}

impl DebounceWorker {
    /// A worker that awaits its first sample: the caller starts with a take.
    pub fn new(topic: String, payload: EventPayload, refractory_seconds: u64) -> (worker: Self)
        ensures
            worker@ == (DebounceModel {
                topic: topic@,
                payload: payload@,
                refractory_seconds,
                phase: DebouncePhase::AwaitingSample,
            }),
    {
        DebounceWorker { topic, payload, refractory_seconds, phase: DebouncePhase::AwaitingSample }
    }

    /// The current phase.
    pub fn phase(&self) -> (phase: DebouncePhase)
        ensures
            phase == self@.phase,
    {
        self.phase
    }

    /// Takes what happened and says what to do next.  An input that the
    /// current phase does not wait for is refused and changes nothing.
    pub fn step<T>(&mut self, input: DebounceInput<T>) -> (result: Result<
        DebounceCommand<T>,
        StepError,
    >)
        ensures
            match old(self)@.next(input) {
                Some((phase, command)) => {
                    &&& result matches Ok(given)
                    &&& given@ == command
                    &&& final(self)@ == old(self)@.at(phase)
                },
                None => {
                    &&& result == Err::<DebounceCommand<T>, StepError>(StepError::UnexpectedInput)
                    &&& final(self)@ == old(self)@
                },
            },
    {
        match (self.phase, input) {
            (DebouncePhase::AwaitingSample, DebounceInput::Sample(sample)) => {
                self.phase = DebouncePhase::Publishing;
                Ok(DebounceCommand::Publish(EventNotification::new(&self.topic, &self.payload, sample)))
            },
            (DebouncePhase::Publishing, DebounceInput::Published(delivered)) => {
                self.phase = DebouncePhase::RefractorySleep;
                Ok(DebounceCommand::Rest { seconds: self.refractory_seconds, signal: delivered })
            },
            (DebouncePhase::RefractorySleep, DebounceInput::TimerElapsed) => {
                self.phase = DebouncePhase::Draining;
                Ok(DebounceCommand::Take)
            },
            (DebouncePhase::Draining, DebounceInput::Sample(_)) => {
                self.phase = DebouncePhase::AwaitingSample;
                Ok(DebounceCommand::Take)
            },
            _ => Err(StepError::UnexpectedInput),
        }
    }
}

} // verus!
