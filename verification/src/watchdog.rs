//! The watchdog worker: after every absence window it looks at the notify
//! slot and publishes an absence notification if nothing was signalled.

use vstd::prelude::*;
use crate::error::StepError;
use crate::notification::{absence_notification, AbsenceNotification, AbsenceNotificationView};
use crate::notify::{law_offers_coalesce, NotifyState, SignalCheck};

verus! {

/// Where the watchdog stands in its cycle.
#[derive(Clone, Copy, Debug, PartialEq, Eq, Structural)]
pub enum WatchdogPhase {
    /// Suspended on the window timer, or looking at the notify slot.
    Sleeping,
    /// An absence notification is with the publisher.
    Publishing,
    /// The notify channel was found closed; the watchdog has ended.
    Stopped,
}

/// Why the watchdog ended.
#[derive(Clone, Copy, Debug, PartialEq, Eq, Structural)]
pub enum WatchdogFault {
    /// The producer side of the notify channel is gone: the debounce worker
    /// no longer runs, so silence no longer means absence.
    NotifyChannelClosed,
}

/// What the caller reports back after carrying out a command.
#[derive(Clone, Copy, Debug, PartialEq, Eq, Structural)]
pub enum WatchdogInput {
    /// The window is over, and this is what the notify slot held.
    Checked(SignalCheck),
    /// The publisher finished; `true` for success.
    Published(bool),
}

/// What the caller is to do next.
#[derive(Debug, PartialEq)]
pub enum WatchdogCommand {
    /// Sleep for `seconds`, then look at the notify slot without waiting and
    /// report what was found.
    SleepThenCheck { seconds: u64 },
    /// Hand this notification to the publisher, once, and report the outcome.
    Publish(AbsenceNotification),
    /// End the watchdog and make the fault known.
    Stop(WatchdogFault),
}

pub enum WatchdogCommandView {
    SleepThenCheck { seconds: u64 },
    Publish(AbsenceNotificationView),
    Stop(WatchdogFault),
}

impl View for WatchdogCommand {
    type V = WatchdogCommandView;

    open spec fn view(&self) -> WatchdogCommandView {
        match self {
            WatchdogCommand::SleepThenCheck { seconds } => WatchdogCommandView::SleepThenCheck {
                seconds: *seconds,
            },
            WatchdogCommand::Publish(notification) => WatchdogCommandView::Publish(notification@),
            WatchdogCommand::Stop(fault) => WatchdogCommandView::Stop(*fault),
        }
    }
}

/// The watchdog as contracts see it: its configuration and its phase.
pub struct WatchdogModel {
    pub topic: Seq<char>,
    pub marker: Seq<char>,
    pub window_seconds: u64,
    pub phase: WatchdogPhase,
}

impl WatchdogModel {
    /// The same watchdog in another phase.
    pub open spec fn at(self, phase: WatchdogPhase) -> WatchdogModel {
        WatchdogModel { phase, ..self }
    }

    /// The command that opens a window.
    pub open spec fn sleep(self) -> WatchdogCommandView {
        WatchdogCommandView::SleepThenCheck { seconds: self.window_seconds }
    }

    /// The phase that `input` leads to and the command that goes with it, or
    /// `None` where the current phase does not wait for `input`.
    ///
    /// A signal that was present means an event occurred in the window:
    /// nothing is published.  An empty slot means absence: one notification
    /// goes out, and whatever the publisher answers the next window opens.
    /// A closed channel ends the watchdog.
    pub open spec fn next(self, input: WatchdogInput) -> Option<
        (WatchdogPhase, WatchdogCommandView),
    > {
        match (self.phase, input) {
            (WatchdogPhase::Sleeping, WatchdogInput::Checked(SignalCheck::Present)) => Some(
                (WatchdogPhase::Sleeping, self.sleep()),
            ),
            (WatchdogPhase::Sleeping, WatchdogInput::Checked(SignalCheck::Absent)) => Some(
                (
                    WatchdogPhase::Publishing,
                    WatchdogCommandView::Publish(absence_notification(self.topic, self.marker)),
                ),
            ),
            (WatchdogPhase::Sleeping, WatchdogInput::Checked(SignalCheck::Closed)) => Some(
                (
                    WatchdogPhase::Stopped,
                    WatchdogCommandView::Stop(WatchdogFault::NotifyChannelClosed),
                ),
            ),
            (WatchdogPhase::Publishing, WatchdogInput::Published(_)) => Some(
                (WatchdogPhase::Sleeping, self.sleep()),
            ),
            _ => None,
        }
    }
}

/// The decisions of the watchdog loop.  The caller performs each command and
/// hands back what came of it; the worker never waits itself.
pub struct WatchdogWorker {
    topic: String,
    marker: String,
    window_seconds: u64,
    phase: WatchdogPhase,
}

impl View for WatchdogWorker {
    type V = WatchdogModel;

    closed spec fn view(&self) -> WatchdogModel {
        WatchdogModel {
            topic: self.topic@,
            marker: self.marker@,
            window_seconds: self.window_seconds,
            phase: self.phase,
        }
    }
}

impl WatchdogWorker {
    /// A watchdog at the start of its first window, together with the
    /// command that opens it.
    pub fn new(topic: String, marker: String, window_seconds: u64) -> (started: (
        Self,
        WatchdogCommand,
    ))
        ensures
            started.0@ == (WatchdogModel {
                topic: topic@,
                marker: marker@,
                window_seconds,
                phase: WatchdogPhase::Sleeping,
            }),
            started.1@ == started.0@.sleep(),
    {
        (
            WatchdogWorker { topic, marker, window_seconds, phase: WatchdogPhase::Sleeping },
            WatchdogCommand::SleepThenCheck { seconds: window_seconds },
        )
    }

    /// The current phase.
    pub fn phase(&self) -> (phase: WatchdogPhase)
        ensures
            phase == self@.phase,
    {
        self.phase
    }

    /// Takes what happened and says what to do next.  An input that the
    /// current phase does not wait for is refused and changes nothing; a
    /// stopped watchdog refuses every input.
    pub fn step(&mut self, input: WatchdogInput) -> (result: Result<WatchdogCommand, StepError>)
        ensures
            match old(self)@.next(input) {
                Some((phase, command)) => {
                    &&& result matches Ok(given)
                    &&& given@ == command
                    &&& final(self)@ == old(self)@.at(phase)
                },
                None => {
                    &&& result == Err::<WatchdogCommand, StepError>(StepError::UnexpectedInput)
                    &&& final(self)@ == old(self)@
                },
            },
    {
        match (self.phase, input) {
            (WatchdogPhase::Sleeping, WatchdogInput::Checked(SignalCheck::Present)) => {
                Ok(WatchdogCommand::SleepThenCheck { seconds: self.window_seconds })
            },
            (WatchdogPhase::Sleeping, WatchdogInput::Checked(SignalCheck::Absent)) => {
                self.phase = WatchdogPhase::Publishing;
                Ok(WatchdogCommand::Publish(AbsenceNotification::new(&self.topic, &self.marker)))
            },
            (WatchdogPhase::Sleeping, WatchdogInput::Checked(SignalCheck::Closed)) => {
                self.phase = WatchdogPhase::Stopped;
                Ok(WatchdogCommand::Stop(WatchdogFault::NotifyChannelClosed))
            },
            (WatchdogPhase::Publishing, WatchdogInput::Published(_)) => {
                self.phase = WatchdogPhase::Sleeping;
                Ok(WatchdogCommand::SleepThenCheck { seconds: self.window_seconds })
            },
            _ => Err(StepError::UnexpectedInput),
        }
    }
}

/// A window that opens with the watchdog's look and in which `n` signals are
/// offered ends with an absence notification exactly if `n` is zero: one
/// signal or many, the watchdog sleeps on without publishing.
pub proof fn law_window_verdict(watchdog: WatchdogModel, slot: NotifyState, n: nat)
    requires
        watchdog.phase == WatchdogPhase::Sleeping,
        !slot.closed,
    ensures
        watchdog.next(WatchdogInput::Checked(slot.checked().offers(n).report())) == Some(
            if n == 0 {
                (
                    WatchdogPhase::Publishing,
                    WatchdogCommandView::Publish(
                        absence_notification(watchdog.topic, watchdog.marker),
                    ),
                )
            } else {
                (WatchdogPhase::Sleeping, watchdog.sleep())
            },
        ),
{
    law_offers_coalesce(slot, n);
}

} // verus!
