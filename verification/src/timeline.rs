//! The whole pipeline on a virtual clock.
//!
//! A [`Timeline`] owns a coalescer, a notify slot and the two workers, and
//! carries out their commands itself.  Time only moves when the caller says
//! so, a publish takes no time, and the publisher succeeds or fails as the
//! caller has set it.  What happens at one instant happens in a fixed order:
//! timers that are due fire before a sample that arrives at the same
//! millisecond is offered.

use vstd::prelude::*;
use crate::coalescer::EventCoalescer;
use crate::debounce::{DebounceCommand, DebounceInput, DebouncePhase, DebounceWorker};
use crate::notification::EventPayload;
use crate::notify::NotifySlot;
use crate::watchdog::{WatchdogCommand, WatchdogInput, WatchdogPhase, WatchdogWorker};

verus! {

/// One call of the publisher: when it was made and whether it succeeded.
#[derive(Clone, Copy, Debug, PartialEq, Eq, Structural)]
pub struct Published {
    pub at_ms: u64,
    pub delivered: bool,
}

/// What became of a sample that was delivered to the pipeline.
#[derive(Clone, Copy, Debug, PartialEq, Eq, Structural)]
pub enum Delivery {
    /// The debounce worker was awaiting it: an event notification went out.
    Published,
    /// The debounce worker was draining: it took the sample and dropped it.
    Drained,
    /// The debounce worker was resting and the slot was empty: the sample
    /// waits in the coalescer.
    Held,
    /// The debounce worker was resting and the slot was occupied: the sample
    /// is lost.
    Dropped,
}

/// Why the timeline refused a call.
#[derive(Clone, Copy, Debug, PartialEq, Eq, Structural)]
pub enum TimelineError {
    /// An absence window of zero seconds: the watchdog would never let time
    /// pass.
    ZeroWindow,
    /// The instant given lies before the timeline's clock.
    TimeWentBack,
}

/// The pipeline at one instant, as contracts see it.
pub struct TimelineState<T> {
    /// The refractory period.
    pub refractory_ms: nat,
    /// The absence window.
    pub window_ms: nat,
    /// The clock.
    pub now_ms: u64,
    /// The sample that waits in the coalescer.
    pub slot: Option<T>,
    /// Whether a signal waits in the notify slot.
    pub pending: bool,
    /// The phase of the debounce worker.
    pub phase: DebouncePhase,
    /// When the refractory rest ends; it counts while the worker rests.
    pub debounce_wake_ms: nat,
    /// When the watchdog looks next.
    pub watchdog_wake_ms: nat,
    /// Whether the publisher succeeds.
    pub publisher_healthy: bool,
    /// The event notifications handed to the publisher, oldest first.
    pub events: Seq<Published>,
    /// The absence notifications handed to the publisher, oldest first.
    pub absences: Seq<Published>,
}

impl<T> TimelineState<T> {
    /// A pipeline that has just been started at time zero.
    pub open spec fn fresh(self) -> bool {
        &&& self.window_ms > 0
        &&& self.now_ms == 0
        &&& self.slot is None
        &&& !self.pending
        &&& self.phase == DebouncePhase::AwaitingSample
        &&& self.watchdog_wake_ms == self.window_ms
        &&& self.events.len() == 0
        &&& self.absences.len() == 0
    }

    /// The refractory timer, if it is due at `at_ms`: the worker drains the
    /// waiting sample and awaits the next, or goes on draining if none waits.
    pub open spec fn woken(self, at_ms: u64) -> Self {
        if self.phase == DebouncePhase::RefractorySleep && self.debounce_wake_ms <= at_ms {
            if self.slot is Some {
                TimelineState { slot: None, phase: DebouncePhase::AwaitingSample, ..self }
            } else {
                TimelineState { phase: DebouncePhase::Draining, ..self }
            }
        } else {
            self
        }
    }

    /// What the watchdog's look does to the notify slot and to the log: a
    /// pending signal is consumed, an empty slot costs an absence
    /// notification.
    pub open spec fn looked(self) -> Self {
        if self.pending {
            TimelineState { pending: false, ..self }
        } else {
            TimelineState {
                absences: self.absences.push(
                    Published {
                        at_ms: self.watchdog_wake_ms as u64,
                        delivered: self.publisher_healthy,
                    },
                ),
                ..self
            }
        }
    }

    /// One look of the watchdog, at the end of its window, and the start of
    /// the next window.
    pub open spec fn ticked(self) -> Self {
        TimelineState {
            watchdog_wake_ms: self.watchdog_wake_ms + self.window_ms,
            ..self.looked()
        }
    }

    /// How far the watchdog's next look lies at or before `at_ms`.
    pub open spec fn overdue(self, at_ms: u64) -> nat {
        if self.watchdog_wake_ms <= at_ms {
            (at_ms + 1 - self.watchdog_wake_ms) as nat
        } else {
            0
        }
    }

    /// Every look of the watchdog that is due at `at_ms`, in order.
    pub open spec fn watched(self, at_ms: u64) -> Self
        decreases self.overdue(at_ms),
    {
        if self.window_ms > 0 && self.watchdog_wake_ms <= at_ms {
            self.ticked().watched(at_ms)
        } else {
            self
        }
    }

    /// The pipeline once the clock has reached `at_ms`.
    pub open spec fn advanced(self, at_ms: u64) -> Self {
        TimelineState { now_ms: at_ms, ..self.woken(at_ms).watched(at_ms) }
    }

    /// What becomes of a sample that is offered now.
    pub open spec fn outcome(self) -> Delivery {
        match self.phase {
            DebouncePhase::AwaitingSample => Delivery::Published,
            DebouncePhase::Draining => Delivery::Drained,
            _ => if self.slot is None {
                Delivery::Held
            } else {
                Delivery::Dropped
            },
        }
    }

    /// The pipeline after `sample` was offered now.  A worker that awaits it
    /// publishes at once, signals the watchdog if the publisher succeeded,
    /// and rests; a worker that drains drops it; a worker that rests leaves
    /// it to the coalescer.
    pub open spec fn offered(self, sample: T) -> Self {
        match self.phase {
            DebouncePhase::AwaitingSample => TimelineState {
                events: self.events.push(
                    Published { at_ms: self.now_ms, delivered: self.publisher_healthy },
                ),
                pending: self.pending || self.publisher_healthy,
                phase: DebouncePhase::RefractorySleep,
                debounce_wake_ms: (self.now_ms + self.refractory_ms) as nat,
                ..self
            },
            DebouncePhase::Draining => TimelineState {
                phase: DebouncePhase::AwaitingSample,
                ..self
            },
            _ => TimelineState { slot: crate::coalescer::offered(self.slot, sample), ..self },
        }
    }

    /// The pipeline after the clock has reached `at_ms` and `sample` was
    /// offered then.
    pub open spec fn delivered(self, at_ms: u64, sample: T) -> Self {
        self.advanced(at_ms).offered(sample)
    }
}

/// One sample of a run: when it arrives, and whether the publisher succeeds
/// from then on.
#[derive(Debug, PartialEq)]
pub struct Arrival<T> {
    pub at_ms: u64,
    pub sample: T,
    pub publisher_healthy: bool,
}

/// The arrivals come in the order of their times.
pub open spec fn in_order<T>(arrivals: Seq<Arrival<T>>) -> bool {
    forall|i: int, j: int|
        0 <= i <= j < arrivals.len() ==> (#[trigger] arrivals[i]).at_ms <= (
        #[trigger] arrivals[j]).at_ms
}

/// The pipeline after every arrival was delivered, one after the other.
pub open spec fn replayed<T>(start: TimelineState<T>, arrivals: Seq<Arrival<T>>) -> TimelineState<
    T,
>
    decreases arrivals.len(),
{
    if arrivals.len() == 0 {
        start
    } else {
        let last = arrivals.last();
        let before = replayed(start, arrivals.drop_last());
        (TimelineState { publisher_healthy: last.publisher_healthy, ..before }).delivered(
            last.at_ms,
            last.sample,
        )
    }
}

/// The arrivals come in the order of their times, none of them before
/// `now_ms`.
pub open spec fn follows<T>(now_ms: u64, arrivals: Seq<Arrival<T>>) -> bool {
    &&& in_order(arrivals)
    &&& arrivals.len() > 0 ==> arrivals[0].at_ms >= now_ms
}

/// A pipeline that runs on a clock the caller moves.
pub struct Timeline<T> {
    coalescer: EventCoalescer<T>,
    notify: NotifySlot,
    debounce: DebounceWorker,
    watchdog: WatchdogWorker,
    now_ms: u64,
    debounce_wake_ms: u128,
    watchdog_wake_ms: u128,
    publisher_healthy: bool,
    events: Vec<Published>,
    absences: Vec<Published>,
}

impl<T> View for Timeline<T> {
    type V = TimelineState<T>;

    closed spec fn view(&self) -> TimelineState<T> {
        TimelineState {
            refractory_ms: (self.debounce@.refractory_seconds * 1000) as nat,
            window_ms: (self.watchdog@.window_seconds * 1000) as nat,
            now_ms: self.now_ms,
            slot: self.coalescer@,
            pending: self.notify@.pending,
            phase: self.debounce@.phase,
            debounce_wake_ms: self.debounce_wake_ms as nat,
            watchdog_wake_ms: self.watchdog_wake_ms as nat,
            publisher_healthy: self.publisher_healthy,
            events: self.events@,
            absences: self.absences@,
        }
    }
}

impl<T> Timeline<T> {
    /// What holds of the parts whenever no command is half done.
    spec fn steady(&self) -> bool {
        &&& self.watchdog@.window_seconds > 0
        &&& self.watchdog@.phase == WatchdogPhase::Sleeping
        &&& !self.notify@.closed
        &&& self.debounce@.phase != DebouncePhase::Publishing
        &&& self.debounce@.phase != DebouncePhase::RefractorySleep ==> self.coalescer@ is None
    }

    /// The timeline is between two calls: both workers are suspended, a
    /// worker that waits for a sample has none in the slot, and the
    /// watchdog's next look lies ahead.
    pub closed spec fn wf(&self) -> bool {
        &&& self.steady()
        &&& self.watchdog_wake_ms > self.now_ms
    }

    /// A pipeline at time zero with the given refractory period and absence
    /// window, an empty log and a publisher that succeeds.
    pub fn new(refractory_seconds: u64, absence_window_seconds: u64) -> (result: Result<
        Self,
        TimelineError,
    >)
        ensures
            match result {
                Ok(timeline) => {
                    &&& absence_window_seconds > 0
                    &&& timeline.wf()
                    &&& timeline@.fresh()
                    &&& timeline@.refractory_ms == refractory_seconds * 1000
                    &&& timeline@.window_ms == absence_window_seconds * 1000
                    &&& timeline@.publisher_healthy
                },
                Err(error) => error == TimelineError::ZeroWindow && absence_window_seconds == 0,
            },
    {
        if absence_window_seconds == 0 {
            return Err(TimelineError::ZeroWindow);
        }
        let debounce = DebounceWorker::new(
            String::new(),
            EventPayload::Amplitude,
            refractory_seconds,
        );
        let (watchdog, first) = WatchdogWorker::new(
            String::new(),
            String::new(),
            absence_window_seconds,
        );
        let window_ms: u128 = match first {
            WatchdogCommand::SleepThenCheck { seconds } => seconds as u128 * 1000,
            _ => 0,
        };
        Ok(
            Timeline {
                coalescer: EventCoalescer::new(),
                notify: NotifySlot::new(),
                debounce,
                watchdog,
                now_ms: 0,
                debounce_wake_ms: 0,
                watchdog_wake_ms: window_ms,
                publisher_healthy: true,
                events: Vec::new(),
                absences: Vec::new(),
            },
        )
    }

    /// Sets whether the publisher succeeds from now on.
    pub fn set_publisher(&mut self, healthy: bool)
        requires
            old(self).wf(),
        ensures
            final(self).wf(),
            final(self)@ == (TimelineState { publisher_healthy: healthy, ..old(self)@ }),
    {
        self.publisher_healthy = healthy;
    }

    /// The clock.
    pub fn now_ms(&self) -> (now: u64)
        ensures
            now == self@.now_ms,
    {
        self.now_ms
    }

    /// The phase of the debounce worker.
    pub fn phase(&self) -> (phase: DebouncePhase)
        ensures
            phase == self@.phase,
    {
        self.debounce.phase()
    }

    /// Whether a sample waits in the coalescer.
    pub fn holds_sample(&self) -> (held: bool)
        ensures
            held == (self@.slot is Some),
    {
        self.coalescer.is_occupied()
    }

    /// The event notifications handed to the publisher so far.
    pub fn events(&self) -> (events: &Vec<Published>)
        ensures
            events@ == self@.events,
    {
        &self.events
    }

    /// The absence notifications handed to the publisher so far.
    pub fn absences(&self) -> (absences: &Vec<Published>)
        ensures
            absences@ == self@.absences,
    {
        &self.absences
    }

    /// Fires the refractory timer if it is due.
    fn wake(&mut self, at_ms: u64)
        requires
            old(self).steady(),
        ensures
            final(self).steady(),
            final(self)@ == old(self)@.woken(at_ms),
    {
        if self.debounce.phase() == DebouncePhase::RefractorySleep && self.debounce_wake_ms
            <= at_ms as u128 {
            let _ = self.debounce.step::<T>(DebounceInput::TimerElapsed);
            match self.coalescer.take() {
                Some(sample) => {
                    let _ = self.debounce.step(DebounceInput::Sample(sample));
                },
                None => {},
            }
        }
    }

    /// Lets the watchdog look once, at the end of its window.
    fn tick(&mut self)
        requires
            old(self).steady(),
            old(self).watchdog_wake_ms <= u64::MAX,
        ensures
            final(self).steady(),
            final(self)@ == old(self)@.ticked(),
    {
        let found = self.notify.check();
        let mut command = self.watchdog.step(WatchdogInput::Checked(found));
        if let Ok(WatchdogCommand::Publish(_)) = command {
            self.absences.push(
                Published {
                    at_ms: self.watchdog_wake_ms as u64,
                    delivered: self.publisher_healthy,
                },
            );
            command = self.watchdog.step(WatchdogInput::Published(self.publisher_healthy));
        }
        if let Ok(WatchdogCommand::SleepThenCheck { seconds }) = command {
            self.watchdog_wake_ms = self.watchdog_wake_ms + seconds as u128 * 1000;
        }
    }

    /// Fires every timer that is due at `at_ms` and sets the clock.
    fn settle(&mut self, at_ms: u64)
        requires
            old(self).steady(),
            at_ms >= old(self).now_ms,
        ensures
            final(self).wf(),
            final(self)@ == old(self)@.advanced(at_ms),
    {
        self.wake(at_ms);
        let ghost woken = self@;
        while self.watchdog_wake_ms <= at_ms as u128
            invariant
                self.steady(),
                self@.watched(at_ms) == woken.watched(at_ms),
            decreases self@.overdue(at_ms),
        {
            self.tick();
        }
        self.now_ms = at_ms;
    }

    /// Moves the clock to `at_ms` and fires every timer that is due by then.
    /// An instant before the clock is refused and changes nothing.
    pub fn advance_to(&mut self, at_ms: u64) -> (result: Result<(), TimelineError>)
        requires
            old(self).wf(),
        ensures
            final(self).wf(),
            match result {
                Ok(_) => at_ms >= old(self)@.now_ms && final(self)@ == old(self)@.advanced(at_ms),
                Err(error) => {
                    &&& error == TimelineError::TimeWentBack
                    &&& at_ms < old(self)@.now_ms
                    &&& final(self)@ == old(self)@
                },
            },
    {
        if at_ms < self.now_ms {
            return Err(TimelineError::TimeWentBack);
        }
        self.settle(at_ms);
        Ok(())
    }

    /// Moves the clock to `at_ms`, fires every timer that is due by then and
    /// offers `sample` to the coalescer.  Returns what became of the sample.
    /// An instant before the clock is refused and changes nothing.
    pub fn deliver(&mut self, at_ms: u64, sample: T) -> (result: Result<Delivery, TimelineError>)
        requires
            old(self).wf(),
        ensures
            final(self).wf(),
            match result {
                Ok(delivery) => {
                    &&& at_ms >= old(self)@.now_ms
                    &&& final(self)@ == old(self)@.delivered(at_ms, sample)
                    &&& delivery == old(self)@.advanced(at_ms).outcome()
                },
                Err(error) => {
                    &&& error == TimelineError::TimeWentBack
                    &&& at_ms < old(self)@.now_ms
                    &&& final(self)@ == old(self)@
                },
            },
    {
        if at_ms < self.now_ms {
            return Err(TimelineError::TimeWentBack);
        }
        self.settle(at_ms);
        let accepted = self.coalescer.offer(sample);
        match self.debounce.phase() {
            DebouncePhase::AwaitingSample => {
                if let Some(taken) = self.coalescer.take() {
                    let _ = self.debounce.step(DebounceInput::Sample(taken));
                }
                self.events.push(Published { at_ms, delivered: self.publisher_healthy });
                let command = self.debounce.step::<T>(
                    DebounceInput::Published(self.publisher_healthy),
                );
                if let Ok(DebounceCommand::Rest { seconds, signal }) = command {
                    if signal {
                        let _ = self.notify.offer();
                    }
                    self.debounce_wake_ms = at_ms as u128 + seconds as u128 * 1000;
                }
                Ok(Delivery::Published)
            },
            DebouncePhase::Draining => {
                if let Some(taken) = self.coalescer.take() {
                    let _ = self.debounce.step(DebounceInput::Sample(taken));
                }
                Ok(Delivery::Drained)
            },
            _ => if accepted {
                Ok(Delivery::Held)
            } else {
                Ok(Delivery::Dropped)
            },
        }
    }
}

impl<T: Copy> Timeline<T> {
    /// Delivers every arrival, one after the other, each with the publisher
    /// set as the arrival says.  Arrivals that are out of order, or that
    /// begin before the clock, are refused as a whole and change nothing.
    pub fn replay(&mut self, arrivals: &Vec<Arrival<T>>) -> (result: Result<(), TimelineError>)
        requires
            old(self).wf(),
        ensures
            final(self).wf(),
            match result {
                Ok(_) => {
                    &&& follows(old(self)@.now_ms, arrivals@)
                    &&& final(self)@ == replayed(old(self)@, arrivals@)
                },
                Err(error) => {
                    &&& error == TimelineError::TimeWentBack
                    &&& !follows(old(self)@.now_ms, arrivals@)
                    &&& final(self)@ == old(self)@
                },
            },
    {
        let mut latest: u64 = self.now_ms;
        let mut i: usize = 0;
        while i < arrivals.len()
            invariant
                i <= arrivals.len(),
                *self == *old(self),
                self.wf(),
                latest == (if i == 0 {
                    self.now_ms
                } else {
                    arrivals[i - 1].at_ms
                }),
                i > 0 ==> arrivals[0].at_ms >= self.now_ms,
                forall|a: int, b: int|
                    0 <= a <= b < i ==> (#[trigger] arrivals@[a]).at_ms <= (
                    #[trigger] arrivals@[b]).at_ms,
            decreases arrivals.len() - i,
        {
            if arrivals[i].at_ms < latest {
                proof {
                    if i > 0 {
                        assert(arrivals@[i - 1].at_ms > arrivals@[i as int].at_ms);
                    }
                }
                return Err(TimelineError::TimeWentBack);
            }
            proof {
                assert forall|a: int, b: int| 0 <= a <= b < i + 1 implies (
                #[trigger] arrivals@[a]).at_ms <= (#[trigger] arrivals@[b]).at_ms by {
                    if a < i && b == i {
                        assert(arrivals@[a].at_ms <= arrivals@[i - 1].at_ms);
                    }
                }
            }
            latest = arrivals[i].at_ms;
            i = i + 1;
        }
        let ghost start = self@;
        let mut k: usize = 0;
        while k < arrivals.len()
            invariant
                k <= arrivals.len(),
                self.wf(),
                follows(start.now_ms, arrivals@),
                self@ == replayed(start, arrivals@.take(k as int)),
                self@.now_ms == (if k == 0 {
                    start.now_ms
                } else {
                    arrivals[k - 1].at_ms
                }),
            decreases arrivals.len() - k,
        {
            let arrival = &arrivals[k];
            proof {
                assert(arrivals@.take(k + 1).drop_last() =~= arrivals@.take(k as int));
                assert(arrivals@.take(k + 1).last() == arrivals@[k as int]);
                if k > 0 {
                    assert(arrivals@[k - 1].at_ms <= arrivals@[k as int].at_ms);
                }
            }
            self.set_publisher(arrival.publisher_healthy);
            let _ = self.deliver(arrival.at_ms, arrival.sample);
            k = k + 1;
        }
        assert(arrivals@.take(k as int) =~= arrivals@);
        Ok(())
    }
}

} // verus!
