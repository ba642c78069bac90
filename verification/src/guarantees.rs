//! What holds of every run of the pipeline on a virtual clock.

use vstd::prelude::*;
use crate::debounce::DebouncePhase;
use crate::timeline::{in_order, replayed, Arrival, Published, TimelineState};

verus! {

/// `a / b`, rounded up.
pub open spec fn ceiling(a: nat, b: nat) -> nat {
    ((a + b - 1) / (b as int)) as nat
}

/// Some event notification in `events` was delivered at a time from
/// `from_ms` up to, but not including, `until_ms`.
pub open spec fn heard(events: Seq<Published>, from_ms: int, until_ms: int) -> bool {
    exists|i: int|
        0 <= i < events.len() && (#[trigger] events[i]).delivered && from_ms <= events[i].at_ms
            < until_ms
}

/// The window boundaries up to `boundary_ms`, oldest first, whose window
/// heard no delivered event notification.  The window of a boundary is the
/// `window_ms` before it.
pub open spec fn silent_boundaries(events: Seq<Published>, window_ms: nat, boundary_ms: nat) -> Seq<
    nat,
>
    decreases boundary_ms,
{
    if window_ms == 0 || boundary_ms < window_ms {
        Seq::empty()
    } else {
        let earlier = silent_boundaries(events, window_ms, (boundary_ms - window_ms) as nat);
        if heard(events, boundary_ms - window_ms, boundary_ms as int) {
            earlier
        } else {
            earlier.push(boundary_ms)
        }
    }
}

/// Each of `published` lies at least `gap_ms` after the one before it.
pub open spec fn spaced(published: Seq<Published>, gap_ms: nat) -> bool {
    forall|i: int, j: int|
        0 <= i && j == i + 1 && j < published.len() ==> (#[trigger] published[j]).at_ms >= (
        #[trigger] published[i]).at_ms + gap_ms
}

/// When each of `published` was handed to the publisher.
pub open spec fn times(published: Seq<Published>) -> Seq<nat> {
    published.map_values(|p: Published| p.at_ms as nat)
}

/// What every reachable state satisfies while the clock moves from
/// `now_ms` to `clock_ms`.
spec fn kept<T>(s: TimelineState<T>, clock_ms: int) -> bool {
    let last = s.events.last().at_ms;
    &&& 0 < s.window_ms <= s.watchdog_wake_ms
    &&& s.phase != DebouncePhase::Publishing
    &&& s.now_ms <= clock_ms
    &&& s.now_ms < s.watchdog_wake_ms <= clock_ms + s.window_ms
    &&& forall|i: int| 0 <= i < s.events.len() ==> (#[trigger] s.events[i]).at_ms <= s.now_ms
    &&& forall|i: int|
        0 <= i < s.events.len() ==> (#[trigger] s.events[i]).at_ms >= i * s.refractory_ms
    &&& spaced(s.events, s.refractory_ms)
    &&& s.events.len() > 0 ==> if s.phase == DebouncePhase::RefractorySleep {
        s.debounce_wake_ms == last + s.refractory_ms
    } else {
        last + s.refractory_ms <= clock_ms
    }
    &&& s.pending == heard(
        s.events,
        s.watchdog_wake_ms - s.window_ms,
        s.watchdog_wake_ms as int,
    )
    &&& times(s.absences) == silent_boundaries(
        s.events,
        s.window_ms,
        (s.watchdog_wake_ms - s.window_ms) as nat,
    )
}

proof fn lemma_heard_push(events: Seq<Published>, event: Published, from_ms: int, until_ms: int)
    ensures
        heard(events.push(event), from_ms, until_ms) == (heard(events, from_ms, until_ms) || (
        event.delivered && from_ms <= event.at_ms < until_ms)),
{
    let pushed = events.push(event);
    if heard(events, from_ms, until_ms) {
        let i = choose|i: int|
            0 <= i < events.len() && (#[trigger] events[i]).delivered && from_ms
                <= events[i].at_ms < until_ms;
        assert(pushed[i] == events[i]);
    }
    if event.delivered && from_ms <= event.at_ms < until_ms {
        assert(pushed[events.len() as int] == event);
    }
    if heard(pushed, from_ms, until_ms) {
        let i = choose|i: int|
            0 <= i < pushed.len() && (#[trigger] pushed[i]).delivered && from_ms
                <= pushed[i].at_ms < until_ms;
        if i < events.len() {
            assert(events[i] == pushed[i]);
        }
    }
}

/// An event at or after a boundary does not change which windows up to that
/// boundary were silent.
proof fn lemma_later_event(
    events: Seq<Published>,
    event: Published,
    window_ms: nat,
    boundary_ms: nat,
)
    requires
        event.at_ms >= boundary_ms,
    ensures
        silent_boundaries(events.push(event), window_ms, boundary_ms) == silent_boundaries(
            events,
            window_ms,
            boundary_ms,
        ),
    decreases boundary_ms,
{
    if window_ms == 0 || boundary_ms < window_ms {
    } else {
        lemma_later_event(events, event, window_ms, (boundary_ms - window_ms) as nat);
        lemma_heard_push(events, event, boundary_ms - window_ms, boundary_ms as int);
    }
}

proof fn lemma_woken<T>(s: TimelineState<T>, at_ms: u64)
    requires
        kept(s, s.now_ms as int),
        s.now_ms <= at_ms,
    ensures
        kept(s.woken(at_ms), at_ms as int),
{
}

proof fn lemma_ticked<T>(s: TimelineState<T>, at_ms: u64)
    requires
        kept(s, at_ms as int),
        s.watchdog_wake_ms <= at_ms,
    ensures
        kept(s.ticked(), at_ms as int),
{
    let t = s.ticked();
    assert(!heard(t.events, t.watchdog_wake_ms - t.window_ms, t.watchdog_wake_ms as int));
    assert(times(t.absences) == silent_boundaries(t.events, t.window_ms, s.watchdog_wake_ms)) by {
        if !s.pending {
            assert(t.absences == s.absences.push(
                Published { at_ms: s.watchdog_wake_ms as u64, delivered: s.publisher_healthy },
            ));
            assert(times(t.absences) == times(s.absences).push(s.watchdog_wake_ms));
        }
    }
}

proof fn lemma_watched<T>(s: TimelineState<T>, at_ms: u64)
    requires
        kept(s, at_ms as int),
    ensures
        kept(s.watched(at_ms), at_ms as int),
        s.watched(at_ms).watchdog_wake_ms > at_ms,
        s.watched(at_ms).now_ms == s.now_ms,
    decreases s.overdue(at_ms),
{
    if s.watchdog_wake_ms <= at_ms {
        lemma_ticked(s, at_ms);
        lemma_watched(s.ticked(), at_ms);
    }
}

proof fn lemma_advanced<T>(s: TimelineState<T>, at_ms: u64)
    requires
        kept(s, s.now_ms as int),
        s.now_ms <= at_ms,
    ensures
        kept(s.advanced(at_ms), at_ms as int),
        s.advanced(at_ms).now_ms == at_ms,
        s.advanced(at_ms).window_ms == s.window_ms,
        s.advanced(at_ms).refractory_ms == s.refractory_ms,
{
    lemma_woken(s, at_ms);
    lemma_watched(s.woken(at_ms), at_ms);
    lemma_watched_keeps_periods(s.woken(at_ms), at_ms);
}

proof fn lemma_offered<T>(s: TimelineState<T>, sample: T)
    requires
        kept(s, s.now_ms as int),
    ensures
        kept(s.offered(sample), s.now_ms as int),
        s.offered(sample).now_ms == s.now_ms,
{
    if s.phase == DebouncePhase::AwaitingSample {
        let event = Published { at_ms: s.now_ms, delivered: s.publisher_healthy };
        let o = s.offered(sample);
        let n = s.events.len() as int;
        assert(o.events == s.events.push(event));
        assert forall|i: int| 0 <= i < o.events.len() implies (#[trigger] o.events[i]).at_ms
            >= i * o.refractory_ms by {
            if i == n && n > 0 {
                assert(s.events[n - 1].at_ms >= (n - 1) * s.refractory_ms);
                assert((n - 1) * s.refractory_ms + s.refractory_ms == n * s.refractory_ms)
                    by (nonlinear_arith);
            } else if i == n {
                assert(i * o.refractory_ms == 0) by (nonlinear_arith)
                    requires
                        i == 0,
                ;
            } else {
                assert(o.events[i] == s.events[i]);
            }
        }
        assert forall|i: int, j: int| 0 <= i && j == i + 1 && j < o.events.len() implies (
        #[trigger] o.events[j]).at_ms >= (#[trigger] o.events[i]).at_ms + o.refractory_ms by {
            if j < n {
                assert(o.events[j] == s.events[j]);
            }
            assert(o.events[i] == s.events[i]);
        }
        lemma_heard_push(
            s.events,
            event,
            s.watchdog_wake_ms - s.window_ms,
            s.watchdog_wake_ms as int,
        );
        lemma_later_event(
            s.events,
            event,
            s.window_ms,
            (s.watchdog_wake_ms - s.window_ms) as nat,
        );
    }
}

proof fn lemma_replayed<T>(start: TimelineState<T>, arrivals: Seq<Arrival<T>>)
    requires
        start.fresh(),
        in_order(arrivals),
    ensures
        kept(replayed(start, arrivals), replayed(start, arrivals).now_ms as int),
        replayed(start, arrivals).refractory_ms == start.refractory_ms,
        replayed(start, arrivals).window_ms == start.window_ms,
        replayed(start, arrivals).now_ms == (if arrivals.len() == 0 {
            0
        } else {
            arrivals.last().at_ms
        }),
    decreases arrivals.len(),
{
    if arrivals.len() == 0 {
        assert(times(start.absences) =~= Seq::<nat>::empty());
    } else {
        let earlier = arrivals.drop_last();
        let last = arrivals.last();
        assert forall|i: int, j: int| 0 <= i <= j < earlier.len() implies (
        #[trigger] earlier[i]).at_ms <= (#[trigger] earlier[j]).at_ms by {
            assert(earlier[i] == arrivals[i] && earlier[j] == arrivals[j]);
        }
        lemma_replayed(start, earlier);
        if earlier.len() > 0 {
            assert(earlier.last() == arrivals[arrivals.len() - 2]);
        }
        let before = TimelineState {
            publisher_healthy: last.publisher_healthy,
            ..replayed(start, earlier)
        };
        lemma_advanced(before, last.at_ms);
        lemma_offered(before.advanced(last.at_ms), last.sample);
    }
}

/// However the samples arrive, two event notifications in a row lie at least
/// a refractory period apart, and a stream that starts with the pipeline and
/// is over before `duration_ms` has passed causes at most
/// `duration_ms / refractory_ms`, rounded up, of them - whether the publisher
/// accepts them or not.
pub proof fn law_event_rate<T>(
    start: TimelineState<T>,
    arrivals: Seq<Arrival<T>>,
    duration_ms: nat,
)
    requires
        start.fresh(),
        start.refractory_ms > 0,
        in_order(arrivals),
        forall|i: int| 0 <= i < arrivals.len() ==> (#[trigger] arrivals[i]).at_ms < duration_ms,
    ensures
        replayed(start, arrivals).events.len() <= ceiling(duration_ms, start.refractory_ms),
        spaced(replayed(start, arrivals).events, start.refractory_ms),
{
    lemma_replayed(start, arrivals);
    let end = replayed(start, arrivals);
    let n = end.events.len() as int;
    let r = start.refractory_ms as int;
    let d = duration_ms as int;
    if n > 0 {
        assert(end.events[n - 1].at_ms >= (n - 1) * r);
        assert(end.events[n - 1].at_ms <= end.now_ms);
        assert(arrivals.len() > 0);
        assert(arrivals[arrivals.len() - 1].at_ms < d);
        assert(n <= (d + r - 1) / r) by (nonlinear_arith)
            requires
                (n - 1) * r < d,
                r > 0,
        ;
    }
}

/// After any run, the absence notifications are exactly the window
/// boundaries whose window heard no delivered event notification, one for
/// each; every boundary up to the clock has been judged; and the notify slot
/// holds a signal exactly if the window that is still open has heard one.
pub proof fn law_absence_per_window<T>(
    start: TimelineState<T>,
    arrivals: Seq<Arrival<T>>,
    until_ms: u64,
)
    requires
        start.fresh(),
        in_order(arrivals),
        arrivals.len() > 0 ==> arrivals.last().at_ms <= until_ms,
    ensures
        ({
            let end = replayed(start, arrivals).advanced(until_ms);
            let open_since = end.watchdog_wake_ms - end.window_ms;
            &&& end.window_ms == start.window_ms
            &&& 0 <= open_since <= until_ms < end.watchdog_wake_ms
            &&& times(end.absences) == silent_boundaries(
                end.events,
                end.window_ms,
                open_since as nat,
            )
            &&& end.pending == heard(end.events, open_since, end.watchdog_wake_ms as int)
        }),
{
    lemma_replayed(start, arrivals);
    lemma_advanced(replayed(start, arrivals), until_ms);
}

proof fn lemma_watched_keeps_periods<T>(s: TimelineState<T>, at_ms: u64)
    ensures
        s.watched(at_ms).window_ms == s.window_ms,
        s.watched(at_ms).refractory_ms == s.refractory_ms,
    decreases s.overdue(at_ms),
{
    if s.window_ms > 0 && s.watchdog_wake_ms <= at_ms {
        lemma_watched_keeps_periods(s.ticked(), at_ms);
    }
}

} // verus!
