use barky::debounce::DebouncePhase;
use barky::timeline::{Arrival, Delivery, Published, Timeline, TimelineError};

fn event(at_ms: u64) -> Published {
    Published { at_ms, delivered: true }
}

fn pipeline(refractory_seconds: u64, window_seconds: u64) -> Timeline<f32> {
    match Timeline::new(refractory_seconds, window_seconds) {
        Ok(timeline) => timeline,
        Err(error) => panic!("refused: {:?}", error),
    }
}

#[test]
fn zero_window_is_refused() {
    assert_eq!(Timeline::<f32>::new(1, 0).err(), Some(TimelineError::ZeroWindow));
}

#[test]
fn fresh_timeline_is_idle() {
    let timeline = pipeline(1, 300);
    assert_eq!(timeline.now_ms(), 0);
    assert_eq!(timeline.phase(), DebouncePhase::AwaitingSample);
    assert!(!timeline.holds_sample());
    assert!(timeline.events().is_empty());
    assert!(timeline.absences().is_empty());
}

#[test]
fn burst_within_refractory_period_gives_one_event() {
    let mut timeline = pipeline(1, 300);
    assert_eq!(timeline.deliver(0, 0.9), Ok(Delivery::Published));
    assert_eq!(timeline.deliver(300, 0.8), Ok(Delivery::Held));
    assert_eq!(timeline.deliver(900, 0.7), Ok(Delivery::Dropped));
    assert_eq!(timeline.events(), &vec![event(0)]);
    assert!(timeline.absences().is_empty());
    assert!(timeline.holds_sample());
    assert_eq!(timeline.phase(), DebouncePhase::RefractorySleep);

    assert_eq!(timeline.advance_to(1000), Ok(()));
    assert!(!timeline.holds_sample());
    assert_eq!(timeline.phase(), DebouncePhase::AwaitingSample);
    assert_eq!(timeline.events(), &vec![event(0)]);
}

#[test]
fn silent_window_gives_one_absence() {
    let mut timeline = pipeline(1, 300);
    assert_eq!(timeline.advance_to(299_999), Ok(()));
    assert!(timeline.absences().is_empty());
    assert_eq!(timeline.advance_to(300_000), Ok(()));
    assert_eq!(timeline.absences(), &vec![event(300_000)]);
    assert_eq!(timeline.advance_to(300_001), Ok(()));
    assert_eq!(timeline.absences(), &vec![event(300_000)]);
    assert!(timeline.events().is_empty());
}

#[test]
fn late_sample_suppresses_the_absence() {
    let mut timeline = pipeline(1, 300);
    assert_eq!(timeline.deliver(299_000, 0.6), Ok(Delivery::Published));
    assert_eq!(timeline.advance_to(300_000), Ok(()));
    assert!(timeline.absences().is_empty());
    assert_eq!(timeline.events(), &vec![event(299_000)]);

    // The signal was consumed at the boundary: the next window is silent.
    assert_eq!(timeline.advance_to(600_000), Ok(()));
    assert_eq!(timeline.absences(), &vec![event(600_000)]);
}

#[test]
fn failing_publisher_stops_neither_worker() {
    let mut timeline = pipeline(1, 10);
    timeline.set_publisher(false);
    assert_eq!(timeline.deliver(0, 0.9), Ok(Delivery::Published));
    assert_eq!(timeline.deliver(500, 0.9), Ok(Delivery::Held));
    assert_eq!(timeline.deliver(1500, 0.9), Ok(Delivery::Published));
    assert_eq!(timeline.deliver(2500, 0.9), Ok(Delivery::Drained));
    assert_eq!(timeline.deliver(2600, 0.9), Ok(Delivery::Published));
    assert_eq!(timeline.advance_to(30_000), Ok(()));
    let failed = |at_ms| Published { at_ms, delivered: false };
    assert_eq!(timeline.events(), &vec![failed(0), failed(1500), failed(2600)]);
    // No event was delivered, so no window was signalled.
    assert_eq!(timeline.absences(), &vec![failed(10_000), failed(20_000), failed(30_000)]);
    assert_eq!(timeline.phase(), DebouncePhase::Draining);
}

#[test]
fn publisher_that_recovers_is_used_again() {
    let mut timeline = pipeline(1, 10);
    timeline.set_publisher(false);
    assert_eq!(timeline.deliver(0, 0.9), Ok(Delivery::Published));
    timeline.set_publisher(true);
    assert_eq!(timeline.advance_to(10_000), Ok(()));
    assert_eq!(timeline.deliver(12_000, 0.9), Ok(Delivery::Drained));
    assert_eq!(timeline.deliver(12_001, 0.9), Ok(Delivery::Published));
    assert_eq!(timeline.advance_to(20_000), Ok(()));
    assert_eq!(
        timeline.events(),
        &vec![Published { at_ms: 0, delivered: false }, event(12_001)]
    );
    assert_eq!(timeline.absences(), &vec![event(10_000)]);
}

#[test]
fn timer_fires_before_a_sample_of_the_same_instant() {
    let mut timeline = pipeline(1, 300);
    assert_eq!(timeline.deliver(0, 0.9), Ok(Delivery::Published));
    // The rest ends at 1000; nothing waits, so the sample of that instant
    // is the one that is drained.
    assert_eq!(timeline.deliver(1000, 0.9), Ok(Delivery::Drained));
    assert_eq!(timeline.deliver(1000, 0.9), Ok(Delivery::Published));
    assert_eq!(timeline.events(), &vec![event(0), event(1000)]);
}

#[test]
fn sample_just_before_the_rest_ends_is_held() {
    let mut timeline = pipeline(2, 300);
    assert_eq!(timeline.deliver(100, 0.9), Ok(Delivery::Published));
    assert_eq!(timeline.deliver(2099, 0.9), Ok(Delivery::Held));
    assert_eq!(timeline.deliver(2100, 0.9), Ok(Delivery::Published));
    assert_eq!(timeline.events(), &vec![event(100), event(2100)]);
}

#[test]
fn steady_stream_is_limited_to_one_event_per_period() {
    let mut timeline = pipeline(1, 300);
    let mut at_ms = 0;
    while at_ms < 5000 {
        assert!(timeline.deliver(at_ms, 0.9).is_ok());
        at_ms += 100;
    }
    assert_eq!(
        timeline.events(),
        &vec![event(0), event(1000), event(2000), event(3000), event(4000)]
    );
}

#[test]
fn event_count_stays_under_the_rounded_up_quotient() {
    for (refractory_seconds, step_ms, duration_ms) in
        [(1u64, 70u64, 4500u64), (2, 999, 10_001), (3, 1, 2000), (1, 1500, 9000)]
    {
        let mut timeline = pipeline(refractory_seconds, 300);
        let mut at_ms = 0;
        while at_ms < duration_ms {
            assert!(timeline.deliver(at_ms, 0.9).is_ok());
            at_ms += step_ms;
        }
        let refractory_ms = refractory_seconds * 1000;
        let bound = (duration_ms + refractory_ms - 1) / refractory_ms;
        let events = timeline.events();
        assert!(events.len() as u64 <= bound);
        for pair in events.windows(2) {
            assert!(pair[1].at_ms >= pair[0].at_ms + refractory_ms);
        }
    }
}

#[test]
fn absences_mark_exactly_the_silent_windows() {
    let mut timeline = pipeline(1, 10);
    assert_eq!(timeline.deliver(3000, 0.9), Ok(Delivery::Published));
    assert_eq!(timeline.advance_to(35_000), Ok(()));
    assert_eq!(timeline.absences(), &vec![event(20_000), event(30_000)]);
    // A sample at the boundary belongs to the window that opens there.
    assert_eq!(timeline.deliver(40_000, 0.9), Ok(Delivery::Drained));
    assert_eq!(timeline.deliver(40_000, 0.9), Ok(Delivery::Published));
    assert_eq!(timeline.advance_to(60_000), Ok(()));
    assert_eq!(
        timeline.absences(),
        &vec![event(20_000), event(30_000), event(40_000), event(60_000)]
    );
}

#[test]
fn several_events_in_one_window_are_counted_once() {
    let mut timeline = pipeline(1, 10);
    assert_eq!(timeline.deliver(0, 0.9), Ok(Delivery::Published));
    assert_eq!(timeline.deliver(1000, 0.9), Ok(Delivery::Drained));
    assert_eq!(timeline.deliver(1001, 0.9), Ok(Delivery::Published));
    assert_eq!(timeline.deliver(2001, 0.9), Ok(Delivery::Drained));
    assert_eq!(timeline.deliver(2002, 0.9), Ok(Delivery::Published));
    assert_eq!(timeline.advance_to(20_000), Ok(()));
    assert_eq!(timeline.events().len(), 3);
    assert_eq!(timeline.absences(), &vec![event(20_000)]);
}

#[test]
fn time_does_not_go_back() {
    let mut timeline = pipeline(1, 300);
    assert_eq!(timeline.deliver(500, 0.9), Ok(Delivery::Published));
    assert_eq!(timeline.deliver(499, 0.9), Err(TimelineError::TimeWentBack));
    assert_eq!(timeline.advance_to(0), Err(TimelineError::TimeWentBack));
    assert_eq!(timeline.now_ms(), 500);
    assert_eq!(timeline.events(), &vec![event(500)]);
    assert!(!timeline.holds_sample());
    assert_eq!(timeline.advance_to(500), Ok(()));
}

#[test]
fn clock_near_the_end_of_its_range() {
    let mut timeline = pipeline(u64::MAX, u64::MAX);
    assert_eq!(timeline.deliver(u64::MAX - 1, 0.9), Ok(Delivery::Published));
    assert_eq!(timeline.deliver(u64::MAX, 0.9), Ok(Delivery::Held));
    assert_eq!(timeline.events(), &vec![event(u64::MAX - 1)]);
    assert!(timeline.absences().is_empty());
}

#[test]
fn replay_delivers_in_order() {
    let arrival = |at_ms, publisher_healthy| Arrival { at_ms, sample: 0.9f32, publisher_healthy };
    let mut replayed = pipeline(1, 5);
    let arrivals = vec![arrival(0, true), arrival(300, true), arrival(900, true), arrival(7000, false)];
    assert_eq!(replayed.replay(&arrivals), Ok(()));

    let mut stepped = pipeline(1, 5);
    assert_eq!(stepped.deliver(0, 0.9), Ok(Delivery::Published));
    assert_eq!(stepped.deliver(300, 0.9), Ok(Delivery::Held));
    assert_eq!(stepped.deliver(900, 0.9), Ok(Delivery::Dropped));
    stepped.set_publisher(false);
    assert_eq!(stepped.deliver(7000, 0.9), Ok(Delivery::Published));

    assert_eq!(replayed.events(), stepped.events());
    assert_eq!(replayed.absences(), stepped.absences());
    assert_eq!(replayed.now_ms(), 7000);
    assert_eq!(
        replayed.events(),
        &vec![event(0), Published { at_ms: 7000, delivered: false }]
    );
    assert!(replayed.absences().is_empty());
}

#[test]
fn replay_refuses_arrivals_out_of_order() {
    let arrival = |at_ms| Arrival { at_ms, sample: 0.9f32, publisher_healthy: true };
    let mut timeline = pipeline(1, 5);
    assert_eq!(
        timeline.replay(&vec![arrival(0), arrival(900), arrival(300)]),
        Err(TimelineError::TimeWentBack)
    );
    assert!(timeline.events().is_empty());
    assert_eq!(timeline.now_ms(), 0);

    assert_eq!(timeline.advance_to(100), Ok(()));
    assert_eq!(timeline.replay(&vec![arrival(99)]), Err(TimelineError::TimeWentBack));
    assert_eq!(timeline.replay(&vec![]), Ok(()));
    assert_eq!(timeline.replay(&vec![arrival(100)]), Ok(()));
    assert_eq!(timeline.events(), &vec![event(100)]);
}
