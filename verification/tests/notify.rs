use barky::notify::{NotifySlot, SignalCheck};

#[test]
fn new_slot_reports_absence() {
    let mut slot = NotifySlot::new();
    assert_eq!(slot.check(), SignalCheck::Absent);
}

#[test]
fn one_offer_is_observed_once() {
    let mut slot = NotifySlot::new();
    assert!(slot.offer());
    assert_eq!(slot.check(), SignalCheck::Present);
    assert_eq!(slot.check(), SignalCheck::Absent);
}

#[test]
fn many_offers_collapse_to_one_observation() {
    let mut slot = NotifySlot::new();
    assert!(slot.offer());
    assert!(!slot.offer());
    assert!(!slot.offer());
    assert_eq!(slot.check(), SignalCheck::Present);
    assert_eq!(slot.check(), SignalCheck::Absent);
    assert!(slot.offer());
    assert_eq!(slot.check(), SignalCheck::Present);
}

#[test]
fn closed_slot_reports_closed() {
    let mut slot = NotifySlot::new();
    slot.close();
    assert_eq!(slot.check(), SignalCheck::Closed);
    assert_eq!(slot.check(), SignalCheck::Closed);
}

#[test]
fn pending_signal_survives_the_close() {
    let mut slot = NotifySlot::new();
    assert!(slot.offer());
    slot.close();
    assert_eq!(slot.check(), SignalCheck::Present);
    assert_eq!(slot.check(), SignalCheck::Closed);
}

#[test]
fn offer_to_closed_slot_is_dropped() {
    let mut slot = NotifySlot::new();
    slot.close();
    assert!(!slot.offer());
    assert_eq!(slot.check(), SignalCheck::Closed);
}
