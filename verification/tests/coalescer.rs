use barky::coalescer::EventCoalescer;

#[test]
fn new_coalescer_is_empty() {
    let mut coalescer: EventCoalescer<f32> = EventCoalescer::new();
    assert!(!coalescer.is_occupied());
    assert_eq!(coalescer.take(), None);
}

#[test]
fn offer_to_empty_slot_is_accepted() {
    let mut coalescer = EventCoalescer::new();
    assert!(coalescer.offer(0.75f32));
    assert!(coalescer.is_occupied());
    assert_eq!(coalescer.take(), Some(0.75));
}

#[test]
fn offer_to_occupied_slot_is_discarded() {
    let mut coalescer = EventCoalescer::new();
    assert!(coalescer.offer(0.25f32));
    assert!(!coalescer.offer(0.5));
    assert!(!coalescer.offer(0.9));
    assert_eq!(coalescer.take(), Some(0.25));
    assert_eq!(coalescer.take(), None);
}

#[test]
fn take_frees_the_slot() {
    let mut coalescer = EventCoalescer::new();
    assert!(coalescer.offer(1u32));
    assert_eq!(coalescer.take(), Some(1));
    assert!(!coalescer.is_occupied());
    assert!(coalescer.offer(2));
    assert_eq!(coalescer.take(), Some(2));
}

#[test]
fn slot_never_holds_more_than_one_sample() {
    let mut coalescer = EventCoalescer::new();
    let mut accepted = 0;
    for sample in 0..1000u32 {
        if coalescer.offer(sample) {
            accepted += 1;
        }
    }
    assert_eq!(accepted, 1);
    assert_eq!(coalescer.take(), Some(0));
    assert_eq!(coalescer.take(), None);
}
