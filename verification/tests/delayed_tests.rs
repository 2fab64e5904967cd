use tickwork::delayed::{DelayedEvent, DelayedEvents};

#[test]
fn delivers_exactly_once_when_total_reaches_delay() {
    let mut queue: DelayedEvents<&str> = DelayedEvents::new();
    queue.enqueue("payload", 500);
    assert_eq!(queue.resolve(200), Vec::<&str>::new());
    assert_eq!(queue.len(), 1);
    assert_eq!(queue.resolve(300), vec!["payload"]);
    assert_eq!(queue.len(), 0);
    assert_eq!(queue.resolve(1000), Vec::<&str>::new());
}

#[test]
fn delivery_is_schedule_independent() {
    let schedules: [&[u64]; 3] = [&[500], &[100, 100, 100, 100, 100], &[499, 1]];
    for deltas in schedules {
        let mut queue: DelayedEvents<u32> = DelayedEvents::new();
        queue.enqueue(7, 500);
        let mut delivered = Vec::new();
        for &d in deltas {
            delivered.extend(queue.resolve(d));
        }
        assert_eq!(delivered, vec![7]);
        assert_eq!(queue.len(), 0);
    }
}

#[test]
fn never_delivers_before_the_delay() {
    let mut queue: DelayedEvents<u32> = DelayedEvents::new();
    queue.enqueue(9, 1000);
    for &d in &[100u64, 200, 300, 399] {
        assert_eq!(queue.resolve(d), Vec::<u32>::new());
    }
    assert_eq!(queue.len(), 1);
    assert_eq!(queue.resolve(1), vec![9]);
}

#[test]
fn entries_resolve_independently() {
    let mut queue: DelayedEvents<u32> = DelayedEvents::new();
    queue.enqueue(1, 100);
    queue.enqueue(2, 300);
    assert_eq!(queue.resolve(100), vec![1]);
    assert_eq!(queue.len(), 1);
    assert_eq!(queue.resolve(200), vec![2]);
    assert_eq!(queue.len(), 0);
}

#[test]
fn zero_delay_delivers_on_first_resolution_pass() {
    let mut queue: DelayedEvents<&str> = DelayedEvents::new();
    queue.enqueue("now", 0);
    assert_eq!(queue.resolve(0), vec!["now"]);
    assert_eq!(queue.len(), 0);
}

#[test]
fn an_extreme_delay_still_delivers_exactly_once() {
    let mut queue: DelayedEvents<u8> = DelayedEvents::new();
    queue.enqueue(1, u64::MAX);
    assert_eq!(queue.resolve(u64::MAX - 1), Vec::<u8>::new());
    assert_eq!(queue.resolve(1), vec![1]);
    assert_eq!(queue.len(), 0);
}

#[test]
fn caught_entries_behave_like_enqueued_ones() {
    let mut queue: DelayedEvents<u8> = DelayedEvents::new();
    let entry = DelayedEvent::new(5, 250);
    queue.push_entry(entry);
    assert_eq!(queue.resolve(249), Vec::<u8>::new());
    assert_eq!(queue.resolve(1), vec![5]);
}

#[test]
fn simultaneous_expiries_deliver_in_queue_order() {
    let mut queue: DelayedEvents<u32> = DelayedEvents::new();
    queue.enqueue(1, 100);
    queue.enqueue(2, 50);
    queue.enqueue(3, 100);
    assert_eq!(queue.resolve(100), vec![1, 2, 3]);
    assert_eq!(queue.len(), 0);
}
