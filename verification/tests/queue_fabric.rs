use recorder_core::queue::{BoundedQueue, TryRecvResult, TrySendError};

#[test]
fn test_queue_bound_under_fast_producer() {
    // A producer emitting faster than consumption: the length never exceeds
    // the capacity and the producer observes Full.
    let mut q: BoundedQueue<u32> = BoundedQueue::new(4);
    let mut saw_full = false;
    for i in 0..50u32 {
        match q.try_send(i) {
            Ok(()) => {}
            Err(TrySendError::Full(item)) => {
                saw_full = true;
                assert_eq!(item, i); // the item comes back to the caller
            }
            Err(TrySendError::Disconnected(_)) => panic!("queue is not closed"),
        }
        assert!(q.len() <= q.capacity());
        // Consume one item every fourth tick: slower than production.
        if i % 4 == 0 {
            q.try_recv();
        }
    }
    assert!(saw_full);
    assert_eq!(q.capacity(), 4);
}

#[test]
fn test_queue_fifo_order() {
    let mut q: BoundedQueue<u32> = BoundedQueue::new(8);
    for i in 0..5u32 {
        assert!(q.try_send(i).is_ok());
    }
    for i in 0..5u32 {
        match q.try_recv() {
            TryRecvResult::Item(v) => assert_eq!(v, i),
            _ => panic!("expected an item"),
        }
    }
    assert!(matches!(q.try_recv(), TryRecvResult::Empty));
}

#[test]
fn test_queue_close_then_drain() {
    let mut q: BoundedQueue<u32> = BoundedQueue::new(8);
    assert!(q.try_send(10).is_ok());
    assert!(q.try_send(11).is_ok());
    q.close();
    // A closed queue refuses new items and hands them back.
    assert!(matches!(q.try_send(12), Err(TrySendError::Disconnected(12))));
    // The consumer still drains what is queued, then observes Disconnected.
    assert!(matches!(q.try_recv(), TryRecvResult::Item(10)));
    assert!(matches!(q.try_recv(), TryRecvResult::Item(11)));
    assert!(matches!(q.try_recv(), TryRecvResult::Disconnected));
}

#[test]
fn test_queue_full_hands_item_back_unchanged() {
    let mut q: BoundedQueue<String> = BoundedQueue::new(1);
    assert!(q.try_send(String::from("a")).is_ok());
    match q.try_send(String::from("b")) {
        Err(TrySendError::Full(item)) => assert_eq!(item, "b"),
        _ => panic!("expected Full"),
    }
    assert_eq!(q.len(), 1);
}
