use dewy::comms::{PumpSignal, UploadQueue};

#[test]
fn fresh_signal_is_empty() {
    let mut s = PumpSignal::new();
    assert_eq!(s.take(), None);
}

#[test]
fn take_drains_the_slot() {
    let mut s = PumpSignal::new();
    s.write(5);
    assert_eq!(s.take(), Some(5));
    assert_eq!(s.take(), None);
}

#[test]
fn second_write_overwrites_first() {
    // Writing a then b before any read yields exactly one observed
    // value: b.
    let mut s = PumpSignal::new();
    s.write(3);
    s.write(7);
    assert_eq!(s.take(), Some(7));
    assert_eq!(s.take(), None);
}

#[test]
fn queue_is_fifo() {
    let mut q = UploadQueue::new();
    assert_eq!(q.try_receive(), None);
    assert!(q.try_send((1, 10)));
    assert!(q.try_send((2, 20)));
    assert!(q.try_send((3, 30)));
    assert_eq!(q.len(), 3);
    assert_eq!(q.try_receive(), Some((1, 10)));
    assert_eq!(q.try_receive(), Some((2, 20)));
    assert_eq!(q.try_receive(), Some((3, 30)));
    assert_eq!(q.try_receive(), None);
}

#[test]
fn full_queue_rejects_without_losing_items() {
    let mut q = UploadQueue::new();
    for i in 0..64u64 {
        assert!(q.try_send((i, i)));
    }
    assert_eq!(q.len(), 64);
    assert!(!q.try_send((99, 99)));
    assert_eq!(q.len(), 64);
    // Draining yields the original items in order; the rejected one
    // never entered.
    for i in 0..64u64 {
        assert_eq!(q.try_receive(), Some((i, i)));
    }
    assert_eq!(q.try_receive(), None);
}

#[test]
fn slot_freed_by_receive_accepts_again() {
    let mut q = UploadQueue::new();
    for i in 0..64u64 {
        q.try_send((i, i));
    }
    assert_eq!(q.try_receive(), Some((0, 0)));
    assert!(q.try_send((64, 64)));
    assert_eq!(q.len(), 64);
}
