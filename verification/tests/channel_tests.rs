use discovery_utils::channels::BoundedQueue;
use discovery_utils::channels::SignalSlot;
use discovery_utils::endpoint::DISCOVERED_DEVICES_CHANNEL_CAPACITY;
use discovery_utils::endpoint::REGISTER_AGAIN_CHANNEL_CAPACITY;

#[test]
fn a_fresh_signal_slot_holds_no_signal() {
    let mut slot = SignalSlot::new();
    assert!(!slot.take());
}

#[test]
fn a_raised_signal_is_taken_once() {
    let mut slot = SignalSlot::new();
    slot.raise();
    assert!(slot.take());
    assert!(!slot.take());
}

#[test]
fn two_quick_signals_coalesce_into_one_attempt() {
    let mut slot = SignalSlot::new();
    slot.raise();
    slot.raise();
    let mut attempts = 0;
    while slot.take() {
        attempts += 1;
    }
    assert_eq!(attempts, 1);
}

#[test]
fn the_update_queue_is_fifo() {
    let mut queue: BoundedQueue<u32> = BoundedQueue::new(DISCOVERED_DEVICES_CHANNEL_CAPACITY);
    assert!(queue.try_send(1).is_ok());
    assert!(queue.try_send(2).is_ok());
    assert!(queue.try_send(3).is_ok());
    assert_eq!(queue.recv(), Some(1));
    assert_eq!(queue.recv(), Some(2));
    assert_eq!(queue.recv(), Some(3));
    assert_eq!(queue.recv(), None);
}

#[test]
fn a_full_update_queue_refuses_the_fifth_send() {
    let mut queue: BoundedQueue<u32> = BoundedQueue::new(DISCOVERED_DEVICES_CHANNEL_CAPACITY);
    assert!(queue.try_send(10).is_ok());
    assert!(queue.try_send(11).is_ok());
    assert!(queue.try_send(12).is_ok());
    assert!(queue.try_send(13).is_ok());
    assert_eq!(queue.try_send(14), Err(14));
    assert_eq!(queue.len(), 4);
    assert_eq!(queue.recv(), Some(10));
    assert!(queue.try_send(14).is_ok());
}

#[test]
fn the_real_signal_channel_coalesces_like_the_model() {
    let (sender, mut receiver) = tokio::sync::mpsc::channel::<()>(REGISTER_AGAIN_CHANNEL_CAPACITY);
    assert!(sender.try_send(()).is_ok());
    assert!(sender.try_send(()).is_err());
    let mut attempts = 0;
    while receiver.try_recv().is_ok() {
        attempts += 1;
    }
    assert_eq!(attempts, 1);
}
