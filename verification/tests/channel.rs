use eframe_channel::{
    bounded, EFrame, EIdHash, EntityValue, RecvError, SendError, TryRecvError, TrySendError,
};

/// A payload whose identity hash is its value mod 3.
fn ev(x: u64) -> EntityValue {
    EntityValue { value: x, id: Some(x % 3) }
}

/// A payload that opts out of deduplication.
fn untracked(x: u64) -> EntityValue {
    EntityValue { value: x, id: None }
}

/// A payload with an explicit identity.
fn keyed(x: u64, id: u64) -> EntityValue {
    EntityValue { value: x, id: Some(id) }
}

#[test]
fn frame_constructors() {
    let f = EFrame::new(keyed(3, 9));
    assert!(!f.is_initial());
    assert_eq!(f.data, keyed(3, 9));
    let g = EFrame::new_initial(keyed(3, 9));
    assert!(g.is_initial());
    assert_eq!(g.data, keyed(3, 9));
}

#[test]
fn entity_value_hash() {
    assert_eq!(keyed(3, 9).eid_hash(), Some(9));
    assert_eq!(untracked(3).eid_hash(), None);
}

#[test]
fn initial_dedup() {
    let (tx, mut rx) = bounded(8);
    tx.try_send_initial(keyed(1, 5)).unwrap();
    tx.try_send_initial(keyed(2, 5)).unwrap();
    assert_eq!(rx.try_recv(), Ok(keyed(1, 5)));
    assert_eq!(rx.try_recv(), Err(TryRecvError::Empty));
}

#[test]
fn non_initial_immunity() {
    let (tx, mut rx) = bounded(8);
    tx.try_send(keyed(1, 5)).unwrap();
    tx.try_send(keyed(2, 5)).unwrap();
    tx.try_send(keyed(3, 5)).unwrap();
    assert_eq!(rx.try_recv(), Ok(keyed(1, 5)));
    assert_eq!(rx.try_recv(), Ok(keyed(2, 5)));
    assert_eq!(rx.try_recv(), Ok(keyed(3, 5)));
}

#[test]
fn cross_priming() {
    let (tx, mut rx) = bounded(8);
    tx.try_send(keyed(1, 5)).unwrap();
    tx.try_send_initial(keyed(2, 5)).unwrap();
    assert_eq!(rx.try_recv(), Ok(keyed(1, 5)));
    assert_eq!(rx.try_recv(), Err(TryRecvError::Empty));
}

#[test]
fn reset_restores_delivery() {
    let (tx, mut rx) = bounded(8);
    tx.try_send_initial(keyed(1, 5)).unwrap();
    assert_eq!(rx.try_recv(), Ok(keyed(1, 5)));
    tx.try_send_initial(keyed(2, 5)).unwrap();
    assert_eq!(rx.try_recv(), Err(TryRecvError::Empty));
    rx.reset_processed();
    tx.try_send_initial(keyed(3, 5)).unwrap();
    assert_eq!(rx.try_recv(), Ok(keyed(3, 5)));
}

#[test]
fn untracked_bypass() {
    let (tx, mut rx) = bounded(8);
    tx.try_send_initial(untracked(1)).unwrap();
    tx.try_send_initial(untracked(1)).unwrap();
    tx.try_send(untracked(1)).unwrap();
    tx.try_send_initial(untracked(1)).unwrap();
    for _ in 0..4 {
        assert_eq!(rx.try_recv(), Ok(untracked(1)));
    }
    assert_eq!(rx.try_recv(), Err(TryRecvError::Empty));
}

#[test]
fn try_send_full_returns_value() {
    let (tx, _rx) = bounded(1);
    tx.try_send(keyed(1, 1)).unwrap();
    assert_eq!(tx.try_send(keyed(2, 2)), Err(TrySendError::Full(keyed(2, 2))));
    assert_eq!(
        tx.try_send_initial(keyed(3, 3)),
        Err(TrySendError::Full(keyed(3, 3)))
    );
}

#[test]
fn try_send_closed_returns_value() {
    let (tx, rx) = bounded(4);
    assert!(rx.close());
    assert_eq!(tx.try_send(keyed(1, 1)), Err(TrySendError::Closed(keyed(1, 1))));
    assert_eq!(
        tx.try_send_initial(keyed(2, 2)),
        Err(TrySendError::Closed(keyed(2, 2)))
    );
}

#[test]
fn send_blocking_closed_returns_value() {
    let (tx, rx) = bounded(4);
    assert!(tx.close());
    drop(rx);
    assert_eq!(tx.send_blocking(keyed(1, 1)), Err(SendError(keyed(1, 1))));
    assert_eq!(tx.send_initial_blocking(keyed(2, 2)), Err(SendError(keyed(2, 2))));
}

#[test]
fn send_blocking_delivers() {
    let (tx, mut rx) = bounded(4);
    tx.send_blocking(keyed(1, 1)).unwrap();
    tx.send_initial_blocking(keyed(2, 2)).unwrap();
    assert_eq!(rx.recv_blocking(), Ok(keyed(1, 1)));
    assert_eq!(rx.recv_blocking(), Ok(keyed(2, 2)));
}

#[test]
fn drain_through_duplicates() {
    let (tx, mut rx) = bounded(8);
    tx.try_send_initial(keyed(1, 5)).unwrap();
    assert_eq!(rx.try_recv(), Ok(keyed(1, 5)));
    tx.try_send_initial(keyed(2, 5)).unwrap();
    tx.try_send_initial(keyed(3, 5)).unwrap();
    assert_eq!(rx.len(), 2);
    assert_eq!(rx.try_recv(), Err(TryRecvError::Empty));
    assert_eq!(rx.len(), 0);
}

#[test]
fn recv_blocking_skips_duplicates_in_one_call() {
    let (tx, mut rx) = bounded(8);
    tx.try_send_initial(keyed(1, 5)).unwrap();
    tx.try_send_initial(keyed(2, 5)).unwrap();
    tx.try_send(keyed(3, 7)).unwrap();
    assert_eq!(rx.recv_blocking(), Ok(keyed(1, 5)));
    assert_eq!(rx.recv_blocking(), Ok(keyed(3, 7)));
}

#[test]
fn recv_blocking_drains_closed_queue_then_fails() {
    let (tx, mut rx) = bounded(4);
    tx.try_send(keyed(1, 1)).unwrap();
    assert!(tx.close());
    assert_eq!(rx.recv_blocking(), Ok(keyed(1, 1)));
    assert_eq!(rx.recv_blocking(), Err(RecvError));
}

#[test]
fn try_recv_empty_then_closed() {
    let (tx, mut rx) = bounded::<EntityValue>(4);
    assert_eq!(rx.try_recv(), Err(TryRecvError::Empty));
    assert!(tx.close());
    assert_eq!(rx.try_recv(), Err(TryRecvError::Closed));
}

#[test]
fn try_recv_sees_later_traffic() {
    let (tx, mut rx) = bounded(4);
    assert_eq!(rx.try_recv(), Err(TryRecvError::Empty));
    tx.try_send(keyed(1, 1)).unwrap();
    assert_eq!(rx.try_recv(), Ok(keyed(1, 1)));
}

#[test]
fn scenario_capacity_two_mod_three() {
    let (tx, mut rx) = bounded(2);
    tx.try_send_initial(ev(1)).unwrap();
    tx.try_send_initial(ev(4)).unwrap();
    assert_eq!(rx.recv_blocking(), Ok(ev(1)));
    // The frame for 4 shares hash 1 and is silently dropped, so nothing
    // is deliverable until more is sent.
    assert_eq!(rx.try_recv(), Err(TryRecvError::Empty));
    tx.try_send(ev(7)).unwrap();
    assert_eq!(rx.recv_blocking(), Ok(ev(7)));
    tx.try_send_initial(ev(10)).unwrap();
    assert_eq!(rx.try_recv(), Err(TryRecvError::Empty));
}

#[test]
fn introspection_passthrough() {
    let (tx, rx) = bounded::<EntityValue>(3);
    assert_eq!(tx.capacity(), Some(3));
    assert_eq!(rx.capacity(), Some(3));
    assert!(tx.is_empty() && rx.is_empty());
    assert_eq!(tx.len(), 0);
    tx.try_send(keyed(1, 1)).unwrap();
    assert_eq!(tx.len(), 1);
    assert_eq!(rx.len(), 1);
    assert!(!tx.is_empty());
    assert!(!tx.is_full());
    tx.try_send(keyed(2, 2)).unwrap();
    tx.try_send(keyed(3, 3)).unwrap();
    assert!(tx.is_full() && rx.is_full());
    assert_eq!(tx.sender_count(), 1);
    assert_eq!(tx.receiver_count(), 1);
    assert_eq!(rx.sender_count(), 1);
    assert_eq!(rx.receiver_count(), 1);
    assert!(!tx.is_closed() && !rx.is_closed());
    assert!(tx.close());
    assert!(!tx.close());
    assert!(tx.is_closed() && rx.is_closed());
}

#[test]
fn cloned_sender_shares_queue() {
    let (tx, mut rx) = bounded(4);
    let tx2 = tx.clone();
    assert_eq!(tx.sender_count(), 2);
    tx2.try_send(keyed(1, 1)).unwrap();
    assert_eq!(rx.try_recv(), Ok(keyed(1, 1)));
    // Dedup memory is shared across producers' traffic: an initial frame
    // from the first handle for an identity the clone delivered is dropped.
    tx.try_send_initial(keyed(2, 1)).unwrap();
    assert_eq!(rx.try_recv(), Err(TryRecvError::Empty));
}

#[test]
fn process_frame_applies_the_rule() {
    let (_tx, mut rx) = bounded(1);
    assert_eq!(
        rx.process_frame(EFrame::new_initial(keyed(1, 5))),
        Some(keyed(1, 5))
    );
    assert_eq!(rx.process_frame(EFrame::new_initial(keyed(2, 5))), None);
    assert_eq!(rx.process_frame(EFrame::new(keyed(3, 5))), Some(keyed(3, 5)));
    assert_eq!(rx.process_frame(EFrame::new_initial(keyed(4, 5))), None);
    rx.reset_processed();
    assert_eq!(
        rx.process_frame(EFrame::new_initial(keyed(5, 5))),
        Some(keyed(5, 5))
    );
}
