use std::time::{Duration, Instant};
use suplex::{
    bounded_bridge, bounded_capacity_fits, left_bounded_bridge, right_bounded_bridge, unbounded_bridge, Bridge,
    RecvTimeoutError, SendTimeoutError, TryRecvError, TrySendError,
};

#[test]
fn unbounded_send_recv_left_single_thread() {
    let b: Bridge<String, usize> = Bridge::unbounded();
    for i in 0..5 {
        let r = b.send_to_right(format!("iteration: {i}"));
        assert!(r.is_ok());
    }

    assert_eq!(b.left_receiver_len(), 5);

    for i in 0..5 {
        let r = b.recv_from_left();
        assert!(r.is_ok());
        let value = r.unwrap();
        assert_eq!(value, format!("iteration: {i}"));
    }
}

#[test]
fn unbounded_send_recv_right_single_thread() {
    let b: Bridge<String, usize> = Bridge::unbounded();
    for i in 0..5 {
        let r = b.send_to_left(i);
        assert!(r.is_ok());
    }

    assert_eq!(b.right_receiver_len(), 5);

    for i in 0..5 {
        let r = b.recv_from_right();
        assert!(r.is_ok());
        let value = r.unwrap();
        assert_eq!(value, i);
    }
}

#[test]
fn bounded() {
    let b: Bridge<String, usize> = Bridge::bounded(10);
    assert_eq!(b.left_sender_capacity(), Some(10));
    assert_eq!(b.right_sender_capacity(), Some(10));
    assert_eq!(b.left_receiver_capacity(), Some(10));
    assert_eq!(b.right_receiver_capacity(), Some(10));
}

#[test]
fn left_bounded() {
    let b: Bridge<String, usize> = Bridge::left_bounded(10);
    assert_eq!(b.left_sender_capacity(), Some(10));
    assert_eq!(b.right_sender_capacity(), None);
    assert_eq!(b.left_receiver_capacity(), Some(10));
    assert_eq!(b.right_receiver_capacity(), None);
}

#[test]
fn right_bounded() {
    let b: Bridge<String, usize> = Bridge::right_bounded(10);
    assert_eq!(b.left_sender_capacity(), None);
    assert_eq!(b.right_sender_capacity(), Some(10));
    assert_eq!(b.left_receiver_capacity(), None);
    assert_eq!(b.right_receiver_capacity(), Some(10));
}

#[test]
fn unbounded_reports_no_capacity() {
    let b: Bridge<usize, usize> = Bridge::unbounded();
    assert_eq!(b.left_sender_capacity(), None);
    assert_eq!(b.right_sender_capacity(), None);
    assert_eq!(b.left_receiver_capacity(), None);
    assert_eq!(b.right_receiver_capacity(), None);
}

#[test]
fn zero_capacity_is_empty_and_full() {
    let b: Bridge<usize, usize> = Bridge::bounded(0);
    assert_eq!(b.left_sender_capacity(), Some(0));
    assert!(b.is_left_sender_empty());
    assert!(b.is_left_sender_full());
    assert!(b.is_right_sender_empty());
    assert!(b.is_right_sender_full());
    assert!(b.is_left_receiver_empty());
    assert!(b.is_left_receiver_full());
    assert!(b.is_right_receiver_empty());
    assert!(b.is_right_receiver_full());
    assert_eq!(b.left_sender_len(), 0);
    assert_eq!(b.right_receiver_len(), 0);
}

#[test]
fn unbounded_is_never_full() {
    let b: Bridge<usize, usize> = Bridge::unbounded();
    for i in 0..100 {
        assert_eq!(b.try_send_to_right(i), Ok(()));
        assert_eq!(b.try_send_to_left(i), Ok(()));
    }
    assert!(!b.is_left_sender_full());
    assert!(!b.is_right_sender_full());
    assert!(!b.is_left_receiver_full());
    assert!(!b.is_right_receiver_full());
    assert_eq!(b.left_sender_len(), 100);
    assert_eq!(b.right_sender_len(), 100);
}

#[test]
fn try_send_full_hands_message_back() {
    let b: Bridge<usize, usize> = Bridge::bounded(1);
    assert_eq!(b.try_send_to_right(1), Ok(()));
    assert_eq!(b.try_send_to_right(2), Err(TrySendError::Full(2)));
    assert_eq!(b.try_send_to_left(1), Ok(()));
    assert_eq!(b.try_send_to_left(2), Err(TrySendError::Full(2)));
    assert!(b.is_left_sender_full());
    assert!(b.is_right_receiver_full());
    assert_eq!(b.left_sender_len(), 1);
    assert_eq!(b.left_receiver_len(), 1);
}

#[test]
fn bounded_len_stays_within_capacity() {
    let b: Bridge<usize, usize> = Bridge::bounded(3);
    for i in 0..5 {
        let _ = b.try_send_to_right(i);
        let _ = b.try_send_to_left(i);
    }
    assert_eq!(b.left_sender_len(), 3);
    assert_eq!(b.right_sender_len(), 3);
    assert_eq!(b.left_receiver_len(), 3);
    assert_eq!(b.right_receiver_len(), 3);
}

#[test]
fn send_timeout_hands_message_back() {
    let b: Bridge<usize, usize> = Bridge::bounded(0);
    assert_eq!(
        b.send_to_right_timeout(1, Duration::from_millis(20)),
        Err(SendTimeoutError::Timeout(1))
    );
    assert_eq!(
        b.send_to_left_timeout(7, Duration::from_millis(20)),
        Err(SendTimeoutError::Timeout(7))
    );
}

#[test]
fn send_deadline_hands_message_back() {
    let b: Bridge<usize, usize> = Bridge::bounded(1);
    assert_eq!(b.send_to_right(1), Ok(()));
    assert_eq!(b.send_to_left(1), Ok(()));
    let deadline = Instant::now() + Duration::from_millis(20);
    assert_eq!(
        b.send_to_right_deadline(2, deadline),
        Err(SendTimeoutError::Timeout(2))
    );
    assert_eq!(
        b.send_to_left_deadline(3, deadline),
        Err(SendTimeoutError::Timeout(3))
    );
}

#[test]
fn unbounded_timed_sends_succeed() {
    let b: Bridge<usize, usize> = Bridge::unbounded();
    assert_eq!(b.send_to_right_timeout(1, Duration::from_millis(1)), Ok(()));
    assert_eq!(b.send_to_left_timeout(2, Duration::from_millis(1)), Ok(()));
    let deadline = Instant::now();
    assert_eq!(b.send_to_right_deadline(3, deadline), Ok(()));
    assert_eq!(b.send_to_left_deadline(4, deadline), Ok(()));
    assert_eq!(b.recv_from_left(), Ok(1));
    assert_eq!(b.recv_from_left(), Ok(3));
    assert_eq!(b.recv_from_right(), Ok(2));
    assert_eq!(b.recv_from_right(), Ok(4));
}

#[test]
fn try_recv_on_empty_is_empty() {
    let b: Bridge<usize, usize> = Bridge::unbounded();
    assert_eq!(b.try_recv_from_left(), Err(TryRecvError::Empty));
    assert_eq!(b.try_recv_from_right(), Err(TryRecvError::Empty));
    b.send_to_right(5).unwrap();
    b.send_to_left(6).unwrap();
    assert_eq!(b.try_recv_from_left(), Ok(5));
    assert_eq!(b.try_recv_from_right(), Ok(6));
}

#[test]
fn recv_timeout_on_empty_times_out() {
    let b: Bridge<usize, usize> = Bridge::unbounded();
    assert_eq!(
        b.recv_from_left_timeout(Duration::from_millis(20)),
        Err(RecvTimeoutError::Timeout)
    );
    assert_eq!(
        b.recv_from_right_timeout(Duration::from_millis(20)),
        Err(RecvTimeoutError::Timeout)
    );
    b.send_to_right(8).unwrap();
    assert_eq!(b.recv_from_left_timeout(Duration::from_millis(20)), Ok(8));
}

#[test]
fn recv_deadline_on_empty_times_out() {
    let b: Bridge<usize, usize> = Bridge::unbounded();
    let deadline = Instant::now() + Duration::from_millis(20);
    assert_eq!(b.recv_from_left_deadline(deadline), Err(RecvTimeoutError::Timeout));
    assert_eq!(b.recv_from_right_deadline(deadline), Err(RecvTimeoutError::Timeout));
    b.send_to_left(9).unwrap();
    let later = Instant::now() + Duration::from_millis(20);
    assert_eq!(b.recv_from_right_deadline(later), Ok(9));
}

#[test]
fn empty_reports_follow_sends() {
    let b: Bridge<usize, usize> = Bridge::unbounded();
    assert!(b.is_left_sender_empty());
    assert!(b.is_right_sender_empty());
    assert!(b.is_left_receiver_empty());
    assert!(b.is_right_receiver_empty());
    b.send_to_right(0).unwrap();
    assert!(!b.is_left_sender_empty());
    assert!(!b.is_left_receiver_empty());
    assert!(b.is_right_sender_empty());
    b.send_to_left(0).unwrap();
    assert!(!b.is_right_sender_empty());
    assert!(!b.is_right_receiver_empty());
}

#[test]
fn try_iters_collect_what_is_ready() {
    let b: Bridge<usize, usize> = Bridge::unbounded();
    b.send_to_left(1).unwrap();
    b.send_to_left(2).unwrap();
    b.send_to_right(3).unwrap();
    let v: Vec<usize> = b.left_receiver_try_iter().collect();
    assert_eq!(v, [1, 2]);
    let w: Vec<usize> = b.right_receiver_try_iter().collect();
    assert_eq!(w, [3]);
}

#[test]
fn iters_yield_in_order() {
    let b: Bridge<usize, usize> = Bridge::unbounded();
    b.send_to_left(1).unwrap();
    b.send_to_left(2).unwrap();
    b.send_to_right(3).unwrap();
    let v: Vec<usize> = b.left_receiver_iter().take(2).collect();
    assert_eq!(v, [1, 2]);
    let w: Vec<usize> = b.right_receiver_iter().take(1).collect();
    assert_eq!(w, [3]);
}

#[test]
fn handles_belong_to_their_channels() {
    let bridge: Bridge<usize, usize> = Bridge::unbounded();
    let another: Bridge<usize, usize> = Bridge::unbounded();

    let left_sender = bridge.left_sender();
    assert!(bridge.same_channel_left_sender(&left_sender));
    assert!(!another.same_channel_left_sender(&left_sender));

    let right_sender = bridge.right_sender();
    assert!(bridge.same_channel_right_sender(&right_sender));
    assert!(!another.same_channel_right_sender(&right_sender));

    let left_receiver = bridge.left_receiver();
    assert!(bridge.same_channel_left_receiver(&left_receiver));
    assert!(!another.same_channel_left_receiver(&left_receiver));

    let right_receiver = bridge.right_receiver();
    assert!(bridge.same_channel_right_receiver(&right_receiver));
    assert!(!another.same_channel_right_receiver(&right_receiver));
}

#[test]
fn handles_carry_messages_across_the_bridge() {
    let bridge: Bridge<usize, usize> = Bridge::unbounded();
    bridge.left_sender().send(11).unwrap();
    assert_eq!(bridge.right_receiver().recv(), Ok(11));
    bridge.right_sender().send(12).unwrap();
    assert_eq!(bridge.left_receiver().recv(), Ok(12));
}

#[test]
fn clone_shares_channels() {
    let bridge: Bridge<usize, usize> = Bridge::bounded(2);
    let clone = bridge.clone();
    clone.send_to_right(21).unwrap();
    assert_eq!(bridge.recv_from_left(), Ok(21));
    drop(clone);
    assert_eq!(bridge.send_to_left(22), Ok(()));
    assert_eq!(bridge.recv_from_right(), Ok(22));
    assert_eq!(bridge.left_sender_capacity(), Some(2));
}

#[test]
fn unbounded_bridge_pairs_talk() {
    let (left, right) = unbounded_bridge::<usize, usize>();
    let (left_sender, right_receiver) = left;
    let (right_sender, left_receiver) = right;
    left_sender.send(1).unwrap();
    assert_eq!(left_receiver.recv(), Ok(1));
    right_sender.send(5).unwrap();
    assert_eq!(right_receiver.recv(), Ok(5));
    assert_eq!(left_sender.capacity(), None);
    assert_eq!(right_sender.capacity(), None);
}

#[test]
fn bounded_bridge_capacities() {
    let (left, right) = bounded_bridge::<usize, usize>(1, 3);
    assert_eq!(left.0.capacity(), Some(1));
    assert_eq!(right.1.capacity(), Some(1));
    assert_eq!(right.0.capacity(), Some(3));
    assert_eq!(left.1.capacity(), Some(3));
    left.0.send(1).unwrap();
    assert_eq!(right.1.recv(), Ok(1));
}

#[test]
fn left_bounded_bridge_capacities() {
    let (left, right) = left_bounded_bridge::<usize, usize>(4);
    assert_eq!(left.0.capacity(), Some(4));
    assert_eq!(right.1.capacity(), Some(4));
    assert_eq!(right.0.capacity(), None);
    assert_eq!(left.1.capacity(), None);
}

#[test]
fn right_bounded_bridge_capacities() {
    let (left, right) = right_bounded_bridge::<usize, usize>(4);
    assert_eq!(left.0.capacity(), None);
    assert_eq!(right.1.capacity(), None);
    assert_eq!(right.0.capacity(), Some(4));
    assert_eq!(left.1.capacity(), Some(4));
    right.0.send(2).unwrap();
    assert_eq!(left.1.recv(), Ok(2));
}

#[test]
fn capacity_fits_follows_layout_limit() {
    assert!(bounded_capacity_fits::<String>(0));
    assert!(bounded_capacity_fits::<String>(10));
    assert!(bounded_capacity_fits::<u64>(1 << 20));
    assert!(!bounded_capacity_fits::<u64>(usize::MAX));
    assert!(bounded_capacity_fits::<[u8; 1024]>(0));
    assert!(!bounded_capacity_fits::<[u8; 1024]>(usize::MAX / 1024));
}

#[test]
fn handed_out_handles_belong_to_clones_too() {
    let bridge: Bridge<usize, usize> = Bridge::unbounded();
    let clone = bridge.clone();
    let s = bridge.left_sender();
    assert!(clone.same_channel_left_sender(&s));
    let r = clone.left_receiver();
    assert!(bridge.same_channel_left_receiver(&r));
    s.send(4).unwrap();
    assert_eq!(clone.recv_from_left(), Ok(4));
}
