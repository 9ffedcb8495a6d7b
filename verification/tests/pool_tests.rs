use fluid_simulation::generic_sender::{GenericSender, SendError, TrySendError};
use fluid_simulation::pool::Pool;

#[test]
fn unbounded_pool_gives_back_what_was_put_in() {
    let pool: Pool<u32> = Pool::new_unbounded();
    assert_eq!(pool.try_get_fish(), None);
    let sender = pool.get_fish_sender();
    assert!(matches!(sender, GenericSender::Async(_)));
    sender.send(11).unwrap();
    sender.send(12).unwrap();
    assert_eq!(pool.get_fish_blocking(), 11);
    assert_eq!(pool.try_get_fish(), Some(12));
    assert_eq!(pool.try_get_fish(), None);
}

#[test]
fn bounded_pool_refuses_a_non_blocking_send_when_full() {
    let pool: Pool<String> = Pool::new_bounded(1);
    let sender = pool.get_fish_sender();
    assert!(matches!(sender, GenericSender::Sync(_)));
    assert!(sender.send_async("first".to_string()).is_ok());
    match sender.send_async("second".to_string()) {
        Err(TrySendError::Full(unsent)) => assert_eq!(unsent, "second"),
        _ => panic!("a full bounded pool must refuse the value"),
    }
    assert_eq!(pool.try_get_fish(), Some("first".to_string()));
}

#[test]
fn sending_to_a_dropped_pool_hands_the_value_back() {
    let pool: Pool<u64> = Pool::new_unbounded();
    let sender = pool.get_fish_sender();
    drop(pool);
    match sender.send(77) {
        Err(SendError(unsent)) => assert_eq!(unsent, 77),
        Ok(()) => panic!("the receiver is gone"),
    }
    match sender.send_async(78) {
        Err(TrySendError::Disconnected(unsent)) => assert_eq!(unsent, 78),
        _ => panic!("the receiver is gone"),
    }
}

#[test]
fn bounded_sender_to_a_dropped_pool_hands_the_value_back() {
    let pool: Pool<u64> = Pool::new_bounded(2);
    let sender = pool.get_fish_sender();
    let copy = sender.clone();
    assert!(matches!(copy, GenericSender::Sync(_)));
    drop(pool);
    match copy.send(5) {
        Err(SendError(unsent)) => assert_eq!(unsent, 5),
        Ok(()) => panic!("the receiver is gone"),
    }
    match sender.send_async(6) {
        Err(TrySendError::Disconnected(unsent)) => assert_eq!(unsent, 6),
        _ => panic!("the receiver is gone"),
    }
}

#[test]
fn cloned_async_sender_reaches_the_same_pool() {
    let pool: Pool<u8> = Pool::new_unbounded();
    let sender = pool.get_fish_sender().clone();
    assert!(matches!(sender, GenericSender::Async(_)));
    sender.send(3).unwrap();
    assert_eq!(pool.try_get_fish(), Some(3));
}
