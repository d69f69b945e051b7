use jlrs::error::RuntimeError;
use jlrs::persistent::{ActorStep, PersistentHandle, PersistentMessage};

fn is_call(step: &ActorStep<u32>, expected: u32) -> bool {
    matches!(step, ActorStep::Call(PersistentMessage { msg }) if *msg == expected)
}

#[test]
fn calls_are_served_one_at_a_time_in_order() {
    let mut h = PersistentHandle::new(4);
    assert_eq!(h.try_call(1), Ok(()));
    assert_eq!(h.try_call(2), Ok(()));
    assert_eq!(h.try_call(3), Ok(()));
    assert!(is_call(&h.next_call(), 1));
    // The first call has not produced its result: the second may not begin.
    assert!(matches!(h.next_call(), ActorStep::Busy));
    h.finish_call();
    assert!(is_call(&h.next_call(), 2));
    h.finish_call();
    assert!(is_call(&h.next_call(), 3));
    h.finish_call();
    assert!(matches!(h.next_call(), ActorStep::Idle));
}

#[test]
fn full_inbox_refuses_a_call() {
    let mut h = PersistentHandle::new(1);
    assert_eq!(h.try_call(1u32), Ok(()));
    assert_eq!(h.try_call(2u32), Err(RuntimeError::ChannelFull));
    assert!(is_call(&h.next_call(), 1));
    assert_eq!(h.try_call(2u32), Ok(()));
}

#[test]
fn actor_ends_after_the_last_handle_and_the_last_call() {
    let mut h = PersistentHandle::new(2);
    h.clone_handle();
    assert_eq!(h.try_call(7u32), Ok(()));
    h.drop_handle();
    assert_eq!(h.try_call(8u32), Ok(()));
    h.drop_handle();
    assert_eq!(h.try_call(9u32), Err(RuntimeError::ChannelClosed));
    assert!(is_call(&h.next_call(), 7));
    h.finish_call();
    assert!(is_call(&h.next_call(), 8));
    assert!(matches!(h.next_call(), ActorStep::Busy));
    h.finish_call();
    assert!(matches!(h.next_call(), ActorStep::Terminate));
}
