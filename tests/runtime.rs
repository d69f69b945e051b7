use jlrs::error::RuntimeError;
use jlrs::queue::{Affinity, Received};
use jlrs::runtime::{AsyncJulia, Dispatch, Message, MessageInner, TaskKind};

#[test]
fn submissions_build_the_right_messages() {
    let julia: AsyncJulia<u32> = AsyncJulia::new(4, 0);
    let d = julia.task(Affinity::AnyThread, 1);
    assert!(matches!(d.msg.inner, MessageInner::Task(TaskKind::Plain, 1)));
    assert_eq!(d.affinity, Affinity::AnyThread);
    let d = julia.register_task(Affinity::MainThreadOnly, 2);
    assert!(matches!(d.msg.inner, MessageInner::Task(TaskKind::Register, 2)));
    assert_eq!(d.affinity, Affinity::MainThreadOnly);
    let d = julia.blocking_task(3);
    assert!(matches!(d.msg.inner, MessageInner::BlockingTask(3)));
    assert_eq!(d.affinity, Affinity::AnyThread);
    let d = julia.blocking_task_with_affinity(Affinity::SpecificWorker(0), 4);
    assert!(matches!(d.msg.inner, MessageInner::BlockingTask(4)));
    assert_eq!(d.affinity, Affinity::SpecificWorker(0));
    let d = julia.post_blocking_task(5);
    assert!(matches!(d.msg.inner, MessageInner::PostBlockingTask(5)));
    assert_eq!(d.affinity, Affinity::AnyThread);
    let d = julia.persistent(Affinity::AnyThread, 6);
    assert!(matches!(d.msg.inner, MessageInner::Task(TaskKind::Persistent, 6)));
    let d = julia.register_persistent(Affinity::MainThreadOnly, 7);
    assert!(matches!(d.msg.inner, MessageInner::Task(TaskKind::RegisterPersistent, 7)));
    assert_eq!(d.affinity, Affinity::MainThreadOnly);
    let d = julia.include_file(8);
    assert!(matches!(d.msg.inner, MessageInner::Include(8)));
    assert_eq!(d.affinity, Affinity::MainThreadOnly);
    let d = julia.error_color(true, 9);
    assert!(matches!(d.msg.inner, MessageInner::ErrorColor(true, 9)));
    assert_eq!(d.affinity, Affinity::MainThreadOnly);
}

#[test]
fn message_kinds_that_need_a_slot() {
    assert!(MessageInner::Task(TaskKind::Register, ()).wrap().needs_slot());
    assert!(MessageInner::PostBlockingTask(()).wrap().needs_slot());
    assert!(!MessageInner::BlockingTask(()).wrap().needs_slot());
    assert!(!MessageInner::Include(()).wrap().needs_slot());
    assert!(!MessageInner::ErrorColor(false, ()).wrap().needs_slot());
}

#[test]
fn try_dispatch_reports_full_and_hands_the_dispatch_back() {
    let mut julia = AsyncJulia::new(2, 0);
    let a = julia.blocking_task("A");
    let b = julia.blocking_task("B");
    let c = julia.blocking_task("C");
    assert!(julia.try_dispatch(a).is_ok());
    assert!(julia.try_dispatch(b).is_ok());
    let e = julia.try_dispatch(c).unwrap_err();
    assert_eq!(e.error, RuntimeError::ChannelFull);
    assert!(matches!(e.dispatch.msg.inner, MessageInner::BlockingTask("C")));
    assert!(matches!(
        julia.recv_main(),
        Received::Message(Message { inner: MessageInner::BlockingTask("A") })
    ));
    assert!(julia.try_dispatch(e.dispatch).is_ok());
}

#[test]
fn try_dispatch_after_close_and_to_a_missing_worker() {
    let mut julia = AsyncJulia::new(2, 1);
    assert_eq!(julia.n_workers(), 1);
    let d = julia.task(Affinity::SpecificWorker(3), 1u8);
    assert_eq!(julia.try_dispatch(d).unwrap_err().error, RuntimeError::NoSuchWorker);
    let d = julia.task(Affinity::SpecificWorker(0), 2u8);
    assert!(julia.try_dispatch(d).is_ok());
    julia.close();
    let d = julia.task(Affinity::AnyThread, 3u8);
    assert_eq!(julia.try_dispatch(d).unwrap_err().error, RuntimeError::ChannelClosed);
    assert!(matches!(
        julia.recv_worker(0),
        Received::Message(Message { inner: MessageInner::Task(TaskKind::Plain, 2) })
    ));
    assert!(matches!(julia.recv_worker(0), Received::Closed));
}

#[test]
fn resizing_through_the_handle() {
    let mut julia = AsyncJulia::new(1, 0);
    assert!(julia.try_dispatch(Dispatch::new(MessageInner::BlockingTask(1u8).wrap(), Affinity::MainThreadOnly)).is_ok());
    assert!(!julia.resize_main_queue(0));
    assert!(julia.main_resize_pending());
    assert_eq!(julia.resize_worker_queue(3), None);
    assert!(julia.resize_queue(3));
    assert!(!julia.main_resize_pending());
}
