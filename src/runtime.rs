//! Messages, their dispatch onto the channel, and the handle through which work is submitted.
use vstd::prelude::*;
use crate::error::RuntimeError;
use crate::queue::{route_of, Affinity, Channel, ChannelState, Received, Route, TrySendError};

verus! {

/// The kinds of cooperative task envelopes.
#[derive(Clone, Copy, Debug, PartialEq, Eq, Structural)]
pub enum TaskKind {
    /// A one-shot task that delivers a result.
    Plain,
    /// The one-time setup of a task type; it reports only success or failure.
    Register,
    /// The start of a persistent task; it delivers a handle to the task.
    Persistent,
    /// The one-time setup of a persistent task type.
    RegisterPersistent,
}

/// What a message asks the runtime to do. `J` is the task itself together with the sender of
/// its result; the scheduler moves it around without looking inside.
#[derive(Debug)]
pub enum MessageInner<J> {
    /// A cooperative task: it runs in a slot, interleaved with other cooperative tasks.
    Task(TaskKind, J),
    /// A blocking task, run on the runtime thread as soon as it is received.
    BlockingTask(J),
    /// A blocking task, run in a slot after the work spawned before it.
    PostBlockingTask(J),
    /// Including a source file, run as a blocking task.
    Include(J),
    /// Enabling or disabling colored error messages, run as a blocking task.
    ErrorColor(bool, J),
}

/// The message type that travels through the channel.
#[derive(Debug)]
pub struct Message<J> {
    pub inner: MessageInner<J>,
}

impl<J> MessageInner<J> {
    /// The message that carries this request through the channel.
    pub fn wrap(self) -> (r: Message<J>)
        ensures
            r.inner == self,
    {
        Message { inner: self }
    }
}

impl<J> Message<J> {
    /// Whether the message needs a slot: cooperative work does, blocking work runs directly.
    pub open spec fn spec_needs_slot(&self) -> bool {
        match self.inner {
            MessageInner::Task(_, _) | MessageInner::PostBlockingTask(_) => true,
            _ => false,
        }
    }

    pub fn needs_slot(&self) -> (r: bool)
        ensures
            r == self.spec_needs_slot(),
    {
        match &self.inner {
            MessageInner::Task(_, _) | MessageInner::PostBlockingTask(_) => true,
            _ => false,
        }
    }
}

/// A message on its way to the channel, with the affinity it is routed by.
#[derive(Debug)]
pub struct Dispatch<J> {
    pub msg: Message<J>,
    pub affinity: Affinity,
}

impl<J> Dispatch<J> {
    pub fn new(msg: Message<J>, affinity: Affinity) -> (r: Self)
        ensures
            r.msg == msg,
            r.affinity == affinity,
    {
        Dispatch { msg, affinity }
    }
}

/// The error of an attempt to dispatch: what went wrong, and the dispatch handed back so that it
/// can be retried.
#[derive(Debug)]
pub struct DispatchError<J> {
    pub error: RuntimeError,
    pub dispatch: Dispatch<J>,
}

/// The handle to the runtime: the channel that all work goes through. Submitting work, resizing
/// the queues and closing happen on the producers' side, receiving on the runtime threads'.
pub struct AsyncJulia<J> {
    sender: Channel<Message<J>>,
}

impl<J> View for AsyncJulia<J> {
    type V = ChannelState<Message<J>>;

    closed spec fn view(&self) -> ChannelState<Message<J>> {
        self.sender@
    }
}

impl<J> AsyncJulia<J> {
    pub open spec fn wf(&self) -> bool {
        self@.wf()
    }

    /// Starts the channel of a runtime with `n_workers` secondary threads, whose sub-queues
    /// each hold up to `capacity` messages.
    pub fn new(capacity: usize, n_workers: usize) -> (r: Self)
        ensures
            r.wf(),
            !r@.closed,
            r@.n_workers() == n_workers,
            r@.main.items.len() == 0 && r@.main.capacity == capacity && r@.main.target is None,
            r@.any.items.len() == 0 && r@.any.capacity == capacity && r@.any.target is None,
            forall|i: int| 0 <= i < n_workers ==> {
                &&& (#[trigger] r@.workers[i]).items.len() == 0
                &&& r@.workers[i].capacity == capacity
                &&& r@.workers[i].target is None
            },
    {
        AsyncJulia { sender: Channel::new(capacity, n_workers) }
    }

    /// A one-shot cooperative task with the affinity of its kind.
    pub fn task(&self, affinity: Affinity, task: J) -> (r: Dispatch<J>)
        ensures
            r.msg.inner == MessageInner::Task(TaskKind::Plain, task),
            r.affinity == affinity,
    {
        Dispatch::new(MessageInner::Task(TaskKind::Plain, task).wrap(), affinity)
    }

    /// The registration of a cooperative task type.
    pub fn register_task(&self, affinity: Affinity, res_sender: J) -> (r: Dispatch<J>)
        ensures
            r.msg.inner == MessageInner::Task(TaskKind::Register, res_sender),
            r.affinity == affinity,
    {
        Dispatch::new(MessageInner::Task(TaskKind::Register, res_sender).wrap(), affinity)
    }

    /// A blocking task that any runtime thread may run.
    pub fn blocking_task(&self, task: J) -> (r: Dispatch<J>)
        ensures
            r.msg.inner == MessageInner::BlockingTask(task),
            r.affinity == Affinity::AnyThread,
    {
        Dispatch::new(MessageInner::BlockingTask(task).wrap(), Affinity::AnyThread)
    }

    /// A blocking task with an affinity chosen by the caller.
    pub fn blocking_task_with_affinity(&self, affinity: Affinity, task: J) -> (r: Dispatch<J>)
        ensures
            r.msg.inner == MessageInner::BlockingTask(task),
            r.affinity == affinity,
    {
        Dispatch::new(MessageInner::BlockingTask(task).wrap(), affinity)
    }

    /// A blocking task that runs in a slot, after the work spawned before it.
    pub fn post_blocking_task(&self, task: J) -> (r: Dispatch<J>)
        ensures
            r.msg.inner == MessageInner::PostBlockingTask(task),
            r.affinity == Affinity::AnyThread,
    {
        Dispatch::new(MessageInner::PostBlockingTask(task).wrap(), Affinity::AnyThread)
    }

    /// The start of a persistent task; its handle is sent back once its setup has succeeded.
    pub fn persistent(&self, affinity: Affinity, task: J) -> (r: Dispatch<J>)
        ensures
            r.msg.inner == MessageInner::Task(TaskKind::Persistent, task),
            r.affinity == affinity,
    {
        Dispatch::new(MessageInner::Task(TaskKind::Persistent, task).wrap(), affinity)
    }

    /// The registration of a persistent task type.
    pub fn register_persistent(&self, affinity: Affinity, res_sender: J) -> (r: Dispatch<J>)
        ensures
            r.msg.inner == MessageInner::Task(TaskKind::RegisterPersistent, res_sender),
            r.affinity == affinity,
    {
        Dispatch::new(MessageInner::Task(TaskKind::RegisterPersistent, res_sender).wrap(), affinity)
    }

    /// Including a file; it runs on the primary thread, in order with the other work there.
    /// The caller checks beforehand that the file exists.
    pub fn include_file(&self, task: J) -> (r: Dispatch<J>)
        ensures
            r.msg.inner == MessageInner::Include(task),
            r.affinity == Affinity::MainThreadOnly,
    {
        Dispatch::new(MessageInner::Include(task).wrap(), Affinity::MainThreadOnly)
    }

    /// Enabling or disabling colored error messages; it runs on the primary thread.
    pub fn error_color(&self, enable: bool, res_sender: J) -> (r: Dispatch<J>)
        ensures
            r.msg.inner == MessageInner::ErrorColor(enable, res_sender),
            r.affinity == Affinity::MainThreadOnly,
    {
        Dispatch::new(MessageInner::ErrorColor(enable, res_sender).wrap(), Affinity::MainThreadOnly)
    }

    /// Puts a dispatch onto the sub-queue of its affinity without waiting. A refused dispatch
    /// is handed back with the reason, and nothing changes.
    pub fn try_dispatch(&mut self, dispatch: Dispatch<J>) -> (r: Result<(), DispatchError<J>>)
        requires
            old(self).wf(),
        ensures
            final(self).wf(),
            old(self)@.closed ==> r == Err::<(), _>(
                DispatchError { error: RuntimeError::ChannelClosed, dispatch },
            ) && final(self)@ == old(self)@,
            !old(self)@.closed ==> match route_of(dispatch.affinity, old(self)@.n_workers()) {
                None => r == Err::<(), _>(DispatchError { error: RuntimeError::NoSuchWorker, dispatch })
                    && final(self)@ == old(self)@,
                Some(route) => if old(self)@.sub(route).admits() {
                    r is Ok && final(self)@ == old(self)@.with_sub(
                        route,
                        old(self)@.sub(route).after_push(dispatch.msg),
                    )
                } else {
                    r == Err::<(), _>(DispatchError { error: RuntimeError::ChannelFull, dispatch })
                        && final(self)@ == old(self)@
                },
            },
    {
        let affinity = dispatch.affinity;
        match self.sender.try_send(affinity, dispatch.msg) {
            Ok(()) => Ok(()),
            Err(TrySendError::Full(msg)) => Err(
                DispatchError { error: RuntimeError::ChannelFull, dispatch: Dispatch { msg, affinity } },
            ),
            Err(TrySendError::Closed(msg)) => Err(
                DispatchError { error: RuntimeError::ChannelClosed, dispatch: Dispatch { msg, affinity } },
            ),
            Err(TrySendError::NoSuchWorker(msg)) => Err(
                DispatchError { error: RuntimeError::NoSuchWorker, dispatch: Dispatch { msg, affinity } },
            ),
        }
    }

    /// Resizes every sub-queue; see [`Channel::resize_queue`].
    pub fn resize_queue(&mut self, capacity: usize) -> (done: bool)
        requires
            old(self).wf(),
        ensures
            final(self).wf(),
            old(self)@.n_workers() == 0 ==> final(self)@ == old(self)@.with_sub(
                Route::Main,
                old(self)@.main.after_resize(capacity as nat),
            ),
            old(self)@.n_workers() > 0 ==> final(self)@ == old(self)@.with_sub(
                Route::Main,
                old(self)@.main.after_resize(capacity as nat),
            ).after_worker_resize(capacity as nat),
            done == (old(self)@.main.items.len() <= capacity && (old(self)@.n_workers() > 0 ==> (
            old(self)@.any.items.len() <= capacity && forall|i: int|
                0 <= i < old(self)@.n_workers() ==> #[trigger] old(self)@.workers[i].items.len() <= capacity))),
    {
        self.sender.resize_queue(capacity)
    }

    /// Resizes the primary thread's sub-queue; see [`Channel::resize_main_queue`].
    pub fn resize_main_queue(&mut self, capacity: usize) -> (done: bool)
        requires
            old(self).wf(),
        ensures
            final(self).wf(),
            final(self)@ == old(self)@.with_sub(Route::Main, old(self)@.main.after_resize(capacity as nat)),
            done == (old(self)@.main.items.len() <= capacity),
    {
        self.sender.resize_main_queue(capacity)
    }

    /// Resizes the secondary threads' sub-queues; see [`Channel::resize_worker_queue`].
    pub fn resize_worker_queue(&mut self, capacity: usize) -> (r: Option<bool>)
        requires
            old(self).wf(),
        ensures
            final(self).wf(),
            old(self)@.n_workers() == 0 ==> r is None && final(self)@ == old(self)@,
            old(self)@.n_workers() > 0 ==> final(self)@ == old(self)@.after_worker_resize(capacity as nat)
                && r == Some(old(self)@.any.items.len() <= capacity && forall|i: int|
                0 <= i < old(self)@.n_workers() ==> #[trigger] old(self)@.workers[i].items.len() <= capacity),
    {
        self.sender.resize_worker_queue(capacity)
    }

    /// Whether a shrink of the primary thread's sub-queue is still waiting.
    pub fn main_resize_pending(&self) -> (r: bool)
        ensures
            r == self@.main.target is Some,
    {
        self.sender.main_resize_pending()
    }

    /// Whether a shrink of any sub-queue is still waiting.
    pub fn resize_pending(&self) -> (r: bool)
        requires
            self.wf(),
        ensures
            r == (self@.main.target is Some || self@.any.target is Some || exists|i: int|
                0 <= i < self@.n_workers() && (#[trigger] self@.workers[i]).target is Some),
    {
        self.sender.resize_pending()
    }

    /// Closes the channel when the last producer is gone; queued messages are still delivered.
    pub fn close(&mut self)
        requires
            old(self).wf(),
        ensures
            final(self).wf(),
            final(self)@ == (ChannelState { closed: true, ..old(self)@ }),
    {
        self.sender.close()
    }

    /// The next message for the primary thread; see [`Channel::recv_main`].
    pub fn recv_main(&mut self) -> (r: Received<Message<J>>)
        requires
            old(self).wf(),
        ensures
            final(self).wf(),
            old(self)@.main.items.len() > 0 ==> r == Received::Message(old(self)@.main.items[0])
                && final(self)@ == old(self)@.with_sub(Route::Main, old(self)@.main.after_pop()),
            old(self)@.main.items.len() == 0 && old(self)@.any.items.len() > 0 ==> r
                == Received::Message(old(self)@.any.items[0])
                && final(self)@ == old(self)@.with_sub(Route::Any, old(self)@.any.after_pop()),
            old(self)@.main.items.len() == 0 && old(self)@.any.items.len() == 0 ==> final(self)@
                == old(self)@ && r == (if old(self)@.closed {
                Received::<Message<J>>::Closed
            } else {
                Received::<Message<J>>::Empty
            }),
    {
        self.sender.recv_main()
    }

    /// The next message for secondary thread `id`; see [`Channel::recv_worker`].
    pub fn recv_worker(&mut self, id: usize) -> (r: Received<Message<J>>)
        requires
            old(self).wf(),
            id < old(self)@.n_workers(),
        ensures
            final(self).wf(),
            old(self)@.workers[id as int].items.len() > 0 ==> r == Received::Message(
                old(self)@.workers[id as int].items[0],
            ) && final(self)@ == old(self)@.with_sub(
                Route::Worker(id),
                old(self)@.workers[id as int].after_pop(),
            ),
            old(self)@.workers[id as int].items.len() == 0 && old(self)@.any.items.len() > 0 ==> r
                == Received::Message(old(self)@.any.items[0])
                && final(self)@ == old(self)@.with_sub(Route::Any, old(self)@.any.after_pop()),
            old(self)@.workers[id as int].items.len() == 0 && old(self)@.any.items.len() == 0
                ==> final(self)@ == old(self)@ && r == (if old(self)@.closed {
                Received::<Message<J>>::Closed
            } else {
                Received::<Message<J>>::Empty
            }),
    {
        self.sender.recv_worker(id)
    }

    pub fn n_workers(&self) -> (r: usize)
        ensures
            r == self@.n_workers(),
    {
        self.sender.n_workers()
    }
}

} // verus!
