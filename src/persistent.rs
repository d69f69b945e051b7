//! Persistent tasks: long-lived actors fed through a private bounded inbox, one call at a time.
use vstd::prelude::*;
use crate::error::RuntimeError;
use crate::queue::{lemma_fifo, QueueState, SubQueue};

verus! {

/// A call of a persistent task: its input together with the sender of its result.
#[derive(Debug)]
pub struct PersistentMessage<I> {
    pub msg: I,
}

/// What the actor does next.
#[derive(Debug)]
pub enum ActorStep<I> {
    /// Process this call, then report it with [`PersistentHandle::finish_call`].
    Call(PersistentMessage<I>),
    /// A call is still in progress: no other call may begin.
    Busy,
    /// Nothing to do until a call arrives.
    Idle,
    /// The inbox is empty and no handle remains: the actor ends.
    Terminate,
}

/// The abstract state of an actor's inbox.
pub struct ActorState<I> {
    pub inbox: QueueState<PersistentMessage<I>>,
    /// The number of handles that can still send calls.
    pub handles: nat,
    /// Whether a call has begun and its result has not been produced yet.
    pub in_call: bool,
}

impl<I> ActorState<I> {
    /// The state after the next call has begun.
    pub open spec fn after_start(self) -> ActorState<I> {
        ActorState { inbox: self.inbox.after_pop(), in_call: true, ..self }
    }

    /// The state after the call in progress has produced its result.
    pub open spec fn after_finish(self) -> ActorState<I> {
        ActorState { in_call: false, ..self }
    }

    /// The calls that `n` rounds of beginning a call and producing its result process, in the
    /// order they are processed.
    pub open spec fn served(self, n: nat) -> Seq<PersistentMessage<I>>
        decreases n,
    {
        if n == 0 || self.inbox.items.len() == 0 {
            Seq::empty()
        } else {
            seq![self.inbox.items[0]] + self.after_start().after_finish().served((n - 1) as nat)
        }
    }

    /// The state after the calls `xs` were accepted into the inbox.
    pub open spec fn after_calls(self, xs: Seq<PersistentMessage<I>>) -> ActorState<I> {
        ActorState { inbox: self.inbox.after_push_all(xs), ..self }
    }
}

/// Serving calls is draining the inbox.
proof fn lemma_served_is_popped<I>(s: ActorState<I>, n: nat)
    ensures
        s.served(n) == s.inbox.popped(n),
    decreases n,
{
    if n > 0 && s.inbox.items.len() > 0 {
        lemma_served_is_popped(s.after_start().after_finish(), (n - 1) as nat);
    }
}

/// Calls are served in the order they were accepted: once the calls `xs` have been accepted
/// into an inbox, `n` rounds of beginning a call and producing its result process the oldest `n`
/// calls, in acceptance order, each once.
pub proof fn lemma_calls_served_in_order<I>(s: ActorState<I>, xs: Seq<PersistentMessage<I>>, n: nat)
    requires
        s.inbox.wf(),
        s.inbox.after_push_all(xs).wf(),
        n <= s.inbox.items.len() + xs.len(),
    ensures
        s.after_calls(xs).served(n) == (s.inbox.items + xs).take(n as int),
{
    lemma_served_is_popped(s.after_calls(xs), n);
    lemma_fifo(s.inbox, xs, n);
}

/// The shared end of an actor's inbox. Every handle to the actor refers to it; it counts the
/// handles, so that the actor ends once the last one is gone and the inbox is drained.
pub struct PersistentHandle<I> {
    sender: SubQueue<PersistentMessage<I>>,
    handles: usize,
    in_call: bool,
}

impl<I> View for PersistentHandle<I> {
    type V = ActorState<I>;

    closed spec fn view(&self) -> ActorState<I> {
        ActorState { inbox: self.sender@, handles: self.handles as nat, in_call: self.in_call }
    }
}

impl<I> PersistentHandle<I> {
    pub open spec fn wf(&self) -> bool {
        self@.inbox.wf()
    }

    /// The inbox of an actor whose setup has succeeded, with one handle and room for `capacity`
    /// calls.
    pub fn new(capacity: usize) -> (r: Self)
        ensures
            r.wf(),
            r@.inbox == (QueueState::<PersistentMessage<I>> { items: Seq::empty(), capacity: capacity as nat, target: None }),
            r@.handles == 1,
            !r@.in_call,
    {
        PersistentHandle { sender: SubQueue::new(capacity), handles: 1, in_call: false }
    }

    /// The number of handles that can still send calls.
    pub fn handles(&self) -> (r: usize)
        ensures
            r == self@.handles,
    {
        self.handles
    }

    /// Whether a call has begun and not produced its result yet.
    pub fn in_call(&self) -> (r: bool)
        ensures
            r == self@.in_call,
    {
        self.in_call
    }

    /// Whether a call would be accepted now.
    pub fn can_accept(&self) -> (r: bool)
        requires
            self.wf(),
        ensures
            r == (self@.handles > 0 && self@.inbox.admits()),
    {
        self.handles > 0 && self.sender.len() < self.sender.limit()
    }

    /// Sends a call without waiting: refused when the inbox is closed or full.
    pub fn try_call(&mut self, input: I) -> (r: Result<(), RuntimeError>)
        requires
            old(self).wf(),
        ensures
            final(self).wf(),
            old(self)@.handles == 0 ==> r == Err::<(), _>(RuntimeError::ChannelClosed) && final(self)@ == old(self)@,
            old(self)@.handles > 0 && !old(self)@.inbox.admits() ==> r == Err::<(), _>(RuntimeError::ChannelFull)
                && final(self)@ == old(self)@,
            old(self)@.handles > 0 && old(self)@.inbox.admits() ==> r is Ok && final(self)@ == (ActorState {
                inbox: old(self)@.inbox.after_push(PersistentMessage { msg: input }),
                ..old(self)@
            }),
    {
        if self.handles == 0 {
            return Err(RuntimeError::ChannelClosed);
        }
        match self.sender.try_push(PersistentMessage { msg: input }) {
            Ok(()) => Ok(()),
            Err(_) => Err(RuntimeError::ChannelFull),
        }
    }

    /// One more handle to the actor exists.
    pub fn clone_handle(&mut self)
        requires
            old(self).wf(),
            0 < old(self)@.handles < usize::MAX,
        ensures
            final(self).wf(),
            final(self)@ == (ActorState { handles: old(self)@.handles + 1, ..old(self)@ }),
    {
        self.handles = self.handles + 1;
    }

    /// A handle to the actor was dropped; with the last one the inbox closes.
    pub fn drop_handle(&mut self)
        requires
            old(self).wf(),
            old(self)@.handles > 0,
        ensures
            final(self).wf(),
            final(self)@ == (ActorState { handles: (old(self)@.handles - 1) as nat, ..old(self)@ }),
    {
        self.handles = self.handles - 1;
    }

    /// The actor's next step: the oldest call, unless a call is still in progress.
    pub fn next_call(&mut self) -> (r: ActorStep<I>)
        requires
            old(self).wf(),
        ensures
            final(self).wf(),
            old(self)@.in_call ==> r is Busy && final(self)@ == old(self)@,
            !old(self)@.in_call && old(self)@.inbox.items.len() > 0 ==> r == ActorStep::Call(old(self)@.inbox.items[0])
                && final(self)@ == old(self)@.after_start(),
            !old(self)@.in_call && old(self)@.inbox.items.len() == 0 ==> final(self)@ == old(self)@
                && r == (if old(self)@.handles == 0 {
                ActorStep::<I>::Terminate
            } else {
                ActorStep::<I>::Idle
            }),
    {
        if self.in_call {
            return ActorStep::Busy;
        }
        match self.sender.pop() {
            Some(call) => {
                self.in_call = true;
                ActorStep::Call(call)
            },
            None => if self.handles == 0 {
                ActorStep::Terminate
            } else {
                ActorStep::Idle
            },
        }
    }

    /// The call in progress has produced its result.
    pub fn finish_call(&mut self)
        requires
            old(self).wf(),
            old(self)@.in_call,
        ensures
            final(self).wf(),
            final(self)@ == old(self)@.after_finish(),
    {
        self.in_call = false;
    }
}

} // verus!
