//! The decisions of a runtime thread's event loop. The loop itself, which waits, runs tasks and
//! talks to the interpreter, lives with the caller: it performs each [`Action`] and reports what
//! happened back.
use vstd::prelude::*;
use crate::queue::Received;
use crate::runtime::Message;
use crate::slots::{all_free, some_free, SlotPool};

verus! {

/// What the event loop does next.
#[derive(Debug)]
pub enum Action<J> {
    /// Wait for the next message, for at most the receive timeout, and report it with
    /// [`Scheduler::on_receive`] (a timeout as [`Received::Empty`]).
    Receive,
    /// Process pending interpreter events and yield, then ask again.
    Housekeep,
    /// Run the message as an independent cooperative unit in this slot, report its completion
    /// with [`Scheduler::on_completed`], and ask again without waiting for it.
    Spawn(usize, Message<J>),
    /// Run the message on the runtime thread to completion, then ask again.
    RunBlocking(Message<J>),
    /// Draining: wait a little, processing interpreter events, for running tasks to complete.
    AwaitDrain,
    /// Every task has completed: join the secondary threads, tear the interpreter down and
    /// return.
    Shutdown,
}

/// The abstract state of a scheduler.
pub struct SchedulerState<J> {
    /// Whether each slot is busy.
    pub busy: Seq<bool>,
    /// A cooperative message that arrived while no slot was free.
    pub held: Option<Message<J>>,
    /// Whether the channel has reported that it is closed and exhausted.
    pub draining: bool,
}

impl<J> SchedulerState<J> {
    /// The loop may end: the channel is exhausted and nothing is running or waiting for a slot.
    pub open spec fn shuts_down(self) -> bool {
        self.draining && self.held is None && all_free(self.busy)
    }

    pub open spec fn after_completed(self, slot: int) -> SchedulerState<J> {
        SchedulerState { busy: self.busy.update(slot, false), ..self }
    }

    /// The state after the tasks in `slots` completed, in that order.
    pub open spec fn after_completions(self, slots: Seq<int>) -> SchedulerState<J>
        decreases slots.len(),
    {
        if slots.len() == 0 {
            self
        } else {
            self.after_completions(slots.drop_last()).after_completed(slots.last())
        }
    }

    /// The state after a cooperative message was admitted into `slot`.
    pub open spec fn after_spawn(self, slot: int) -> SchedulerState<J> {
        SchedulerState { busy: self.busy.update(slot, true), held: None, ..self }
    }
}

/// The state of one runtime thread's event loop: its slot pool, a message that waits for a slot,
/// and whether the loop is draining.
pub struct Scheduler<J> {
    pool: SlotPool,
    held: Option<Message<J>>,
    draining: bool,
}

impl<J> View for Scheduler<J> {
    type V = SchedulerState<J>;

    closed spec fn view(&self) -> SchedulerState<J> {
        SchedulerState { busy: self.pool@, held: self.held, draining: self.draining }
    }
}

impl<J> Scheduler<J> {
    pub closed spec fn wf(&self) -> bool {
        self.pool.wf()
    }

    /// A loop with `n_slots` free slots that has not received anything yet.
    pub fn new(n_slots: usize) -> (r: Self)
        ensures
            r.wf(),
            r@.busy == Seq::new(n_slots as nat, |i: int| false),
            r@.held is None,
            !r@.draining,
    {
        Scheduler { pool: SlotPool::new(n_slots), held: None, draining: false }
    }

    /// Whether a message may be reported now: the loop holds no message back.
    pub fn accepts_message(&self) -> (r: bool)
        ensures
            r == self@.held is None,
    {
        self.held.is_none()
    }

    /// Whether `slot` is running a task.
    pub fn is_busy(&self, slot: usize) -> (r: bool)
        requires
            slot < self@.busy.len(),
        ensures
            r == self@.busy[slot as int],
    {
        self.pool.is_busy(slot)
    }

    pub fn n_slots(&self) -> (r: usize)
        ensures
            r == self@.busy.len(),
    {
        self.pool.size()
    }

    /// Admits `msg` into a free slot.
    fn spawn(&mut self, msg: Message<J>) -> (r: Action<J>)
        requires
            old(self).wf(),
            some_free(old(self)@.busy),
        ensures
            final(self).wf(),
            match r {
                Action::Spawn(slot, m) => m == msg && slot < old(self)@.busy.len()
                    && !old(self)@.busy[slot as int]
                    && final(self)@ == old(self)@.after_spawn(slot as int),
                _ => false,
            },
    {
        match self.pool.acquire() {
            Some(slot) => {
                self.held = None;
                Action::Spawn(slot, msg)
            },
            None => {
                proof {
                    assert(false);
                }
                Action::Housekeep
            },
        }
    }

    /// What to do next when nothing has been received: admit a held message once a slot is
    /// free, wait for messages while slots are free, and, when draining, end only once every
    /// task has completed.
    pub fn next_action(&mut self) -> (r: Action<J>)
        requires
            old(self).wf(),
        ensures
            final(self).wf(),
            (r is Shutdown) == old(self)@.shuts_down(),
            old(self)@.held is Some && some_free(old(self)@.busy) ==> match r {
                Action::Spawn(slot, m) => Some(m) == old(self)@.held && slot < old(self)@.busy.len()
                    && !old(self)@.busy[slot as int]
                    && final(self)@ == old(self)@.after_spawn(slot as int),
                _ => false,
            },
            !(old(self)@.held is Some && some_free(old(self)@.busy)) ==> final(self)@ == old(self)@,
            old(self)@.held is Some && !some_free(old(self)@.busy) ==> r is Housekeep,
            old(self)@.held is None ==> r == (if old(self)@.draining {
                if all_free(old(self)@.busy) {
                    Action::<J>::Shutdown
                } else {
                    Action::<J>::AwaitDrain
                }
            } else if some_free(old(self)@.busy) {
                Action::<J>::Receive
            } else {
                Action::<J>::Housekeep
            }),
    {
        let free = self.pool.has_free();
        if self.held.is_some() {
            if free {
                let msg = self.held.take().unwrap();
                return self.spawn(msg);
            }
            return Action::Housekeep;
        }
        if self.draining {
            if self.pool.all_free() {
                Action::Shutdown
            } else {
                Action::AwaitDrain
            }
        } else if free {
            Action::Receive
        } else {
            Action::Housekeep
        }
    }

    /// Handles what a receive produced: cooperative work is admitted into a free slot (or held
    /// until one frees), blocking work runs at once, a timeout leads to housekeeping, and a
    /// closed channel starts the drain.
    pub fn on_receive(&mut self, received: Received<Message<J>>) -> (r: Action<J>)
        requires
            old(self).wf(),
            old(self)@.held is None,
        ensures
            final(self).wf(),
            match received {
                Received::Message(msg) => if !msg.spec_needs_slot() {
                    r == Action::RunBlocking(msg) && final(self)@ == old(self)@
                } else if some_free(old(self)@.busy) {
                    match r {
                        Action::Spawn(slot, m) => m == msg && slot < old(self)@.busy.len()
                            && !old(self)@.busy[slot as int]
                            && final(self)@ == old(self)@.after_spawn(slot as int),
                        _ => false,
                    }
                } else {
                    r is Housekeep && final(self)@ == (SchedulerState { held: Some(msg), ..old(self)@ })
                },
                Received::Empty => r is Housekeep && final(self)@ == old(self)@,
                Received::Closed => final(self)@ == (SchedulerState { draining: true, ..old(self)@ })
                    && r == (if all_free(old(self)@.busy) {
                    Action::<J>::Shutdown
                } else {
                    Action::<J>::AwaitDrain
                }),
            },
    {
        match received {
            Received::Message(msg) => {
                if !msg.needs_slot() {
                    Action::RunBlocking(msg)
                } else if self.pool.has_free() {
                    self.spawn(msg)
                } else {
                    self.held = Some(msg);
                    Action::Housekeep
                }
            },
            Received::Empty => Action::Housekeep,
            Received::Closed => {
                self.draining = true;
                if self.pool.all_free() {
                    Action::Shutdown
                } else {
                    Action::AwaitDrain
                }
            },
        }
    }

    /// The task in `slot` has completed (with success or failure): its slot is free again.
    pub fn on_completed(&mut self, slot: usize)
        requires
            old(self).wf(),
            slot < old(self)@.busy.len(),
            old(self)@.busy[slot as int],
        ensures
            final(self).wf(),
            final(self)@ == old(self)@.after_completed(slot as int),
    {
        self.pool.release(slot);
    }
}

/// Shutdown drains: in a draining loop that holds no message, after the tasks in `done`
/// complete the loop may end exactly when every task that was running has completed. No running
/// task is abandoned, and none is waited for twice.
pub proof fn lemma_shutdown_waits_for_running_tasks<J>(s: SchedulerState<J>, done: Seq<int>)
    requires
        s.draining,
        s.held is None,
        forall|k: int| 0 <= k < done.len() ==> 0 <= #[trigger] done[k] < s.busy.len(),
    ensures
        s.after_completions(done).shuts_down() <==> forall|i: int|
            0 <= i < s.busy.len() && #[trigger] s.busy[i] ==> done.contains(i),
{
    lemma_completions_free(s, done);
    let t = s.after_completions(done);
    if t.shuts_down() {
        assert forall|i: int| 0 <= i < s.busy.len() && #[trigger] s.busy[i] implies done.contains(i) by {
            assert(!t.busy[i]);
        }
    }
    if forall|i: int| 0 <= i < s.busy.len() && #[trigger] s.busy[i] ==> done.contains(i) {
        assert forall|i: int| 0 <= i < t.busy.len() implies !#[trigger] t.busy[i] by {
            if s.busy[i] {
                assert(done.contains(i));
            }
        }
    }
}

/// Completions only free slots: after the tasks in `done` complete, a slot is busy exactly when
/// it was busy before and is not among them.
pub proof fn lemma_completions_free<J>(s: SchedulerState<J>, done: Seq<int>)
    requires
        forall|k: int| 0 <= k < done.len() ==> 0 <= #[trigger] done[k] < s.busy.len(),
    ensures
        s.after_completions(done).busy.len() == s.busy.len(),
        s.after_completions(done).held == s.held,
        s.after_completions(done).draining == s.draining,
        forall|i: int| 0 <= i < s.busy.len() ==> #[trigger] s.after_completions(done).busy[i] == (s.busy[i]
            && !done.contains(i)),
    decreases done.len(),
{
    if done.len() > 0 {
        let rest = done.drop_last();
        assert(forall|k: int| 0 <= k < rest.len() ==> #[trigger] rest[k] == done[k]);
        lemma_completions_free(s, rest);
        assert forall|i: int| 0 <= i < s.busy.len() implies #[trigger] s.after_completions(done).busy[i] == (
        s.busy[i] && !done.contains(i)) by {
            assert(done =~= rest.push(done.last()));
            if i == done.last() {
                assert(done.contains(i));
            } else {
                assert(done.contains(i) == rest.contains(i)) by {
                    if done.contains(i) {
                        let k = choose|k: int| 0 <= k < done.len() && done[k] == i;
                        assert(rest[k] == i);
                    }
                    if rest.contains(i) {
                        let k = choose|k: int| 0 <= k < rest.len() && rest[k] == i;
                        assert(done[k] == i);
                    }
                }
            }
        }
    }
}

} // verus!
