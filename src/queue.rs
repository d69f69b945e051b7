//! Bounded FIFO queues: one sub-queue, and the channel that routes messages to sub-queues by
//! affinity.
use std::collections::VecDeque;
use vstd::prelude::*;

verus! {

/// The abstract state of one bounded sub-queue.
///
/// `target` is a shrink request that has not been applied yet, because more items than the new
/// capacity were queued when it was made.
pub struct QueueState<T> {
    pub items: Seq<T>,
    pub capacity: nat,
    pub target: Option<nat>,
}

impl<T> QueueState<T> {
    /// Occupancy never exceeds the capacity in force; a pending shrink exists only while the
    /// occupancy is above its target.
    pub open spec fn wf(self) -> bool {
        &&& self.items.len() <= self.capacity
        &&& match self.target {
            Some(t) => t < self.items.len(),
            None => true,
        }
    }

    /// The number of items up to which new items are admitted. While a shrink is pending new
    /// items are held back by the smaller of the two capacities.
    pub open spec fn limit(self) -> nat {
        match self.target {
            Some(t) => if t < self.capacity { t } else { self.capacity },
            None => self.capacity,
        }
    }

    /// Whether a new item is admitted right now.
    pub open spec fn admits(self) -> bool {
        self.items.len() < self.limit()
    }

    pub open spec fn after_push(self, x: T) -> QueueState<T> {
        QueueState { items: self.items.push(x), ..self }
    }

    /// Removes the oldest item; a pending shrink takes effect as soon as the occupancy allows.
    pub open spec fn after_pop(self) -> QueueState<T> {
        let items = self.items.drop_first();
        match self.target {
            Some(t) => if items.len() <= t {
                QueueState { items, capacity: t, target: None }
            } else {
                QueueState { items, ..self }
            },
            None => QueueState { items, ..self },
        }
    }

    /// A resize request: applied at once when the occupancy permits it, held as pending
    /// otherwise. Queued items are never touched.
    pub open spec fn after_resize(self, c: nat) -> QueueState<T> {
        if self.items.len() <= c {
            QueueState { items: self.items, capacity: c, target: None }
        } else {
            QueueState { items: self.items, capacity: self.capacity, target: Some(c) }
        }
    }

    /// The state after pushing `xs` one after the other.
    pub open spec fn after_push_all(self, xs: Seq<T>) -> QueueState<T>
        decreases xs.len(),
    {
        if xs.len() == 0 {
            self
        } else {
            self.after_push_all(xs.drop_last()).after_push(xs.last())
        }
    }

    /// The state after `n` pops.
    pub open spec fn after_pops(self, n: nat) -> QueueState<T>
        decreases n,
    {
        if n == 0 {
            self
        } else {
            self.after_pop().after_pops((n - 1) as nat)
        }
    }

    /// The items that `n` pops hand out, oldest first.
    pub open spec fn popped(self, n: nat) -> Seq<T>
        decreases n,
    {
        if n == 0 || self.items.len() == 0 {
            Seq::empty()
        } else {
            seq![self.items[0]] + self.after_pop().popped((n - 1) as nat)
        }
    }
}

/// Pushing never changes the capacity or a pending shrink; the items are appended in order.
pub proof fn lemma_push_all_appends<T>(s: QueueState<T>, xs: Seq<T>)
    ensures
        s.after_push_all(xs) == (QueueState { items: s.items + xs, ..s }),
    decreases xs.len(),
{
    if xs.len() == 0 {
        assert(s.items + xs =~= s.items);
    } else {
        lemma_push_all_appends(s, xs.drop_last());
        assert((s.items + xs.drop_last()).push(xs.last()) =~= s.items + xs);
    }
}

/// What `n` pops of a well-formed queue hand out and leave behind: the oldest `n` items leave
/// in order, and a pending shrink is applied exactly when the occupancy reaches its target.
pub proof fn lemma_pops<T>(s: QueueState<T>, n: nat)
    requires
        s.wf(),
        n <= s.items.len(),
    ensures
        s.after_pops(n).wf(),
        s.after_pops(n).items == s.items.skip(n as int),
        s.popped(n) == s.items.take(n as int),
        match s.target {
            Some(t) => if s.items.len() - n <= t {
                s.after_pops(n).capacity == t && s.after_pops(n).target is None
            } else {
                s.after_pops(n).capacity == s.capacity && s.after_pops(n).target == Some(t)
            },
            None => s.after_pops(n).capacity == s.capacity && s.after_pops(n).target is None,
        },
    decreases n,
{
    if n == 0 {
        assert(s.items.skip(0) =~= s.items);
        assert(s.items.take(0) =~= Seq::<T>::empty());
    } else {
        let p = s.after_pop();
        lemma_pops(p, (n - 1) as nat);
        assert(p.items.skip(n - 1) =~= s.items.skip(n as int));
        assert(seq![s.items[0]] + p.items.take(n - 1) =~= s.items.take(n as int));
    }
}

/// Submissions that fit: starting from a well-formed queue, if the submissions `xs` fit under
/// the capacity in force, every one of them is admitted (none is refused as full), and draining
/// the queue afterwards hands out each queued item exactly once, in the order of submission.
pub proof fn lemma_submissions_within_capacity<T>(s: QueueState<T>, xs: Seq<T>)
    requires
        s.wf(),
        s.items.len() + xs.len() <= s.limit(),
    ensures
        forall|i: int| 0 <= i < xs.len() ==> #[trigger] s.after_push_all(xs.take(i)).admits(),
        s.after_push_all(xs).wf(),
        s.after_push_all(xs).items == s.items + xs,
        s.after_push_all(xs).popped((s.items.len() + xs.len()) as nat) == s.items + xs,
{
    assert forall|i: int| 0 <= i < xs.len() implies #[trigger] s.after_push_all(xs.take(i)).admits() by {
        lemma_push_all_appends(s, xs.take(i));
    }
    lemma_push_all_appends(s, xs);
    let q = s.after_push_all(xs);
    lemma_pops(q, (s.items.len() + xs.len()) as nat);
    assert(q.items.take(q.items.len() as int) =~= q.items);
}

/// FIFO delivery: whatever a queue holds is handed out by pops in the order it was pushed, each
/// item once; after `n` pops the rest stay queued in order.
pub proof fn lemma_fifo<T>(s: QueueState<T>, xs: Seq<T>, n: nat)
    requires
        s.wf(),
        s.after_push_all(xs).wf(),
        n <= s.items.len() + xs.len(),
    ensures
        s.after_push_all(xs).popped(n) == (s.items + xs).take(n as int),
        s.after_push_all(xs).after_pops(n).items == (s.items + xs).skip(n as int),
{
    lemma_push_all_appends(s, xs);
    lemma_pops(s.after_push_all(xs), n);
}

/// Shrinking below the occupancy: the request drops and duplicates nothing, stays pending while
/// more items than the new capacity are queued, and completes exactly when the occupancy has
/// come down to it, the items having left in order.
pub proof fn lemma_shrink_waits_for_occupancy<T>(s: QueueState<T>, c: nat, n: nat)
    requires
        s.wf(),
        c < s.items.len(),
        n <= s.items.len(),
    ensures
        s.after_resize(c).items == s.items,
        s.after_resize(c).wf(),
        s.after_resize(c).popped(n) == s.items.take(n as int),
        s.after_resize(c).after_pops(n).items == s.items.skip(n as int),
        n < s.items.len() - c ==> s.after_resize(c).after_pops(n).target == Some(c),
        n >= s.items.len() - c ==> (s.after_resize(c).after_pops(n).target is None
            && s.after_resize(c).after_pops(n).capacity == c),
{
    lemma_pops(s.after_resize(c), n);
}

/// One bounded FIFO sub-queue whose capacity can change while items are queued.
pub struct SubQueue<T> {
    items: VecDeque<T>,
    capacity: usize,
    target: Option<usize>,
}

impl<T> View for SubQueue<T> {
    type V = QueueState<T>;

    closed spec fn view(&self) -> QueueState<T> {
        QueueState {
            items: self.items@,
            capacity: self.capacity as nat,
            target: match self.target {
                Some(t) => Some(t as nat),
                None => None,
            },
        }
    }
}

impl<T> SubQueue<T> {
    pub open spec fn wf(&self) -> bool {
        self@.wf()
    }

    /// An empty sub-queue with room for `capacity` items.
    pub fn new(capacity: usize) -> (r: Self)
        ensures
            r.wf(),
            r@.items == Seq::<T>::empty(),
            r@.capacity == capacity,
            r@.target is None,
    {
        SubQueue { items: VecDeque::new(), capacity, target: None }
    }

    pub fn len(&self) -> (r: usize)
        ensures
            r == self@.items.len(),
    {
        self.items.len()
    }

    pub fn capacity(&self) -> (r: usize)
        ensures
            r == self@.capacity,
    {
        self.capacity
    }

    /// The number of items up to which new items are admitted.
    pub fn limit(&self) -> (r: usize)
        ensures
            r == self@.limit(),
    {
        match self.target {
            Some(t) => if t < self.capacity { t } else { self.capacity },
            None => self.capacity,
        }
    }

    /// Whether a shrink request is still waiting for the occupancy to drop.
    pub fn resize_pending(&self) -> (r: bool)
        ensures
            r == self@.target is Some,
    {
        self.target.is_some()
    }

    /// Appends `x` if there is room; hands it back otherwise.
    pub fn try_push(&mut self, x: T) -> (r: Result<(), T>)
        requires
            old(self).wf(),
        ensures
            final(self).wf(),
            match r {
                Ok(()) => old(self)@.admits() && final(self)@ == old(self)@.after_push(x),
                Err(y) => !old(self)@.admits() && y == x && final(self)@ == old(self)@,
            },
    {
        if self.items.len() < self.limit() {
            self.items.push_back(x);
            Ok(())
        } else {
            Err(x)
        }
    }

    /// Removes and returns the oldest item, applying a pending shrink once it fits.
    pub fn pop(&mut self) -> (r: Option<T>)
        requires
            old(self).wf(),
        ensures
            final(self).wf(),
            match r {
                Some(x) => old(self)@.items.len() > 0 && x == old(self)@.items[0]
                    && final(self)@ == old(self)@.after_pop(),
                None => old(self)@.items.len() == 0 && final(self)@ == old(self)@,
            },
    {
        let r = self.items.pop_front();
        if r.is_some() {
            match self.target {
                Some(t) => {
                    if self.items.len() <= t {
                        self.capacity = t;
                        self.target = None;
                    }
                },
                None => {},
            }
        }
        proof {
            if r.is_some() {
                assert(self@.items =~= old(self)@.items.drop_first());
            }
        }
        r
    }

    /// Requests a new capacity. Returns whether it is already in force; if not, it takes effect
    /// once enough items have been popped.
    pub fn resize(&mut self, capacity: usize) -> (done: bool)
        requires
            old(self).wf(),
        ensures
            final(self).wf(),
            final(self)@ == old(self)@.after_resize(capacity as nat),
            done == (old(self)@.items.len() <= capacity),
    {
        if self.items.len() <= capacity {
            self.capacity = capacity;
            self.target = None;
            true
        } else {
            self.target = Some(capacity);
            false
        }
    }
}


/// Where a message may run.
#[derive(Clone, Copy, Debug, PartialEq, Eq, Structural)]
pub enum Affinity {
    /// Any runtime thread.
    AnyThread,
    /// Only the primary runtime thread.
    MainThreadOnly,
    /// Only the secondary runtime thread with this index.
    SpecificWorker(usize),
}

/// The sub-queue a message is pushed onto.
#[derive(Clone, Copy, Debug, PartialEq, Eq, Structural)]
pub enum Route {
    Main,
    Any,
    Worker(usize),
}

/// The sub-queue for `affinity` when `n_workers` secondary threads exist. Without secondary
/// threads the primary thread takes all work; a worker that does not exist has no sub-queue.
pub open spec fn route_of(affinity: Affinity, n_workers: nat) -> Option<Route> {
    match affinity {
        Affinity::MainThreadOnly => Some(Route::Main),
        Affinity::AnyThread => if n_workers == 0 { Some(Route::Main) } else { Some(Route::Any) },
        Affinity::SpecificWorker(id) => if id < n_workers { Some(Route::Worker(id)) } else { None },
    }
}

/// Why a message was not accepted; the message is handed back.
#[derive(Debug)]
pub enum TrySendError<T> {
    /// The sub-queue is at capacity; retrying later may succeed.
    Full(T),
    /// The channel has been closed.
    Closed(T),
    /// The affinity names a secondary thread that does not exist.
    NoSuchWorker(T),
}

/// What a receiving thread gets from the channel.
#[derive(Debug)]
pub enum Received<T> {
    Message(T),
    /// Nothing is queued for this thread right now.
    Empty,
    /// The channel is closed and nothing is queued for this thread any more.
    Closed,
}

/// The abstract state of a channel.
pub struct ChannelState<T> {
    pub main: QueueState<T>,
    pub any: QueueState<T>,
    pub workers: Seq<QueueState<T>>,
    pub closed: bool,
}

impl<T> ChannelState<T> {
    pub open spec fn wf(self) -> bool {
        &&& self.main.wf()
        &&& self.any.wf()
        &&& forall|i: int| 0 <= i < self.workers.len() ==> #[trigger] self.workers[i].wf()
    }

    pub open spec fn n_workers(self) -> nat {
        self.workers.len()
    }

    pub open spec fn sub(self, r: Route) -> QueueState<T> {
        match r {
            Route::Main => self.main,
            Route::Any => self.any,
            Route::Worker(i) => self.workers[i as int],
        }
    }

    pub open spec fn with_sub(self, r: Route, q: QueueState<T>) -> ChannelState<T> {
        match r {
            Route::Main => ChannelState { main: q, ..self },
            Route::Any => ChannelState { any: q, ..self },
            Route::Worker(i) => ChannelState { workers: self.workers.update(i as int, q), ..self },
        }
    }

    /// The state after a resize request on every sub-queue that secondary threads read.
    pub open spec fn after_worker_resize(self, c: nat) -> ChannelState<T> {
        ChannelState {
            any: self.any.after_resize(c),
            workers: self.workers.map_values(|q: QueueState<T>| q.after_resize(c)),
            ..self
        }
    }
}

/// A bounded multi-producer channel with a sub-queue for the primary thread, one for work that
/// any thread may take, and one for each secondary thread.
pub struct Channel<T> {
    main: SubQueue<T>,
    any: SubQueue<T>,
    workers: Vec<SubQueue<T>>,
    closed: bool,
}

impl<T> View for Channel<T> {
    type V = ChannelState<T>;

    closed spec fn view(&self) -> ChannelState<T> {
        ChannelState {
            main: self.main@,
            any: self.any@,
            workers: self.workers@.map_values(|q: SubQueue<T>| q@),
            closed: self.closed,
        }
    }
}

impl<T> Channel<T> {
    pub open spec fn wf(&self) -> bool {
        self@.wf()
    }

    /// An open channel whose sub-queues are empty and hold up to `capacity` items each.
    pub fn new(capacity: usize, n_workers: usize) -> (r: Self)
        ensures
            r.wf(),
            !r@.closed,
            r@.n_workers() == n_workers,
            r@.main == (QueueState::<T> { items: Seq::empty(), capacity: capacity as nat, target: None }),
            r@.any == (QueueState::<T> { items: Seq::empty(), capacity: capacity as nat, target: None }),
            forall|i: int| 0 <= i < n_workers ==> #[trigger] r@.workers[i] == (QueueState::<T> {
                items: Seq::empty(),
                capacity: capacity as nat,
                target: None,
            }),
    {
        let mut workers: Vec<SubQueue<T>> = Vec::new();
        let mut i: usize = 0;
        while i < n_workers
            invariant
                i <= n_workers,
                workers@.len() == i,
                forall|j: int| 0 <= j < i ==> #[trigger] workers@[j]@ == (QueueState::<T> {
                    items: Seq::empty(),
                    capacity: capacity as nat,
                    target: None,
                }),
            decreases n_workers - i,
        {
            workers.push(SubQueue::new(capacity));
            i += 1;
        }
        Channel { main: SubQueue::new(capacity), any: SubQueue::new(capacity), workers, closed: false }
    }

    pub fn n_workers(&self) -> (r: usize)
        ensures
            r == self@.n_workers(),
    {
        self.workers.len()
    }

    pub fn is_closed(&self) -> (r: bool)
        ensures
            r == self@.closed,
    {
        self.closed
    }

    /// The sub-queue that `affinity` leads to.
    pub fn route(&self, affinity: Affinity) -> (r: Option<Route>)
        ensures
            r == route_of(affinity, self@.n_workers()),
    {
        match affinity {
            Affinity::MainThreadOnly => Some(Route::Main),
            Affinity::AnyThread => if self.workers.len() == 0 {
                Some(Route::Main)
            } else {
                Some(Route::Any)
            },
            Affinity::SpecificWorker(id) => if id < self.workers.len() {
                Some(Route::Worker(id))
            } else {
                None
            },
        }
    }

    /// Takes the next message for the primary thread: from its own sub-queue first, then from
    /// the sub-queue that any thread may take from.
    pub fn recv_main(&mut self) -> (r: Received<T>)
        requires
            old(self).wf(),
        ensures
            final(self).wf(),
            old(self)@.main.items.len() > 0 ==> r == Received::Message(old(self)@.main.items[0])
                && final(self)@ == old(self)@.with_sub(Route::Main, old(self)@.main.after_pop()),
            old(self)@.main.items.len() == 0 && old(self)@.any.items.len() > 0 ==> r
                == Received::Message(old(self)@.any.items[0])
                && final(self)@ == old(self)@.with_sub(Route::Any, old(self)@.any.after_pop()),
            old(self)@.main.items.len() == 0 && old(self)@.any.items.len() == 0 ==> final(self)@
                == old(self)@ && r == (if old(self)@.closed {
                Received::<T>::Closed
            } else {
                Received::<T>::Empty
            }),
    {
        match self.main.pop() {
            Some(x) => Received::Message(x),
            None => match self.any.pop() {
                Some(x) => Received::Message(x),
                None => if self.closed {
                    Received::Closed
                } else {
                    Received::Empty
                },
            },
        }
    }

    /// Takes the next message for secondary thread `id`: from its own sub-queue first, then
    /// from the sub-queue that any thread may take from.
    pub fn recv_worker(&mut self, id: usize) -> (r: Received<T>)
        requires
            old(self).wf(),
            id < old(self)@.n_workers(),
        ensures
            final(self).wf(),
            old(self)@.workers[id as int].items.len() > 0 ==> r == Received::Message(
                old(self)@.workers[id as int].items[0],
            ) && final(self)@ == old(self)@.with_sub(
                Route::Worker(id),
                old(self)@.workers[id as int].after_pop(),
            ),
            old(self)@.workers[id as int].items.len() == 0 && old(self)@.any.items.len() > 0 ==> r
                == Received::Message(old(self)@.any.items[0])
                && final(self)@ == old(self)@.with_sub(Route::Any, old(self)@.any.after_pop()),
            old(self)@.workers[id as int].items.len() == 0 && old(self)@.any.items.len() == 0
                ==> final(self)@ == old(self)@ && r == (if old(self)@.closed {
                Received::<T>::Closed
            } else {
                Received::<T>::Empty
            }),
    {
        assert(self.workers@[id as int]@ == self@.workers[id as int]);
        let own = self.workers[id].pop();
        proof {
            assert(self@.workers =~= old(self)@.workers.update(id as int, self.workers@[id as int]@));
            if own is None {
                assert(self@.workers =~= old(self)@.workers);
            }
        }
        match own {
            Some(x) => Received::Message(x),
            None => match self.any.pop() {
                Some(x) => Received::Message(x),
                None => if self.closed {
                    Received::Closed
                } else {
                    Received::Empty
                },
            },
        }
    }

    /// Closes the channel: nothing is accepted any more, and receivers get `Closed` once their
    /// sub-queues are drained.
    pub fn close(&mut self)
        requires
            old(self).wf(),
        ensures
            final(self).wf(),
            final(self)@ == (ChannelState { closed: true, ..old(self)@ }),
    {
        self.closed = true;
    }

    /// Resizes the primary thread's sub-queue. Returns whether the new capacity is in force; a
    /// shrink below the occupancy takes effect once enough messages have been received.
    pub fn resize_main_queue(&mut self, capacity: usize) -> (done: bool)
        requires
            old(self).wf(),
        ensures
            final(self).wf(),
            final(self)@ == old(self)@.with_sub(Route::Main, old(self)@.main.after_resize(capacity as nat)),
            done == (old(self)@.main.items.len() <= capacity),
    {
        self.main.resize(capacity)
    }

    /// Resizes the sub-queues that secondary threads read. Returns `None`, changing nothing,
    /// when there are no secondary threads; otherwise whether the new capacity is in force on
    /// all of them.
    pub fn resize_worker_queue(&mut self, capacity: usize) -> (r: Option<bool>)
        requires
            old(self).wf(),
        ensures
            final(self).wf(),
            old(self)@.n_workers() == 0 ==> r is None && final(self)@ == old(self)@,
            old(self)@.n_workers() > 0 ==> final(self)@ == old(self)@.after_worker_resize(capacity as nat)
                && r == Some(old(self)@.any.items.len() <= capacity && forall|i: int|
                0 <= i < old(self)@.n_workers() ==> #[trigger] old(self)@.workers[i].items.len() <= capacity),
    {
        if self.workers.len() == 0 {
            return None;
        }
        let ghost start = self@;
        let mut done = self.any.resize(capacity);
        let n = self.workers.len();
        let mut i: usize = 0;
        while i < n
            invariant
                0 <= i <= n,
                n == start.workers.len(),
                self.wf(),
                self@.main == start.main,
                self@.any == start.any.after_resize(capacity as nat),
                self@.closed == start.closed,
                self@.workers.len() == n,
                forall|j: int| 0 <= j < i ==> #[trigger] self@.workers[j] == start.workers[j].after_resize(capacity as nat),
                forall|j: int| i <= j < n ==> #[trigger] self@.workers[j] == start.workers[j],
                done == (start.any.items.len() <= capacity && forall|j: int|
                    0 <= j < i ==> #[trigger] start.workers[j].items.len() <= capacity),
            decreases n - i,
        {
            let ghost before = self@;
            assert(self.workers@[i as int]@ == self@.workers[i as int]);
            let d = self.workers[i].resize(capacity);
            proof {
                assert(self@.workers =~= before.workers.update(i as int, self.workers@[i as int]@));
            }
            done = done && d;
            i += 1;
        }
        proof {
            assert(self@.workers =~= start.workers.map_values(|q: QueueState<T>| q.after_resize(capacity as nat)));
        }
        Some(done)
    }

    /// Resizes every sub-queue. Returns whether the new capacity is in force on all of them.
    pub fn resize_queue(&mut self, capacity: usize) -> (done: bool)
        requires
            old(self).wf(),
        ensures
            final(self).wf(),
            old(self)@.n_workers() == 0 ==> final(self)@ == old(self)@.with_sub(
                Route::Main,
                old(self)@.main.after_resize(capacity as nat),
            ),
            old(self)@.n_workers() > 0 ==> final(self)@ == old(self)@.with_sub(
                Route::Main,
                old(self)@.main.after_resize(capacity as nat),
            ).after_worker_resize(capacity as nat),
            done == (old(self)@.main.items.len() <= capacity && (old(self)@.n_workers() > 0 ==> (
            old(self)@.any.items.len() <= capacity && forall|i: int|
                0 <= i < old(self)@.n_workers() ==> #[trigger] old(self)@.workers[i].items.len() <= capacity))),
    {
        let main_done = self.resize_main_queue(capacity);
        match self.resize_worker_queue(capacity) {
            None => main_done,
            Some(d) => main_done && d,
        }
    }

    /// Whether a shrink of any sub-queue is still waiting.
    pub fn resize_pending(&self) -> (r: bool)
        requires
            self.wf(),
        ensures
            r == (self@.main.target is Some || self@.any.target is Some || exists|i: int|
                0 <= i < self@.n_workers() && (#[trigger] self@.workers[i]).target is Some),
    {
        if self.main.resize_pending() || self.any.resize_pending() {
            return true;
        }
        let mut i: usize = 0;
        while i < self.workers.len()
            invariant
                i <= self@.n_workers(),
                forall|j: int| 0 <= j < i ==> !((#[trigger] self@.workers[j]).target is Some),
            decreases self@.n_workers() - i,
        {
            assert(self.workers@[i as int]@ == self@.workers[i as int]);
            if self.workers[i].resize_pending() {
                return true;
            }
            i += 1;
        }
        false
    }

    /// Whether a shrink of the primary thread's sub-queue is still waiting.
    pub fn main_resize_pending(&self) -> (r: bool)
        ensures
            r == self@.main.target is Some,
    {
        self.main.resize_pending()
    }

    /// Enqueues `x` on the sub-queue of `affinity` without waiting.
    pub fn try_send(&mut self, affinity: Affinity, x: T) -> (r: Result<(), TrySendError<T>>)
        requires
            old(self).wf(),
        ensures
            final(self).wf(),
            old(self)@.closed ==> r == Err::<(), _>(TrySendError::Closed(x)) && final(self)@ == old(self)@,
            !old(self)@.closed ==> match route_of(affinity, old(self)@.n_workers()) {
                None => r == Err::<(), _>(TrySendError::NoSuchWorker(x)) && final(self)@ == old(self)@,
                Some(route) => if old(self)@.sub(route).admits() {
                    r is Ok && final(self)@ == old(self)@.with_sub(route, old(self)@.sub(route).after_push(x))
                } else {
                    r == Err::<(), _>(TrySendError::Full(x)) && final(self)@ == old(self)@
                },
            },
    {
        if self.closed {
            return Err(TrySendError::Closed(x));
        }
        let route = self.route(affinity);
        match route {
            None => Err(TrySendError::NoSuchWorker(x)),
            Some(Route::Main) => match self.main.try_push(x) {
                Ok(()) => Ok(()),
                Err(x) => Err(TrySendError::Full(x)),
            },
            Some(Route::Any) => match self.any.try_push(x) {
                Ok(()) => Ok(()),
                Err(x) => Err(TrySendError::Full(x)),
            },
            Some(Route::Worker(i)) => {
                assert(self.workers@[i as int]@ == self@.workers[i as int]);
                let res = self.workers[i].try_push(x);
                proof {
                    assert(self@.workers =~= old(self)@.workers.update(i as int, self.workers@[i as int]@));
                    if res is Err {
                        assert(self@.workers =~= old(self)@.workers);
                    }
                }
                match res {
                    Ok(()) => Ok(()),
                    Err(x) => Err(TrySendError::Full(x)),
                }
            },
        }
    }
}

} // verus!
