//! The fixed pool of execution slots that cooperative tasks run in.
use std::collections::VecDeque;
use vstd::prelude::*;

verus! {

/// A fixed set of slots, each free or busy. A cooperative task holds one slot from admission
/// until it completes; slots are handed out in the order they were freed.
pub struct SlotPool {
    free: VecDeque<usize>,
    busy: Vec<bool>,
}

impl View for SlotPool {
    /// Whether each slot is busy.
    type V = Seq<bool>;

    closed spec fn view(&self) -> Seq<bool> {
        self.busy@
    }
}

/// Whether every slot is free.
pub open spec fn all_free(busy: Seq<bool>) -> bool {
    forall|i: int| 0 <= i < busy.len() ==> !#[trigger] busy[i]
}

/// Whether some slot is free.
pub open spec fn some_free(busy: Seq<bool>) -> bool {
    exists|i: int| 0 <= i < busy.len() && !#[trigger] busy[i]
}

impl SlotPool {
    /// The free list holds exactly the free slots, each once.
    pub closed spec fn wf(&self) -> bool {
        &&& self.busy@.len() <= usize::MAX
        &&& self.free@.no_duplicates()
        &&& forall|j: int| 0 <= j < self.free@.len() ==> {
            &&& (#[trigger] self.free@[j]) < self.busy@.len()
            &&& !self.busy@[self.free@[j] as int]
        }
        &&& forall|i: int| 0 <= i < self.busy@.len() && !#[trigger] self.busy@[i] ==> self.free@.contains(i as usize)
    }

    /// A pool of `n` free slots.
    pub fn new(n: usize) -> (r: Self)
        ensures
            r.wf(),
            r@ == Seq::new(n as nat, |i: int| false),
    {
        let mut free: VecDeque<usize> = VecDeque::new();
        let mut busy: Vec<bool> = Vec::new();
        let mut i: usize = 0;
        while i < n
            invariant
                i <= n,
                busy@ == Seq::new(i as nat, |k: int| false),
                free@ == Seq::new(i as nat, |k: int| k as usize),
            decreases n - i,
        {
            free.push_back(i);
            busy.push(false);
            i += 1;
            assert(busy@ =~= Seq::new(i as nat, |k: int| false));
            assert(free@ =~= Seq::new(i as nat, |k: int| k as usize));
        }
        let r = SlotPool { free, busy };
        assert(r@ =~= Seq::new(n as nat, |k: int| false));
        assert forall|k: int| 0 <= k < r.busy@.len() && !#[trigger] r.busy@[k] implies r.free@.contains(k as usize) by {
            assert(r.free@[k] == k as usize);
        }
        r
    }

    /// The number of slots.
    pub fn size(&self) -> (r: usize)
        ensures
            r == self@.len(),
    {
        self.busy.len()
    }

    pub fn is_busy(&self, i: usize) -> (r: bool)
        requires
            i < self@.len(),
        ensures
            r == self@[i as int],
    {
        self.busy[i]
    }

    /// Whether a cooperative task could be admitted now.
    pub fn has_free(&self) -> (r: bool)
        requires
            self.wf(),
        ensures
            r == some_free(self@),
    {
        if self.free.len() > 0 {
            assert(!self.busy@[self.free@[0] as int]);
            true
        } else {
            assert forall|i: int| 0 <= i < self@.len() implies #[trigger] self@[i] by {
                if !self@[i] {
                    assert(self.free@.contains(i as usize));
                }
            }
            false
        }
    }

    /// Whether no slot is busy.
    pub fn all_free(&self) -> (r: bool)
        ensures
            r == all_free(self@),
    {
        let mut i: usize = 0;
        while i < self.busy.len()
            invariant
                i <= self.busy@.len(),
                forall|k: int| 0 <= k < i ==> !#[trigger] self.busy@[k],
            decreases self.busy@.len() - i,
        {
            if self.busy[i] {
                return false;
            }
            i += 1;
        }
        true
    }

    /// Takes a free slot without waiting; `None` when every slot is busy.
    pub fn acquire(&mut self) -> (r: Option<usize>)
        requires
            old(self).wf(),
        ensures
            final(self).wf(),
            match r {
                Some(i) => i < old(self)@.len() && !old(self)@[i as int] && final(self)@ == old(self)@.update(i as int, true),
                None => !some_free(old(self)@) && final(self)@ == old(self)@,
            },
    {
        let available = self.has_free();
        if !available {
            return None;
        }
        let ghost free0 = self.free@;
        let i = self.free.pop_front().unwrap();
        assert(free0[0] == i);
        self.busy.set(i, true);
        proof {
            assert(self.free@ =~= free0.subrange(1, free0.len() as int));
            assert forall|j: int| 0 <= j < self.free@.len() implies {
                &&& (#[trigger] self.free@[j]) < self.busy@.len()
                &&& !self.busy@[self.free@[j] as int]
            } by {
                assert(self.free@[j] == free0[j + 1]);
                assert(free0[j + 1] != free0[0]);
            }
            assert forall|k: int| 0 <= k < self.busy@.len() && !#[trigger] self.busy@[k] implies self.free@.contains(k as usize) by {
                assert(k != i as int);
                assert(free0.contains(k as usize));
                let j = choose|j: int| 0 <= j < free0.len() && free0[j] == k as usize;
                assert(j != 0);
                assert(self.free@[j - 1] == k as usize);
            }
        }
        Some(i)
    }

    /// Returns busy slot `i` to the pool once its task has completed.
    pub fn release(&mut self, i: usize)
        requires
            old(self).wf(),
            i < old(self)@.len(),
            old(self)@[i as int],
        ensures
            final(self).wf(),
            final(self)@ == old(self)@.update(i as int, false),
    {
        let ghost free0 = self.free@;
        self.busy.set(i, false);
        self.free.push_back(i);
        proof {
            assert(!free0.contains(i));
            assert forall|j: int| 0 <= j < self.free@.len() implies {
                &&& (#[trigger] self.free@[j]) < self.busy@.len()
                &&& !self.busy@[self.free@[j] as int]
            } by {
                if j < free0.len() {
                    assert(self.free@[j] == free0[j]);
                }
            }
            assert forall|k: int| 0 <= k < self.busy@.len() && !#[trigger] self.busy@[k] implies self.free@.contains(k as usize) by {
                if k == i {
                    assert(self.free@[free0.len() as int] == i);
                } else {
                    assert(free0.contains(k as usize));
                    let j = choose|j: int| 0 <= j < free0.len() && free0[j] == k as usize;
                    assert(self.free@[j] == k as usize);
                }
            }
        }
    }
}

} // verus!
