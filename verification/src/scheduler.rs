use vstd::prelude::*;

verus! {

/// The counting permit pool that gates admission of ingestion tasks: at
/// most `limit` tasks are past admission at once. A task holds exactly one
/// unit from admission until it finishes, on every exit path.
pub struct PermitPool {
    limit: u32,
    in_use: u32,
}

impl PermitPool {
    /// The fixed capacity of the pool.
    pub closed spec fn limit(self) -> int {
        self.limit as int
    }

    /// How many units are currently held.
    pub closed spec fn in_use(self) -> int {
        self.in_use as int
    }

    /// No more units are out than the pool has.
    pub open spec fn wf(self) -> bool {
        0 <= self.in_use() <= self.limit()
    }

    /// A fresh pool with every unit free.
    pub fn new(limit: u32) -> (r: PermitPool)
        ensures
            r.wf(),
            r.limit() == limit,
            r.in_use() == 0,
    {
        PermitPool { limit, in_use: 0 }
    }

    /// Admit one task if a unit is free. Admission succeeds exactly when
    /// the pool is not exhausted, and a held unit is counted until it is
    /// released.
    pub fn try_acquire(&mut self) -> (acquired: bool)
        requires
            old(self).wf(),
        ensures
            final(self).wf(),
            final(self).limit() == old(self).limit(),
            final(self).in_use() == pool_step(
                old(self).limit() as nat,
                old(self).in_use() as nat,
                PoolEvent::Acquire,
            ),
            acquired ==> old(self).in_use() < old(self).limit() && final(self).in_use() == old(
                self,
            ).in_use() + 1,
            !acquired ==> *final(self) == *old(self) && old(self).in_use() == old(self).limit(),
    {
        if self.in_use < self.limit {
            self.in_use = self.in_use + 1;
            true
        } else {
            false
        }
    }

    /// Give one unit back. Every exit path of a task calls this exactly
    /// once for the unit it was admitted with.
    pub fn release(&mut self)
        requires
            old(self).wf(),
            old(self).in_use() > 0,
        ensures
            final(self).wf(),
            final(self).limit() == old(self).limit(),
            final(self).in_use() == old(self).in_use() - 1,
            final(self).in_use() == pool_step(
                old(self).limit() as nat,
                old(self).in_use() as nat,
                PoolEvent::Release,
            ),
    {
        self.in_use = self.in_use - 1;
    }
}

/// One admission or one release of a permit unit, as the pool sees them in
/// time order.
#[derive(Clone, Copy, Debug, PartialEq, Eq, Structural)]
pub enum PoolEvent {
    Acquire,
    Release,
}

/// How one event changes the number of held units: an acquire is admitted
/// only below the capacity, a release only while a unit is out. This is
/// exactly the transition `try_acquire` and `release` make.
pub open spec fn pool_step(limit: nat, in_use: nat, event: PoolEvent) -> nat {
    match event {
        PoolEvent::Acquire => if in_use < limit {
            (in_use + 1) as nat
        } else {
            in_use
        },
        PoolEvent::Release => if in_use > 0 {
            (in_use - 1) as nat
        } else {
            in_use
        },
    }
}

/// How many units are held after a sequence of pool events, starting from
/// an empty pool of the given capacity.
pub open spec fn in_use_after(limit: nat, events: Seq<PoolEvent>) -> nat
    decreases events.len(),
{
    if events.len() == 0 {
        0
    } else {
        pool_step(limit, in_use_after(limit, events.drop_last()), events.last())
    }
}

/// For every task set and every interleaving of admissions and releases,
/// at no instant are more units held than the pool's capacity: the bound
/// holds after every event sequence, hence after every prefix of a run.
pub proof fn lemma_admission_bounded(limit: nat, events: Seq<PoolEvent>)
    ensures
        in_use_after(limit, events) <= limit,
    decreases events.len(),
{
    if events.len() > 0 {
        lemma_admission_bounded(limit, events.drop_last());
    }
}

/// Whether some arrival carries the slot index `j`.
pub open spec fn covered<T>(arrivals: Seq<(usize, T)>, j: int) -> bool {
    exists|k: int| 0 <= k < arrivals.len() && arrivals[k].0 == j
}

/// No two arrivals carry the same slot index.
pub open spec fn distinct_slots<T>(arrivals: Seq<(usize, T)>) -> bool {
    forall|k1: int, k2: int|
        0 <= k1 < k2 < arrivals.len() ==> (#[trigger] arrivals[k1]).0 != (#[trigger] arrivals[k2]).0
}

/// Every arrival's slot index lies below `n`.
pub open spec fn slots_within<T>(arrivals: Seq<(usize, T)>, n: int) -> bool {
    forall|k: int| 0 <= k < arrivals.len() ==> (#[trigger] arrivals[k]).0 < n
}

/// Restore input order after the tasks raced: each arrival is a pair of
/// the task's position in the input descriptor list and its outcome, in
/// whatever order the tasks finished; the result places every outcome at
/// its input position. The result list always has one entry per input
/// slot, in input order.
pub fn place_results<T>(n: usize, arrivals: Vec<(usize, T)>) -> (r: Vec<Option<T>>)
    requires
        distinct_slots(arrivals@),
        slots_within(arrivals@, n as int),
    ensures
        r@.len() == n,
        forall|k: int|
            0 <= k < arrivals@.len() ==> r@[(#[trigger] arrivals@[k]).0 as int] == Some(
                arrivals@[k].1,
            ),
        forall|j: int| 0 <= j < n && !covered(arrivals@, j) ==> r@[j] is None,
{
    let ghost all: Seq<(usize, T)> = arrivals@;
    let mut r: Vec<Option<T>> = Vec::new();
    let mut i: usize = 0;
    while i < n
        invariant
            i <= n,
            r@.len() == i,
            forall|j: int| 0 <= j < i ==> r@[j] is None,
        decreases n - i,
    {
        r.push(None);
        i = i + 1;
    }
    let mut pending = arrivals;
    while pending.len() > 0
        invariant
            pending@ == all.subrange(0, pending@.len() as int),
            pending@.len() <= all.len(),
            distinct_slots(all),
            slots_within(all, n as int),
            r@.len() == n,
            forall|k: int|
                pending@.len() <= k < all.len() ==> r@[(#[trigger] all[k]).0 as int] == Some(
                    all[k].1,
                ),
            forall|j: int|
                0 <= j < n && !covered(all.skip(pending@.len() as int), j) ==> r@[j] is None,
        decreases pending.len(),
    {
        let ghost m = pending@.len() as int;
        let last = pending.pop().unwrap();
        proof {
            assert(last == all[m - 1]);
            assert(pending@ == all.subrange(0, m - 1));
        }
        let (slot, value) = last;
        r.set(slot, Some(value));
        proof {
            let suffix_new = all.skip(m - 1);
            let suffix_old = all.skip(m);
            assert forall|j: int| 0 <= j < n && !covered(suffix_new, j) implies r@[j] is None by {
                assert(!covered(suffix_old, j)) by {
                    if covered(suffix_old, j) {
                        let k = choose|k: int|
                            0 <= k < suffix_old.len() && suffix_old[k].0 == j;
                        assert(suffix_new[k + 1] == suffix_old[k]);
                        assert(covered(suffix_new, j));
                    }
                };
                assert(suffix_new[0] == all[m - 1]);
                assert(all[m - 1].0 != j);
            }
        }
    }
    r
}

/// Race-order independence: two completion orders that deliver the same
/// arrivals fill every slot identically, so the result list depends only
/// on which task produced what, never on which finished first.
pub proof fn lemma_order_independence<T>(
    arr1: Seq<(usize, T)>,
    arr2: Seq<(usize, T)>,
    r1: Seq<Option<T>>,
    r2: Seq<Option<T>>,
    n: int,
)
    requires
        distinct_slots(arr1),
        distinct_slots(arr2),
        slots_within(arr1, n),
        slots_within(arr2, n),
        arr1.to_multiset() == arr2.to_multiset(),
        r1.len() == n,
        r2.len() == n,
        forall|k: int| 0 <= k < arr1.len() ==> r1[(#[trigger] arr1[k]).0 as int] == Some(arr1[k].1),
        forall|j: int| 0 <= j < n && !covered(arr1, j) ==> r1[j] is None,
        forall|k: int| 0 <= k < arr2.len() ==> r2[(#[trigger] arr2[k]).0 as int] == Some(arr2[k].1),
        forall|j: int| 0 <= j < n && !covered(arr2, j) ==> r2[j] is None,
    ensures
        r1 == r2,
{
    broadcast use vstd::seq_lib::group_to_multiset_ensures;

    assert forall|j: int| 0 <= j < n implies r1[j] == r2[j] by {
        if covered(arr1, j) {
            let k1 = choose|k: int| 0 <= k < arr1.len() && arr1[k].0 == j;
            let e = arr1[k1];
            assert(arr1.contains(e));
            assert(arr1.to_multiset().count(e) > 0);
            assert(arr2.to_multiset().count(e) > 0);
            assert(arr2.contains(e));
            let k2 = choose|k: int| 0 <= k < arr2.len() && arr2[k] == e;
            assert(arr2[k2].0 == j);
            assert(covered(arr2, j));
            assert(r1[j] == Some(e.1));
            assert(r2[j] == Some(arr2[k2].1));
        } else {
            assert(!covered(arr2, j)) by {
                if covered(arr2, j) {
                    let k2 = choose|k: int| 0 <= k < arr2.len() && arr2[k].0 == j;
                    let e = arr2[k2];
                    assert(arr2.contains(e));
                    assert(arr2.to_multiset().count(e) > 0);
                    assert(arr1.to_multiset().count(e) > 0);
                    assert(arr1.contains(e));
                    let k1 = choose|k: int| 0 <= k < arr1.len() && arr1[k] == e;
                    assert(arr1[k1].0 == j);
                    assert(covered(arr1, j));
                }
            };
        }
    }
    assert(r1 =~= r2);
}

} // verus!
