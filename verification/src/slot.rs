//! The connection slot table: a fixed-capacity, indexable pool that
//! assigns stable small-integer identities to live entries and reuses an
//! identity after its entry is removed. Identities start at a base above
//! the reserved sentinel, so no connection ever carries the listener's
//! identity.

use vstd::prelude::*;
use crate::event::SlotError;

verus! {

/// The identity the table would issue next: the lowest identity in
/// `[lo, hi)` that is not yet bound in `m`, or `hi` if every one is.
pub open spec fn next_identity_from<T>(m: Map<int, T>, lo: int, hi: int) -> int
    decreases hi - lo,
{
    if lo >= hi {
        hi
    } else if !m.dom().contains(lo) {
        lo
    } else {
        next_identity_from(m, lo + 1, hi)
    }
}

/// The lowest free identity is `k` exactly when `k` is free and every
/// identity below it is bound; in particular a freed identity whose
/// predecessors are all live is the one issued next.
pub proof fn lemma_next_identity_reaches_free<T>(m: Map<int, T>, lo: int, hi: int, k: int)
    requires
        lo <= k < hi,
        !m.dom().contains(k),
        forall|j: int| lo <= j < k ==> m.dom().contains(j),
    ensures
        next_identity_from(m, lo, hi) == k,
    decreases k - lo,
{
    if lo < k {
        assert(m.dom().contains(lo));
        lemma_next_identity_reaches_free(m, lo + 1, hi, k);
    }
}

/// Fixed-capacity pool of `T` keyed by identity. An identity `id` is
/// live when `base <= id < base + capacity` and the slot `id - base`
/// holds an entry; the view is the map from live identities to entries.
pub struct SlotTable<T> {
    base: usize,
    slots: Vec<Option<T>>,
}

impl<T> View for SlotTable<T> {
    type V = Map<int, T>;

    closed spec fn view(&self) -> Map<int, T> {
        Map::new(
            |id: int|
                self.base <= id < self.base + self.slots@.len() && self.slots@[id - self.base]
                    is Some,
            |id: int| self.slots@[id - self.base]->Some_0,
        )
    }
}

impl<T> SlotTable<T> {
    /// First identity the table may issue.
    pub closed spec fn base_spec(&self) -> int {
        self.base as int
    }

    /// Number of slots; fixed for the table's lifetime.
    pub closed spec fn capacity_spec(&self) -> int {
        self.slots@.len() as int
    }

    pub open spec fn wf(&self) -> bool {
        1 <= self.base_spec() && self.base_spec() + self.capacity_spec() <= usize::MAX
    }

    /// The identities this table may ever issue.
    pub open spec fn in_range(&self, id: int) -> bool {
        self.base_spec() <= id < self.base_spec() + self.capacity_spec()
    }

    /// Every slot holds a live entry.
    pub open spec fn is_full(&self) -> bool {
        forall|id: int| self.in_range(id) ==> self@.dom().contains(id)
    }

    /// The identity `insert` would issue next.
    pub open spec fn next_identity(&self) -> int {
        next_identity_from(self@, self.base_spec(), self.base_spec() + self.capacity_spec())
    }

    /// Only identities in range are ever live.
    pub proof fn lemma_dom_in_range(&self)
        ensures
            forall|id: int| #[trigger] self@.dom().contains(id) ==> self.in_range(id),
    {
    }

    /// An empty table whose identities range over `[base, base + capacity)`.
    pub fn new(base: usize, capacity: usize) -> (r: Self)
        requires
            1 <= base,
            base + capacity <= usize::MAX,
        ensures
            r.wf(),
            r.base_spec() == base,
            r.capacity_spec() == capacity,
            r@ == Map::<int, T>::empty(),
    {
        let mut slots: Vec<Option<T>> = Vec::new();
        while slots.len() < capacity
            invariant
                slots@.len() <= capacity,
                forall|j: int| 0 <= j < slots@.len() ==> slots@[j] is None,
            decreases capacity - slots@.len(),
        {
            slots.push(None);
        }
        let r = SlotTable { base, slots };
        proof {
            assert(r@ =~= Map::<int, T>::empty());
        }
        r
    }

    /// The identity the next `insert` will issue, or `None` exactly
    /// when the table is full. The table is not changed.
    pub fn next_free(&self) -> (r: Option<usize>)
        requires
            self.wf(),
        ensures
            r is Some <==> !self.is_full(),
            r matches Some(id) ==> {
                &&& id as int == self.next_identity()
                &&& self.in_range(id as int)
                &&& !self@.dom().contains(id as int)
            },
    {
        let n = self.slots.len();
        let mut i: usize = 0;
        while i < n
            invariant
                self.wf(),
                n == self.slots@.len(),
                i <= n,
                forall|j: int| 0 <= j < i ==> self.slots@[j] is Some,
            decreases n - i,
        {
            if self.slots[i].is_none() {
                let id = self.base + i;
                proof {
                    assert(!self@.dom().contains(id as int));
                    assert(!self.is_full()) by {
                        assert(self.in_range(id as int) && !self@.dom().contains(id as int));
                    }
                    assert(forall|j: int|
                        self.base_spec() <= j < id as int ==> self@.dom().contains(j));
                    lemma_next_identity_reaches_free(
                        self@,
                        self.base_spec(),
                        self.base_spec() + self.capacity_spec(),
                        id as int,
                    );
                }
                return Some(id);
            }
            i += 1;
        }
        proof {
            assert forall|id: int| self.in_range(id) implies self@.dom().contains(id) by {
                assert(self.slots@[id - self.base_spec()] is Some);
            }
        }
        None
    }

    /// Binds `value` to the lowest free identity, or reports
    /// `CapacityExceeded`, leaving the table unchanged, exactly when the
    /// table is full. The issued identity is fresh and in range.
    pub fn insert(&mut self, value: T) -> (r: Result<usize, SlotError>)
        requires
            old(self).wf(),
        ensures
            final(self).wf(),
            final(self).base_spec() == old(self).base_spec(),
            final(self).capacity_spec() == old(self).capacity_spec(),
            r is Ok <==> !old(self).is_full(),
            r matches Ok(id) ==> {
                &&& old(self).in_range(id as int)
                &&& !old(self)@.dom().contains(id as int)
                &&& id as int == old(self).next_identity()
                &&& final(self)@ == old(self)@.insert(id as int, value)
            },
            r is Err ==> r == Err::<usize, SlotError>(SlotError::CapacityExceeded) && *final(self)
                == *old(self),
    {
        let n = self.slots.len();
        let mut i: usize = 0;
        while i < n
            invariant
                old(self).wf(),
                *self == *old(self),
                n == self.slots@.len(),
                i <= n,
                forall|j: int| 0 <= j < i ==> self.slots@[j] is Some,
            decreases n - i,
        {
            if self.slots[i].is_none() {
                let id = self.base + i;
                proof {
                    assert(!self@.dom().contains(id as int));
                    assert(!old(self).is_full()) by {
                        assert(old(self).in_range(id as int) && !old(self)@.dom().contains(
                            id as int,
                        ));
                    }
                    assert(forall|j: int|
                        self.base_spec() <= j < id as int ==> self@.dom().contains(j));
                    lemma_next_identity_reaches_free(
                        self@,
                        self.base_spec(),
                        self.base_spec() + self.capacity_spec(),
                        id as int,
                    );
                }
                self.slots.set(i, Some(value));
                proof {
                    assert(self@ =~= old(self)@.insert(id as int, value));
                }
                return Ok(id);
            }
            i += 1;
        }
        proof {
            assert forall|id: int| self.in_range(id) implies self@.dom().contains(id) by {
                assert(self.slots@[id - self.base_spec()] is Some);
            }
        }
        Err(SlotError::CapacityExceeded)
    }

    /// Removes and returns the entry bound to `id`; returns `None` and
    /// leaves the table unchanged when `id` is not live.
    pub fn take(&mut self, id: usize) -> (r: Option<T>)
        requires
            old(self).wf(),
        ensures
            final(self).wf(),
            final(self).base_spec() == old(self).base_spec(),
            final(self).capacity_spec() == old(self).capacity_spec(),
            r is Some <==> old(self)@.dom().contains(id as int),
            r matches Some(v) ==> v == old(self)@[id as int] && final(self)@ == old(self)@.remove(
                id as int,
            ),
            r is None ==> *final(self) == *old(self),
    {
        if id < self.base {
            return None;
        }
        let idx = id - self.base;
        if idx >= self.slots.len() {
            return None;
        }
        if self.slots[idx].is_none() {
            return None;
        }
        let mut taken: Option<T> = None;
        self.slots.set_and_swap(idx, &mut taken);
        proof {
            assert(self@ =~= old(self)@.remove(id as int));
        }
        taken
    }

    /// Rebinds a freed identity in range; the inverse of `take`.
    pub fn put(&mut self, id: usize, value: T)
        requires
            old(self).wf(),
            old(self).in_range(id as int),
            !old(self)@.dom().contains(id as int),
        ensures
            final(self).wf(),
            final(self).base_spec() == old(self).base_spec(),
            final(self).capacity_spec() == old(self).capacity_spec(),
            final(self)@ == old(self)@.insert(id as int, value),
    {
        let idx = id - self.base;
        self.slots.set(idx, Some(value));
        proof {
            assert(self@ =~= old(self)@.insert(id as int, value));
        }
    }

    /// Evicts the entry bound to `id`; a no-op (reported as `false`)
    /// when `id` is not live, so a double remove is harmless.
    pub fn remove(&mut self, id: usize) -> (r: bool)
        requires
            old(self).wf(),
        ensures
            final(self).wf(),
            final(self).base_spec() == old(self).base_spec(),
            final(self).capacity_spec() == old(self).capacity_spec(),
            r <==> old(self)@.dom().contains(id as int),
            r ==> final(self)@ == old(self)@.remove(id as int),
            !r ==> *final(self) == *old(self),
    {
        let t = self.take(id);
        t.is_some()
    }

    /// Looks up the entry bound to `id`; fails exactly when `id` is
    /// stale or unknown.
    pub fn get(&self, id: usize) -> (r: Option<&T>)
        ensures
            r is Some <==> self@.dom().contains(id as int),
            r matches Some(v) ==> *v == self@[id as int],
    {
        if id < self.base {
            return None;
        }
        let idx = id - self.base;
        if idx >= self.slots.len() {
            return None;
        }
        self.slots[idx].as_ref()
    }
}

} // verus!
