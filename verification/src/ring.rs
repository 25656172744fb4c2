//! Fixed-capacity circular sample buffer shared by the detector and the
//! pressure history: O(1) push, overwrite-oldest once full, occupancy
//! saturating at the capacity.

use vstd::prelude::*;

verus! {

/// Index `j` reduced into a buffer of `cap` slots, for `0 <= j < 2 * cap`.
pub open spec fn wrap_at(j: int, cap: int) -> int {
    if j < cap {
        j
    } else {
        j - cap
    }
}

/// Contents of a ring of capacity `cap` after one more push: the value goes
/// at the newest end, and the oldest entry leaves once the ring is full.
pub open spec fn ring_push<T>(s: Seq<T>, cap: nat, v: T) -> Seq<T> {
    if s.len() < cap {
        s.push(v)
    } else {
        s.push(v).drop_first()
    }
}

/// Contents of an initially empty ring of capacity `cap` after pushing
/// `vals`, oldest first.
pub open spec fn ring_fold<T>(cap: nat, vals: Seq<T>) -> Seq<T>
    decreases vals.len(),
{
    if vals.len() == 0 {
        Seq::empty()
    } else {
        ring_push(ring_fold(cap, vals.drop_last()), cap, vals.last())
    }
}

/// Fixed-capacity ring buffer. The view is the sequence of retained
/// entries, oldest first; it never grows past the capacity.
pub struct Ring<T> {
    buf: Vec<T>,
    /// Slot the next push writes.
    head: usize,
    /// Number of retained entries, saturating at the capacity.
    count: usize,
}

impl<T> Ring<T> {
    pub closed spec fn capacity(&self) -> nat {
        self.buf@.len()
    }

    /// Storage slot of the logically oldest entry.
    closed spec fn start(&self) -> int {
        if self.count < self.buf@.len() {
            0
        } else {
            self.head as int
        }
    }

    pub closed spec fn wf(&self) -> bool {
        &&& self.buf@.len() >= 1
        &&& self.head < self.buf@.len()
        &&& self.count <= self.buf@.len()
        &&& (self.count < self.buf@.len() ==> self.head == self.count)
    }
}

impl<T> View for Ring<T> {
    type V = Seq<T>;

    closed spec fn view(&self) -> Seq<T> {
        Seq::new(
            self.count as nat,
            |i: int| self.buf@[wrap_at(self.start() + i, self.buf@.len() as int)],
        )
    }
}

impl<T: Copy> Ring<T> {
    /// An empty ring of `capacity` slots, each initially holding `fill`
    /// (never observable through the view until overwritten by a push).
    pub fn new(capacity: usize, fill: T) -> (r: Ring<T>)
        requires
            1 <= capacity,
        ensures
            r.wf(),
            r.capacity() == capacity,
            r@ == Seq::<T>::empty(),
    {
        let mut buf: Vec<T> = Vec::new();
        while buf.len() < capacity
            invariant
                buf@.len() <= capacity,
            decreases capacity - buf.len(),
        {
            buf.push(fill);
        }
        let r = Ring { buf, head: 0, count: 0 };
        proof {
            assert(r@ =~= Seq::<T>::empty());
        }
        r
    }

    /// Number of retained entries, saturating at the capacity.
    pub fn len(&self) -> (n: usize)
        ensures
            n == self@.len(),
    {
        self.count
    }

    /// Entry `i` of the retained contents, oldest first.
    pub fn get(&self, i: usize) -> (v: T)
        requires
            self.wf(),
            i < self@.len(),
        ensures
            v == self@[i as int],
    {
        let cap = self.buf.len();
        let start = if self.count < cap {
            0
        } else {
            self.head
        };
        let j = if i < cap - start {
            start + i
        } else {
            i - (cap - start)
        };
        self.buf[j]
    }

    /// Append `v`, overwriting the oldest entry once the ring is full.
    pub fn push(&mut self, v: T)
        requires
            old(self).wf(),
        ensures
            final(self).wf(),
            final(self).capacity() == old(self).capacity(),
            final(self)@ == ring_push(old(self)@, old(self).capacity(), v),
    {
        let ghost v0 = self@;
        let cap = self.buf.len();
        self.buf[self.head] = v;
        self.head = if self.head + 1 == cap {
            0
        } else {
            self.head + 1
        };
        if self.count < cap {
            self.count = self.count + 1;
        }
        proof {
            assert(self@ =~= ring_push(v0, cap as nat, v));
        }
    }
}

/// Law: an initially empty ring of capacity `cap` retains, after any
/// sequence of pushes, exactly the last `cap` values pushed (all of them
/// while fewer have arrived), oldest first.
pub proof fn lemma_ring_fold_keeps_suffix<T>(cap: nat, vals: Seq<T>)
    requires
        1 <= cap,
    ensures
        ring_fold(cap, vals) =~= (if vals.len() <= cap {
            vals
        } else {
            vals.subrange(vals.len() - cap, vals.len() as int)
        }),
    decreases vals.len(),
{
    if vals.len() > 0 {
        lemma_ring_fold_keeps_suffix(cap, vals.drop_last());
    }
}

} // verus!
