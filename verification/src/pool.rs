//! The shared pool of live slave connections, with round-robin selection.
//!
//! In direct-distribution mode an admission task appends every slave that
//! dials in, and a distribution task picks one pool entry per arriving
//! client, round-robin.  Entries are never removed; dead slaves are only
//! discovered at use time.  The invariant kept here is the one that matters
//! for safety: the round-robin cursor is always valid for the current length
//! at the moment of selection, so pool growth never produces an
//! out-of-bounds pick.  The pool is generic in what a slave handle is; the
//! binary stores its live connection handles in it.

use vstd::arithmetic::div_mod::lemma_add_mod_noop_right;
use vstd::arithmetic::div_mod::lemma_small_mod;
use vstd::prelude::*;

verus! {

/// The cursor after one selection: advance by one, wrapping at `len`.
pub open spec fn next_index(i: int, len: int) -> int
    recommends
        len > 0,
{
    (i + 1) % len
}

/// The indices a round-robin cursor visits: `m` selections starting from
/// `start` over `len` entries.
pub open spec fn rr_visits(len: int, start: int, m: nat) -> Seq<int>
    recommends
        len > 0,
    decreases m,
{
    if m == 0 {
        Seq::empty()
    } else {
        seq![start] + rr_visits(len, next_index(start, len), (m - 1) as nat)
    }
}

/// From any valid starting cursor, the `j`-th selection lands on
/// `(start + j) % len`.
pub proof fn lemma_rr_visits_from(len: int, start: int, m: nat)
    requires
        0 < len,
        0 <= start < len,
    ensures
        rr_visits(len, start, m).len() == m,
        forall|j: int| 0 <= j < m ==> rr_visits(len, start, m)[j] == (start + j) % len,
    decreases m,
{
    if m > 0 {
        let nxt = next_index(start, len);
        lemma_rr_visits_from(len, nxt, (m - 1) as nat);
        lemma_small_mod(start as nat, len as nat);
        let rest = rr_visits(len, nxt, (m - 1) as nat);
        assert forall|j: int| 0 <= j < m implies rr_visits(len, start, m)[j] == (start + j)
            % len by {
            if j == 0 {
                assert(rr_visits(len, start, m)[0] == start);
                assert((start + 0) % len == start);
            } else {
                assert(rr_visits(len, start, m)[j] == rest[j - 1]);
                assert(rest[j - 1] == (nxt + (j - 1)) % len);
                lemma_add_mod_noop_right(j - 1, start + 1, len);
                assert((j - 1 + (start + 1) % len) % len == (start + j) % len);
            }
        }
    }
}

/// Round-robin fairness: starting from a fresh cursor, `m` selections over
/// `len` entries visit exactly the cyclic index sequence
/// `0, 1, ..., len - 1, 0, 1, ...`.
pub proof fn lemma_round_robin_cycle(len: int, m: nat)
    requires
        0 < len,
    ensures
        rr_visits(len, 0, m).len() == m,
        forall|j: int| 0 <= j < m ==> rr_visits(len, 0, m)[j] == j % len,
{
    lemma_rr_visits_from(len, 0, m);
}

/// The pool of live slave connections.  `T` is the handle the binary keeps
/// per slave; the binary shares the pool across its accept tasks behind a
/// mutual-exclusion lock, held only around these operations, never across an
/// I/O wait.
pub struct SlavePool<T> {
    slaves: Vec<T>,
    index: usize,
}

impl<T> SlavePool<T> {
    /// The pool's entries, in admission order.
    pub closed spec fn entries(&self) -> Seq<T> {
        self.slaves@
    }

    /// The round-robin cursor: the index the next selection will pick.
    pub closed spec fn cursor(&self) -> int {
        self.index as int
    }

    /// The pool invariant: the cursor is valid for the current length (zero
    /// while the pool is empty), so no selection is ever out of bounds.
    pub closed spec fn wf(&self) -> bool {
        if self.slaves@.len() == 0 {
            self.index == 0
        } else {
            self.index < self.slaves@.len()
        }
    }

    /// An empty pool.
    pub fn new() -> (p: Self)
        ensures
            p.wf(),
            p.entries() == Seq::<T>::empty(),
            p.cursor() == 0,
    {
        SlavePool { slaves: Vec::new(), index: 0 }
    }

    /// How many slaves are registered.
    pub fn len(&self) -> (n: usize)
        ensures
            n == self.entries().len(),
    {
        self.slaves.len()
    }

    /// Admits one more slave at the end of the pool.  Entries are never
    /// removed, so the cursor stays valid.
    pub fn add_slave(&mut self, s: T)
        requires
            old(self).wf(),
        ensures
            final(self).wf(),
            final(self).entries() == old(self).entries().push(s),
            final(self).cursor() == old(self).cursor(),
    {
        self.slaves.push(s);
    }

    /// Round-robin selection.  On an empty pool nothing is selected and the
    /// pool is left exactly as it was, ready for later arrivals; otherwise
    /// the entry under the cursor is picked and the cursor advances by one,
    /// modulo the current length.
    pub fn select_next(&mut self) -> (r: Option<usize>)
        requires
            old(self).wf(),
        ensures
            final(self).wf(),
            final(self).entries() == old(self).entries(),
            old(self).entries().len() == 0 ==> r is None && *final(self) == *old(self),
            old(self).entries().len() > 0 ==> {
                &&& r == Some(old(self).cursor() as usize)
                &&& old(self).cursor() < old(self).entries().len()
                &&& final(self).cursor() == next_index(
                    old(self).cursor(),
                    old(self).entries().len() as int,
                )
            },
    {
        let n = self.slaves.len();
        if n == 0 {
            None
        } else {
            let picked = self.index;
            self.index = (self.index + 1) % n;
            Some(picked)
        }
    }

    /// The slave handle at a selected index.
    pub fn get(&self, i: usize) -> (r: &T)
        requires
            i < self.entries().len(),
        ensures
            *r == self.entries()[i as int],
    {
        &self.slaves[i]
    }
}

} // verus!
