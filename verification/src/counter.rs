//! The shared nickname counter.
//!
//! One non-negative integer, read and bumped by every handler that assigns a
//! numbered nickname, and read by the persistence tick.  Callers that share a
//! counter across tasks keep it behind a mutual-exclusion lock and hold the
//! lock only for the duration of a single operation, so concurrent operations
//! serialize into some sequence of the calls below.

use vstd::prelude::*;

verus! {

/// The counter value.  It only ever moves upward while the process runs:
/// `set` is reserved for the one startup load, before any event is handled.
pub struct Counter {
    pub num: u32,
}

impl Counter {
    /// A counter with no persisted history starts at zero.
    pub fn new() -> (c: Counter)
        ensures
            c.num == 0,
    {
        Counter { num: 0 }
    }

    /// Read-and-increment: hands back the pre-increment value and advances the
    /// counter by one.
    pub fn next(&mut self) -> (n: u32)
        requires
            old(self).num < u32::MAX,
        ensures
            n == old(self).num,
            final(self).num == old(self).num + 1,
    {
        let n = self.num;
        self.num = self.num + 1;
        n
    }

    /// Read without mutation.
    pub fn snapshot(&self) -> (n: u32)
        ensures
            n == self.num,
    {
        self.num
    }

    /// Overwrite the value; used only when loading the persisted count at
    /// startup.
    pub fn set(&mut self, v: u32)
        ensures
            final(self).num == v,
    {
        self.num = v;
    }
}

/// Law: any sequence of `next` calls starting from value `k` yields exactly
/// the values `k, k + 1, ..., k + N - 1` — a permutation of that range, with
/// no duplicates and no gaps.
///
/// Concurrent callers serialize on the lock that guards the counter, so the
/// values of N overlapping calls, taken in completion order, form a sequence
/// `values` in which the i-th call sees the counter at `k + i` — that is
/// what `next`'s contract yields when its calls are chained.  This lemma
/// turns that premise into the permutation statement.
pub proof fn lemma_next_returns_permutation(values: Seq<u32>, k: u32)
    requires
        forall|i: int| 0 <= i < values.len() ==> values[i] == k + i,
    ensures
        forall|i: int, j: int| 0 <= i < j < values.len() ==> values[i] != values[j],
        forall|v: u32| values.contains(v) <==> k <= v < k + values.len(),
{
    assert forall|v: u32| k <= v < k + values.len() implies values.contains(v) by {
        let i = v - k;
        assert(values[i as int] == v);
    }
}

} // verus!
