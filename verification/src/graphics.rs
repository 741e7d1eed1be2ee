use vstd::arithmetic::div_mod::{
    lemma_add_mod_noop, lemma_mod_equivalence, lemma_mod_mod, lemma_small_mod,
};
use vstd::prelude::*;

verus! {

/// Number of group slots in the touch and decay buffers: one per 16-bit id.
pub const GROUP_COUNTER_SIZE: usize = 65536;

/// The machine word the counter wraps at.
pub open spec fn counter_range() -> int {
    0x10000000000000000
}

/// The group id issued by the call that sees raw counter value `c`: the
/// counter truncated to 16 bits.
pub open spec fn wrapped_id(c: int) -> u16
    recommends
        0 <= c,
{
    (c % 65536) as u16
}

/// Truncating the counter to 16 bits commutes with its machine-word wrap:
/// the id only depends on how many ids were issued, modulo 65536.
proof fn lemma_wrap_keeps_id(c: int)
    requires
        0 <= c,
    ensures
        wrapped_id(c % counter_range()) == wrapped_id(c),
{
    lemma_mod_mod(c, 65536, 0x1000000000000);
}

/// Issues group identifiers for drawable instances from a single
/// monotonically increasing counter.  Id 0 is reserved for ungrouped
/// background geometry, so a fresh counter starts at 1.  The id space wraps
/// after 65536 issues without collision detection, and the counter itself
/// wraps silently at the machine word; ids from any window of fewer than
/// 65536 consecutive calls are pairwise distinct
/// (`lemma_window_ids_distinct`).
pub struct GroupCounter {
    counter: u64,
}

impl GroupCounter {
    /// The raw counter: 1 plus the number of ids a fresh counter has
    /// issued, modulo the machine word.
    pub closed spec fn raw(self) -> u64 {
        self.counter
    }

    /// A fresh counter, whose first id is 1.
    pub fn new() -> (c: Self)
        ensures
            c.raw() == 1,
    {
        GroupCounter { counter: 1 }
    }

    /// Issues the next id and advances the counter, wrapping silently.
    pub fn next(&mut self) -> (id: u16)
        ensures
            final(self).raw() as int == (old(self).raw() + 1) % counter_range(),
            id == wrapped_id(old(self).raw() as int),
    {
        proof {
            lemma_add_mod_noop(old(self).raw() as int, 1, counter_range());
            lemma_small_mod(1nat, 0x10000000000000000nat);
            lemma_small_mod(old(self).raw() as nat, 0x10000000000000000nat);
            if old(self).raw() == u64::MAX {
                assert((old(self).raw() + 1) % counter_range() == 0) by {
                    lemma_mod_equivalence(
                        old(self).raw() + 1,
                        0,
                        counter_range(),
                    );
                }
            } else {
                lemma_small_mod((old(self).raw() + 1) as nat, 0x10000000000000000nat);
            }
        }
        let id = (self.counter % 65536) as u16;
        self.counter = self.counter.wrapping_add(1);
        id
    }

    /// Issues `n` fresh ids, contiguous in allocation order.
    pub fn instantiate(&mut self, n: usize) -> (ids: Vec<u16>)
        ensures
            final(self).raw() as int == (old(self).raw() + n) % counter_range(),
            ids@.len() == n,
            forall|k: int|
                0 <= k < n ==> ids@[k] == wrapped_id(old(self).raw() + k),
    {
        let ghost raw0 = old(self).raw() as int;
        let mut ids: Vec<u16> = Vec::new();
        let mut i: usize = 0;
        proof {
            lemma_small_mod(raw0 as nat, 0x10000000000000000nat);
        }
        while i < n
            invariant
                i <= n,
                0 <= raw0 < counter_range(),
                self.raw() as int == (raw0 + i) % counter_range(),
                ids@.len() == i,
                forall|k: int| 0 <= k < i ==> ids@[k] == wrapped_id(raw0 + k),
            decreases n - i,
        {
            let ghost prev = self.raw() as int;
            let id = self.next();
            ids.push(id);
            proof {
                lemma_wrap_keeps_id(raw0 + i);
                assert(id == wrapped_id(raw0 + i));
                lemma_add_mod_noop(raw0 + i, 1, counter_range());
                lemma_small_mod(1nat, 0x10000000000000000nat);
                lemma_small_mod(prev as nat, 0x10000000000000000nat);
                assert(self.raw() as int == (raw0 + i + 1) % counter_range());
            }
            i = i + 1;
        }
        ids
    }
}

/// Ids issued by calls fewer than 65536 apart never collide: if two `next`
/// calls on one counter see it after `i` and after `j` total issues, with
/// `i < j` and `j - i < 65536`, the ids they return differ.  In particular
/// any sequence of at most 65535 calls returns pairwise distinct ids.
pub proof fn lemma_window_ids_distinct(c0: int, i: int, j: int)
    requires
        0 <= c0,
        0 <= i < j,
        j - i < 65536,
    ensures
        wrapped_id(c0 + i) != wrapped_id(c0 + j),
{
    let m = 65536int;
    lemma_mod_equivalence(c0 + j, c0 + i, m);
    lemma_small_mod((j - i) as nat, m as nat);
    assert((c0 + j) - (c0 + i) == j - i);
}

} // verus!
