//! The stack through which words beyond a function's own arguments are
//! passed across the boundary.

use vstd::prelude::*;

verus! {

/// The number of words the global argument stack holds.
pub const GLOBAL_STACK_CAP: usize = 16;

/// A stack of 32-bit words shared with the host.
pub trait Stack {
    /// Whether another word can be pushed.
    spec fn can_push(&self) -> bool;

    /// Whether another word can be popped.
    spec fn can_pop(&self) -> bool;

    /// Passes one more word to the other side.
    fn push(&mut self, bits: u32)
        requires
            old(self).can_push(),
    ;

    /// Takes the next word that the other side passed.
    fn pop(&mut self) -> u32
        requires
            old(self).can_pop(),
    ;
}

/// A cursor over the global argument buffer. Pushes write consecutive slots
/// from the cursor on; pops read consecutive slots from the cursor on.
pub struct GlobalStack<'a> {
    /// The slot that the next push writes or the next pop reads.
    pub next: usize,
    /// The buffer shared with the host.
    pub slots: &'a mut [u32; GLOBAL_STACK_CAP],
}

impl<'a> GlobalStack<'a> {
    /// A cursor at the first slot of `slots`.
    pub fn new(slots: &'a mut [u32; GLOBAL_STACK_CAP]) -> (s: GlobalStack<'a>)
        ensures
            s.next == 0,
            s.slots@ == old(slots)@,
            final(slots)@ == final(s.slots)@,
    {
        GlobalStack { next: 0, slots }
    }
}

impl<'a> Stack for GlobalStack<'a> {
    open spec fn can_push(&self) -> bool {
        self.next < GLOBAL_STACK_CAP
    }

    open spec fn can_pop(&self) -> bool {
        self.next < GLOBAL_STACK_CAP
    }

    /// Writes `val` into the slot under the cursor and moves the cursor on.
    fn push(&mut self, val: u32)
        ensures
            final(self).next == old(self).next + 1,
            final(self).slots@ == old(self).slots@.update(old(self).next as int, val),
            final(final(self).slots)@ == final(old(self).slots)@,
    {
        self.slots[self.next] = val;
        self.next += 1;
    }

    /// Reads the slot under the cursor and moves the cursor on.
    fn pop(&mut self) -> (r: u32)
        ensures
            r == old(self).slots@[old(self).next as int],
            final(self).next == old(self).next + 1,
            final(self).slots@ == old(self).slots@,
            final(final(self).slots)@ == final(old(self).slots)@,
    {
        let ret = self.slots[self.next];
        self.next += 1;
        ret
    }
}

/// The slots after `vals` have been pushed one by one through a cursor that
/// starts at slot `at`.
pub open spec fn written_from(slots: Seq<u32>, at: int, vals: Seq<u32>) -> Seq<u32>
    decreases vals.len(),
{
    if vals.len() == 0 {
        slots
    } else {
        written_from(slots.update(at, vals[0]), at + 1, vals.drop_first())
    }
}

/// One more push through the cursor writes the slot just past the ones
/// already written: `written_from` is what consecutive `push` calls leave.
pub proof fn lemma_written_from_push(slots: Seq<u32>, at: int, vals: Seq<u32>, v: u32)
    requires
        0 <= at,
        at + vals.len() < slots.len(),
    ensures
        written_from(slots, at, vals.push(v)) == written_from(slots, at, vals).update(
            at + vals.len(),
            v,
        ),
    decreases vals.len(),
{
    if vals.len() > 0 {
        lemma_written_from_push(slots.update(at, vals[0]), at + 1, vals.drop_first(), v);
        assert(vals.push(v).drop_first() =~= vals.drop_first().push(v));
        assert(vals.push(v)[0] == vals[0]);
        assert(written_from(slots, at, vals) == written_from(
            slots.update(at, vals[0]),
            at + 1,
            vals.drop_first(),
        ));
    } else {
        assert(vals.push(v).drop_first() =~= Seq::<u32>::empty());
        assert(vals.push(v)[0] == v);
        assert(written_from(slots.update(at, v), at + 1, Seq::<u32>::empty()) == slots.update(
            at,
            v,
        ));
    }
}

/// Values pushed one by one from slot `at` on are what pops from a cursor at
/// slot `at` read back, in the order they were pushed; every other slot keeps
/// its word.
pub proof fn law_pushed_values_are_popped_in_order(slots: Seq<u32>, at: int, vals: Seq<u32>)
    requires
        0 <= at,
        at + vals.len() <= slots.len(),
    ensures
        written_from(slots, at, vals).len() == slots.len(),
        forall|i: int| 0 <= i < vals.len() ==> #[trigger] written_from(slots, at, vals)[at + i]
            == vals[i],
        forall|j: int|
            0 <= j < slots.len() && !(at <= j < at + vals.len()) ==> #[trigger] written_from(
                slots,
                at,
                vals,
            )[j] == slots[j],
    decreases vals.len(),
{
    if vals.len() > 0 {
        let rest = vals.drop_first();
        let next = slots.update(at, vals[0]);
        law_pushed_values_are_popped_in_order(next, at + 1, rest);
        assert forall|i: int| 0 <= i < vals.len() implies #[trigger] written_from(
            slots,
            at,
            vals,
        )[at + i] == vals[i] by {
            if i > 0 {
                assert(written_from(next, at + 1, rest)[(at + 1) + (i - 1)] == rest[i - 1]);
            } else {
                assert(written_from(next, at + 1, rest)[at] == next[at]);
            }
        }
        assert forall|j: int|
            0 <= j < slots.len() && !(at <= j < at + vals.len()) implies #[trigger] written_from(
            slots,
            at,
            vals,
        )[j] == slots[j] by {
            assert(written_from(next, at + 1, rest)[j] == next[j]);
        }
    }
}

} // verus!
