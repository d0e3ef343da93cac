//! The stack laws shared by all three lists.
//!
//! Each list is abstracted as the sequence of its elements, oldest
//! first: `push` appends to the sequence, `pop` returns its last
//! element and drops it. The lemmas here state, at that level, that
//! these two operations make the lists strict LIFO stacks.

use vstd::prelude::*;

verus! {

/// Popping right after a push undoes it: whatever the contents `s` were,
/// after pushing `v` the stack is one element deeper, the next pop
/// returns exactly `v`, and the contents are `s` again. Since `push` and
/// `pop` act on the abstract contents in no other way, any interleaving
/// of pushes and pops returns, at each pop, the most recently pushed
/// value not yet popped.
pub proof fn lemma_push_then_pop<T>(s: Seq<T>, v: T)
    ensures
        s.push(v).len() == s.len() + 1,
        s.push(v).last() == v,
        s.push(v).drop_last() == s,
{
    assert(s.push(v).drop_last() =~= s);
}

/// A write through an exclusive peek is observable: when the top of a
/// stack with contents `s` is overwritten with `x`, the contents become
/// `s.drop_last().push(x)`, so a following peek sees exactly `x`, a
/// following pop returns exactly `x`, and the elements underneath are
/// left as they were.
pub proof fn lemma_peek_mut_write_visible<T>(s: Seq<T>, x: T)
    requires
        s.len() > 0,
    ensures
        s.drop_last().push(x).len() == s.len(),
        s.drop_last().push(x).last() == x,
        s.drop_last().push(x).drop_last() == s.drop_last(),
{
    assert(s.drop_last().push(x).drop_last() =~= s.drop_last());
}

/// Pushing the values of `vs` in order and then popping repeatedly
/// returns them newest first. After `k` pops the contents are the first
/// `len - k` pushed values, so with `j = len - k` elements left the next
/// pop returns `vs[j - 1]` and leaves the first `j - 1` values; after
/// `len` pops the stack is empty and the next pop finds nothing.
pub proof fn lemma_pop_reverses_pushes<T>(vs: Seq<T>, j: int)
    requires
        0 < j <= vs.len(),
    ensures
        vs.take(vs.len() as int) == vs,
        vs.take(j).last() == vs[j - 1],
        vs.take(j).drop_last() == vs.take(j - 1),
        vs.take(0) == Seq::<T>::empty(),
{
    assert(vs.take(vs.len() as int) =~= vs);
    assert(vs.take(j).drop_last() =~= vs.take(j - 1));
    assert(vs.take(0) =~= Seq::<T>::empty());
}

} // verus!
