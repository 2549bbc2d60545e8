//! Small helpers over vectors: borrowing a vector without consuming it, and
//! inserting or appending elements.

use vstd::prelude::*;

verus! {

/// Borrows `vector` without consuming it and hands back a fresh vector
/// holding the single element 10.
pub fn own_vec(vector: &Vec<i32>) -> (r: Vec<i32>)
    ensures
        r@ == seq![10i32],
{
    let mut new_vector: Vec<i32> = Vec::new();
    new_vector.push(10);
    proof {
        assert(new_vector@ =~= seq![10i32]);
    }
    new_vector
}

/// Takes ownership of a plain integer; the caller's copy stays valid. The
/// successor is computed and discarded.
pub fn own_integer(x: i32)
    requires
        x < i32::MAX,
{
    let _next: i32 = x + 1;
}

/// Inserts `value` at both ends of `v`.
pub fn insert_at_ends(v: &mut Vec<i32>, value: i32)
    requires
        old(v)@.len() + 2 <= usize::MAX,
    ensures
        final(v)@ == seq![value] + old(v)@ + seq![value],
{
    v.insert(0, value);
    v.push(value);
    proof {
        assert(v@ =~= seq![value] + old(v)@ + seq![value]);
    }
}

/// Moves every element of `v2` to the end of `v1`, leaving `v2` empty.
pub fn append_vectors(v1: &mut Vec<i32>, v2: &mut Vec<i32>)
    requires
        old(v1)@.len() + old(v2)@.len() <= usize::MAX,
    ensures
        final(v1)@ == old(v1)@ + old(v2)@,
        final(v2)@.len() == 0,
{
    v1.append(v2);
}

} // verus!
