//! Identifier generation for sessions and messages.

use std::collections::HashMap;
use vstd::prelude::*;

verus! {

broadcast use vstd::std_specs::hash::group_hash_axioms;

/// Relies on `rand::random::<u64>`: a non-cryptographic random draw. Nothing
/// is promised of the value.
#[verifier::external_body]
pub(crate) fn draw_u64() -> (r: u64) {
    rand::random::<u64>()
}

/// Picks a key that `m` does not hold: `draw` itself when it is free,
/// otherwise the smallest free key.
pub fn fresh_key<V>(m: &HashMap<u64, V>, draw: u64) -> (r: u64)
    ensures
        !m@.contains_key(r),
        !m@.contains_key(draw) ==> r == draw,
{
    if !m.contains_key(&draw) {
        return draw;
    }
    let n: usize = m.len();
    let mut c: u64 = 0;
    let ghost mut below: Set<u64> = Set::empty();
    while m.contains_key(&c)
        invariant
            below.finite(),
            below.len() == c,
            forall|x: u64| below.contains(x) <==> x < c,
            below.subset_of(m@.dom()),
            m@.dom().finite(),
            m@.len() == n,
        decreases m@.dom().len() - c,
    {
        proof {
            vstd::set_lib::lemma_len_subset(below.insert(c), m@.dom());
            assert(!below.contains(c));
        }
        proof {
            below = below.insert(c);
        }
        c = c + 1;
    }
    c
}

/// Draws a random key and returns it when `m` does not hold it yet,
/// otherwise some other key that `m` does not hold.
pub fn new_key<V>(m: &HashMap<u64, V>) -> (r: u64)
    ensures
        !m@.contains_key(r),
{
    let draw = draw_u64();
    fresh_key(m, draw)
}

} // verus!
