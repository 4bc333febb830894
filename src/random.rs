use vstd::prelude::*;

use crate::element::TORUS_MODULUS;

verus! {

/// Relies on `rand::random_range`: a value drawn uniformly from `0..bound` by
/// the thread-local generator (it panics on an empty range, which `requires`
/// leaves out).
#[verifier::external_body]
pub(crate) fn random_below(bound: u64) -> (r: u64)
    requires
        bound > 0,
    ensures
        r < bound,
{
    rand::random_range(0..bound)
}

/// `count` positions on the circle, in units, each drawn independently and
/// uniformly.
pub(crate) fn draw_units(count: usize) -> (r: Vec<u32>)
    ensures
        r@.len() == count,
{
    let mut units: Vec<u32> = Vec::new();
    let mut i: usize = 0;
    while i < count
        invariant
            i <= count,
            units@.len() == i,
        decreases count - i,
    {
        let drawn = random_below(TORUS_MODULUS);
        units.push(drawn as u32);
        i = i + 1;
    }
    units
}

} // verus!
