//! Exponent primitives: bit-level halving and parity test, used by every
//! exponentiation variant in this crate.

use vstd::prelude::*;

verus! {

/// Removes the lowest bit of `n` by an unsigned right shift, which equals
/// division by two.
pub fn half(n: u64) -> (r: u64)
    ensures
        r == n / 2,
        n % 2 == 0 ==> 2 * r == n,
        n % 2 == 1 ==> 2 * r + 1 == n,
{
    proof {
        assert(n >> 1u64 == n / 2) by (bit_vector);
    }
    n >> 1
}

/// Returns true iff the lowest bit of `n` is set, that is, iff `n` is odd.
pub fn is_odd(n: u64) -> (r: bool)
    ensures
        r == (n % 2 == 1),
{
    proof {
        assert((n & 1u64 == 1) == (n % 2 == 1)) by (bit_vector);
    }
    n & 1 == 1
}

} // verus!
