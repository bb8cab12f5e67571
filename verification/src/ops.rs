//! Standard operations to exponentiate with: exact multiplication and
//! addition as free functions, and the multiplicative and additive monoid
//! capabilities over `u64`.
//!
//! The monoid capabilities must be total, so their operations wrap around on
//! overflow: they compute modulo 2^64, which keeps them associative over all
//! of `u64`. On inputs whose exact result fits in a `u64` they agree with the
//! exact operations.

use crate::traits::{Monoid, SemigroupOp};
use vstd::arithmetic::div_mod::{
    lemma_add_mod_noop_right, lemma_mod_bound, lemma_mod_sub_multiples_vanish,
    lemma_mul_mod_noop_left, lemma_mul_mod_noop_right, lemma_small_mod,
};
use vstd::arithmetic::mul::{lemma_mul_is_associative, lemma_mul_nonnegative};
use vstd::prelude::*;

verus! {

/// Exact product of two machine integers; the caller guarantees that it fits.
pub fn mul(x: u64, y: u64) -> (r: u64)
    requires
        x * y <= u64::MAX,
    ensures
        r == x * y,
{
    x * y
}

/// Exact sum of two machine integers; the caller guarantees that it fits.
pub fn add(x: u64, y: u64) -> (r: u64)
    requires
        x + y <= u64::MAX,
    ensures
        r == x + y,
{
    x + y
}

/// The modulus of `u64` arithmetic: one more than `u64::MAX`.
pub open spec fn word_modulus() -> int {
    0x1_0000_0000_0000_0000
}

/// Product modulo 2^64: multiplication with `u64` wraparound.
pub open spec fn mul_wrapped(a: u64, b: u64) -> u64 {
    ((a * b) % word_modulus()) as u64
}

/// Sum modulo 2^64: addition with `u64` wraparound.
pub open spec fn add_wrapped(a: u64, b: u64) -> u64 {
    ((a + b) % word_modulus()) as u64
}

/// Multiplication modulo 2^64 is associative.
proof fn lemma_mul_wrapped_associative(a: u64, b: u64, c: u64)
    ensures
        mul_wrapped(mul_wrapped(a, b), c) == mul_wrapped(a, mul_wrapped(b, c)),
{
    let m = word_modulus();
    lemma_mul_nonnegative(a as int, b as int);
    lemma_mul_nonnegative(b as int, c as int);
    lemma_mod_bound(a * b, m);
    lemma_mod_bound(b * c, m);
    lemma_mul_mod_noop_left(a * b, c as int, m);
    lemma_mul_mod_noop_right(a as int, b * c, m);
    lemma_mul_is_associative(a as int, b as int, c as int);
}

/// Addition modulo 2^64 is associative.
proof fn lemma_add_wrapped_associative(a: u64, b: u64, c: u64)
    ensures
        add_wrapped(add_wrapped(a, b), c) == add_wrapped(a, add_wrapped(b, c)),
{
    let m = word_modulus();
    lemma_mod_bound(a + b, m);
    lemma_mod_bound(b + c, m);
    lemma_add_mod_noop_right(c as int, a + b, m);
    lemma_add_mod_noop_right(a as int, b + c, m);
    assert(((a + b) % m + c) % m == (c + (a + b) % m) % m);
    assert((c + (a + b)) % m == (a + (b + c)) % m);
}

/// The monoid of `u64` under wrapping multiplication, with identity one.
pub struct MultiplicativeMonoid;

impl SemigroupOp<u64> for MultiplicativeMonoid {
    open spec fn spec_op(&self, a: u64, b: u64) -> u64 {
        mul_wrapped(a, b)
    }

    proof fn lemma_associative(&self, a: u64, b: u64, c: u64) {
        lemma_mul_wrapped_associative(a, b, c);
    }

    fn op(&self, a: u64, b: u64) -> u64 {
        proof {
            lemma_mul_nonnegative(a as int, b as int);
            lemma_mod_bound(a * b, word_modulus());
        }
        a.wrapping_mul(b)
    }
}

impl Monoid<u64> for MultiplicativeMonoid {
    open spec fn spec_identity(&self) -> u64 {
        1
    }

    proof fn lemma_identity(&self, a: u64) {
        lemma_small_mod(a as nat, word_modulus() as nat);
    }

    fn identity_element(&self) -> u64 {
        1
    }
}

/// The monoid of `u64` under wrapping addition, with identity zero.
pub struct AdditiveMonoid;

impl SemigroupOp<u64> for AdditiveMonoid {
    open spec fn spec_op(&self, a: u64, b: u64) -> u64 {
        add_wrapped(a, b)
    }

    proof fn lemma_associative(&self, a: u64, b: u64, c: u64) {
        lemma_add_wrapped_associative(a, b, c);
    }

    fn op(&self, a: u64, b: u64) -> u64 {
        proof {
            lemma_mod_bound(a + b, word_modulus());
            if a + b <= u64::MAX {
                lemma_small_mod((a + b) as nat, word_modulus() as nat);
            } else {
                lemma_small_mod((a + b - word_modulus()) as nat, word_modulus() as nat);
                lemma_mod_sub_multiples_vanish(a + b, word_modulus());
            }
        }
        a.wrapping_add(b)
    }
}

impl Monoid<u64> for AdditiveMonoid {
    open spec fn spec_identity(&self) -> u64 {
        0
    }

    proof fn lemma_identity(&self, a: u64) {
        lemma_small_mod(a as nat, word_modulus() as nat);
    }

    fn identity_element(&self) -> u64 {
        0
    }
}

} // verus!
