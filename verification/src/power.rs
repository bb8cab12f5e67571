//! The exponentiation algorithms: four variants of power by repeated
//! squaring, each computing its result in O(log n) operator applications.
//!
//! [`power_recursive`] is fixed to exact `u64` multiplication. The other
//! variants are generic over the operation, injected as a capability value:
//! [`power_accumulate`] combines an accumulator with a power under any
//! associative operation, [`power_semigroup`] raises to exponents of at least
//! one (no identity element needed), and [`power_monoid`] handles any
//! exponent using the monoid's identity element for zero.

use crate::integer;
use crate::ops::{word_modulus, MultiplicativeMonoid};
use crate::traits::{Monoid, SemigroupOp};
use vstd::arithmetic::div_mod::{lemma_mod_bound, lemma_mul_mod_noop_left, lemma_small_mod};
use vstd::arithmetic::mul::lemma_mul_is_commutative;
use vstd::arithmetic::power::{
    lemma0_pow, lemma_pow0, lemma_pow1, lemma_pow_adds, lemma_pow_increases, lemma_pow_multiplies,
    lemma_pow_positive, lemma_square_is_pow2, pow,
};
use vstd::prelude::*;

verus! {

/// The `n`-fold reduction of `x` under `m`'s operation, for `n >= 1`:
/// `x^1 == x` and `x^(k+1) == op(x^k, x)`.
pub open spec fn spec_power<T, M: SemigroupOp<T>>(m: &M, x: T, n: nat) -> T
    decreases n,
{
    if n <= 1 {
        x
    } else {
        m.spec_op(spec_power(m, x, (n - 1) as nat), x)
    }
}

/// What [`power_monoid`] computes: the identity element for a zero exponent,
/// and the `n`-fold reduction of `x` otherwise.
pub open spec fn spec_power_monoid<T, M: Monoid<T>>(m: &M, x: T, n: nat) -> T {
    if n == 0 {
        m.spec_identity()
    } else {
        spec_power(m, x, n)
    }
}

/// Powers of the same base combine by adding the exponents.
pub proof fn lemma_power_adds<T, M: SemigroupOp<T>>(m: &M, x: T, a: nat, b: nat)
    requires
        a >= 1,
        b >= 1,
    ensures
        spec_power(m, x, a + b) == m.spec_op(spec_power(m, x, a), spec_power(m, x, b)),
    decreases b,
{
    if b == 1 {
        assert(spec_power(m, x, a + 1) == m.spec_op(spec_power(m, x, a), x));
    } else {
        lemma_power_adds(m, x, a, (b - 1) as nat);
        m.lemma_associative(spec_power(m, x, a), spec_power(m, x, (b - 1) as nat), x);
        assert(spec_power(m, x, a + b) == m.spec_op(spec_power(m, x, (a + b - 1) as nat), x));
        assert(spec_power(m, x, b) == m.spec_op(spec_power(m, x, (b - 1) as nat), x));
    }
}

/// Squaring the base halves the exponent: the `k`-fold reduction of
/// `op(x, x)` is the `2 * k`-fold reduction of `x`.
pub proof fn lemma_power_of_square<T, M: SemigroupOp<T>>(m: &M, x: T, k: nat)
    requires
        k >= 1,
    ensures
        spec_power(m, m.spec_op(x, x), k) == spec_power(m, x, 2 * k),
    decreases k,
{
    let y = m.spec_op(x, x);
    if k == 1 {
        assert(spec_power(m, x, 2) == m.spec_op(spec_power(m, x, 1), x));
        assert(spec_power(m, x, 1) == x);
    } else {
        lemma_power_of_square(m, x, (k - 1) as nat);
        assert(spec_power(m, y, k) == m.spec_op(spec_power(m, y, (k - 1) as nat), y));
        assert(spec_power(m, x, 2 * k) == m.spec_op(spec_power(m, x, (2 * k - 1) as nat), x));
        assert(spec_power(m, x, (2 * k - 1) as nat) == m.spec_op(
            spec_power(m, x, (2 * k - 2) as nat),
            x,
        ));
        m.lemma_associative(spec_power(m, x, (2 * k - 2) as nat), x, x);
    }
}

/// Recursive exponentiation by repeated squaring, fixed to exact `u64`
/// multiplication. Returns one (the multiplicative identity) for a zero
/// exponent; the caller guarantees that the exact power fits in a `u64`.
pub fn power_recursive(x: u64, n: u64) -> (res: u64)
    requires
        pow(x as int, n as nat) <= u64::MAX,
    ensures
        res == pow(x as int, n as nat),
    decreases n,
{
    if n == 0 {
        proof {
            lemma_pow0(x as int);
        }
        1
    } else if n == 1 {
        proof {
            lemma_pow1(x as int);
        }
        x
    } else {
        proof {
            lemma_square_is_pow2(x as int);
            lemma_pow_multiplies(x as int, 2, (n / 2) as nat);
            if x == 0 {
                lemma0_pow((n / 2) as nat);
                lemma0_pow((n - 1) as nat);
                lemma0_pow(n as nat);
            } else {
                lemma_pow_increases(x as nat, 2, n as nat);
                lemma_pow_increases(x as nat, (2 * (n / 2)) as nat, n as nat);
            }
            lemma_pow_adds(x as int, (n - 1) as nat, 1);
            lemma_pow1(x as int);
        }
        if integer::is_odd(n) {
            let s = x * x;
            let rec = power_recursive(s, integer::half(n));
            proof {
                assert(rec == pow(x as int, (n - 1) as nat));
                assert(pow(x as int, n as nat) == pow(x as int, (n - 1) as nat) * x);
                lemma_mul_is_commutative(x as int, rec as int);
            }
            x * rec
        } else {
            power_recursive(x * x, integer::half(n))
        }
    }
}

/// Iterative accumulation: combines `r` with the `n`-fold reduction of `x`
/// under `m`'s operation, returning `r` itself for a zero exponent.
#[verifier::loop_isolation(false)]
pub fn power_accumulate<T: Copy, M: SemigroupOp<T>>(r: T, x: T, n: u64, m: &M) -> (res: T)
    ensures
        n == 0 ==> res == r,
        n >= 1 ==> res == m.spec_op(r, spec_power(m, x, n as nat)),
{
    if n == 0 {
        return r;
    }
    let ghost goal = m.spec_op(r, spec_power(m, x, n as nat));
    let mut r = r;
    let mut x = x;
    let mut n = n;
    loop
        invariant
            1 <= n,
            m.spec_op(r, spec_power(m, x, n as nat)) == goal,
        decreases n,
    {
        let ghost r0 = r;
        let ghost x0 = x;
        let ghost n0 = n;
        if integer::is_odd(n) {
            r = m.op(r, x);
            if n == 1 {
                assert(spec_power(m, x, 1) == x);
                return r;
            }
        }
        proof {
            lemma_power_of_square(m, x0, (n0 / 2) as nat);
            if n0 % 2 == 1 {
                lemma_power_adds(m, x0, 1, (n0 - 1) as nat);
                assert(spec_power(m, x0, 1) == x0);
                m.lemma_associative(r0, x0, spec_power(m, x0, (n0 - 1) as nat));
            }
        }
        n = integer::half(n);
        x = m.op(x, x);
    }
}

/// Iterative exponentiation over a semigroup: the `n`-fold reduction of `x`
/// under `m`'s operation, for exponents of at least one (the operation needs
/// no identity element).
#[verifier::loop_isolation(false)]
pub fn power_semigroup<T: Copy, M: SemigroupOp<T>>(x: T, n: u64, m: &M) -> (res: T)
    requires
        n >= 1,
    ensures
        res == spec_power(m, x, n as nat),
{
    let ghost gx = x;
    let ghost gn = n;
    let mut x = x;
    let mut n = n;
    while !integer::is_odd(n)
        invariant
            1 <= n,
            spec_power(m, x, n as nat) == spec_power(m, gx, gn as nat),
        decreases n,
    {
        let ghost x0 = x;
        let ghost n0 = n;
        proof {
            lemma_power_of_square(m, x0, (n0 / 2) as nat);
        }
        x = m.op(x, x);
        n = integer::half(n);
    }
    if n == 1 {
        assert(spec_power(m, x, 1) == x);
        return x;
    }
    proof {
        lemma_power_of_square(m, x, ((n - 1) / 2) as nat);
        lemma_power_adds(m, x, 1, (n - 1) as nat);
        assert(spec_power(m, x, 1) == x);
    }
    let s = m.op(x, x);
    power_accumulate(x, s, integer::half(n - 1), m)
}

/// A domain violation: the exponent lies outside the domain of the chosen
/// variant.
#[derive(Clone, Copy, Debug, PartialEq, Eq, Structural)]
pub enum PowerError {
    /// The exponent was zero, and the operation has no identity element to
    /// return for it.
    InvalidExponent,
}

/// Checked semigroup exponentiation: fails fast on the unsupported zero
/// exponent instead of presupposing it away, and otherwise returns the
/// `n`-fold reduction of `x` under `m`'s operation.
pub fn power_semigroup_checked<T: Copy, M: SemigroupOp<T>>(x: T, n: u64, m: &M) -> (res: Result<
    T,
    PowerError,
>)
    ensures
        n == 0 ==> res == Result::<T, PowerError>::Err(PowerError::InvalidExponent),
        n >= 1 ==> res == Result::<T, PowerError>::Ok(spec_power(m, x, n as nat)),
{
    if n == 0 {
        return Err(PowerError::InvalidExponent);
    }
    Ok(power_semigroup(x, n, m))
}

/// Fully general exponentiation over a monoid: returns the identity element
/// for a zero exponent and the `n`-fold reduction of `x` otherwise.
pub fn power_monoid<T: Copy, M: Monoid<T>>(x: T, n: u64, m: &M) -> (res: T)
    ensures
        res == spec_power_monoid(m, x, n as nat),
        n == 0 ==> res == m.spec_identity(),
{
    if n == 0 {
        return m.identity_element();
    }
    power_semigroup(x, n, m)
}

/// The `n`-fold reduction under the wrapping multiplicative monoid is the
/// mathematical power reduced modulo 2^64.
proof fn lemma_multiplicative_power_mod(x: u64, n: nat)
    requires
        n >= 1,
    ensures
        spec_power(&MultiplicativeMonoid, x, n) == pow(x as int, n) % word_modulus(),
    decreases n,
{
    let m = word_modulus();
    if n == 1 {
        lemma_pow1(x as int);
        lemma_small_mod(x as nat, m as nat);
    } else {
        lemma_multiplicative_power_mod(x, (n - 1) as nat);
        let p = pow(x as int, (n - 1) as nat);
        lemma_mod_bound(p, m);
        lemma_mul_mod_noop_left(p, x as int, m);
        lemma_pow_adds(x as int, (n - 1) as nat, 1);
        lemma_pow1(x as int);
        lemma_mod_bound(p * x, m);
        assert(spec_power(&MultiplicativeMonoid, x, n) == (&MultiplicativeMonoid).spec_op(
            spec_power(&MultiplicativeMonoid, x, (n - 1) as nat),
            x,
        ));
    }
}

/// Consistency of the variants: on any input whose exact power fits in a
/// `u64`, exponentiation over the multiplicative monoid returns exactly the
/// mathematical power — the same value `power_recursive` returns, and, for
/// exponents of at least one, the same value `power_semigroup` returns.
pub proof fn lemma_power_monoid_matches_power_recursive(x: u64, n: u64)
    requires
        pow(x as int, n as nat) <= u64::MAX,
    ensures
        spec_power_monoid(&MultiplicativeMonoid, x, n as nat) == pow(x as int, n as nat),
{
    if n == 0 {
        lemma_pow0(x as int);
    } else {
        lemma_multiplicative_power_mod(x, n as nat);
        if x == 0 {
            lemma0_pow(n as nat);
        } else {
            lemma_pow_positive(x as int, n as nat);
        }
        lemma_small_mod(pow(x as int, n as nat) as nat, word_modulus() as nat);
    }
}

} // verus!
