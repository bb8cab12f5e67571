//! A minimal 2x2 matrix over machine integers, intended as an operand type
//! for the exponentiation algorithms (for instance, fast Fibonacci numbers
//! via matrix powers).
//!
//! The matrix supports element-wise addition, the standard matrix product,
//! and an all-zero matrix with its zero test. Both methods are exact: the
//! caller guarantees that every entry of the result fits in a `u64`.
//!
//! To serve as an operand of the exponentiation algorithms the multiplication
//! must be total, so [`MatrixProduct`] offers it as a capability whose
//! entries wrap around modulo 2^64, mirroring the wrapping monoids in
//! [`crate::ops`]; on matrices whose exact product entries fit in a `u64` it
//! agrees with [`Matrix22::mul`].

use crate::ops::word_modulus;
use crate::traits::SemigroupOp;
use vstd::arithmetic::div_mod::{
    lemma_add_mod_noop, lemma_mod_bound, lemma_mod_sub_multiples_vanish, lemma_mul_mod_noop_left,
    lemma_mul_mod_noop_right, lemma_small_mod,
};
use vstd::arithmetic::mul::{
    lemma_mul_is_associative, lemma_mul_is_distributive_add,
    lemma_mul_is_distributive_add_other_way, lemma_mul_nonnegative,
};
use vstd::prelude::*;

verus! {

/// A 2x2 matrix of machine integers, row-major: `vRC` is the entry in row
/// `R`, column `C`.
#[derive(Clone, Copy, PartialEq, Eq, Structural, Debug)]
pub struct Matrix22 {
    pub v00: u64,
    pub v01: u64,
    pub v10: u64,
    pub v11: u64,
}

impl Matrix22 {
    /// Standard 2x2 matrix product; the caller guarantees that each
    /// multiply-add fits in a `u64`.
    pub fn mul(self, other: Matrix22) -> (r: Matrix22)
        requires
            self.v00 * other.v00 + self.v01 * other.v10 <= u64::MAX,
            self.v00 * other.v01 + self.v01 * other.v11 <= u64::MAX,
            self.v10 * other.v00 + self.v11 * other.v10 <= u64::MAX,
            self.v10 * other.v01 + self.v11 * other.v11 <= u64::MAX,
        ensures
            r.v00 == self.v00 * other.v00 + self.v01 * other.v10,
            r.v01 == self.v00 * other.v01 + self.v01 * other.v11,
            r.v10 == self.v10 * other.v00 + self.v11 * other.v10,
            r.v11 == self.v10 * other.v01 + self.v11 * other.v11,
    {
        proof {
            lemma_mul_nonnegative(self.v00 as int, other.v00 as int);
            lemma_mul_nonnegative(self.v01 as int, other.v10 as int);
            lemma_mul_nonnegative(self.v00 as int, other.v01 as int);
            lemma_mul_nonnegative(self.v01 as int, other.v11 as int);
            lemma_mul_nonnegative(self.v10 as int, other.v00 as int);
            lemma_mul_nonnegative(self.v11 as int, other.v10 as int);
            lemma_mul_nonnegative(self.v10 as int, other.v01 as int);
            lemma_mul_nonnegative(self.v11 as int, other.v11 as int);
        }
        Matrix22 {
            v00: self.v00 * other.v00 + self.v01 * other.v10,
            v01: self.v00 * other.v01 + self.v01 * other.v11,
            v10: self.v10 * other.v00 + self.v11 * other.v10,
            v11: self.v10 * other.v01 + self.v11 * other.v11,
        }
    }

    /// Element-wise sum; the caller guarantees that each entry sum fits in a
    /// `u64`.
    pub fn add(self, other: Matrix22) -> (r: Matrix22)
        requires
            self.v00 + other.v00 <= u64::MAX,
            self.v01 + other.v01 <= u64::MAX,
            self.v10 + other.v10 <= u64::MAX,
            self.v11 + other.v11 <= u64::MAX,
        ensures
            r.v00 == self.v00 + other.v00,
            r.v01 == self.v01 + other.v01,
            r.v10 == self.v10 + other.v10,
            r.v11 == self.v11 + other.v11,
    {
        Matrix22 {
            v00: self.v00 + other.v00,
            v01: self.v01 + other.v01,
            v10: self.v10 + other.v10,
            v11: self.v11 + other.v11,
        }
    }

    /// Whether this is the all-zero matrix.
    pub open spec fn spec_is_zero(self) -> bool {
        self.v00 == 0 && self.v01 == 0 && self.v10 == 0 && self.v11 == 0
    }

    /// True iff all four entries are zero.
    pub fn is_zero(&self) -> (r: bool)
        ensures
            r == self.spec_is_zero(),
    {
        self.v00 == 0 && self.v01 == 0 && self.v10 == 0 && self.v11 == 0
    }

    /// The all-zero matrix.
    pub fn zero() -> (r: Matrix22)
        ensures
            r.spec_is_zero(),
    {
        Matrix22 { v00: 0, v01: 0, v10: 0, v11: 0 }
    }
}

/// One entry of the wrapped matrix product: `p * q + r * s` modulo 2^64.
pub open spec fn entry_wrapped(p: int, q: int, r: int, s: int) -> int {
    (p * q + r * s) % word_modulus()
}

/// The 2x2 matrix product with each entry reduced modulo 2^64.
pub open spec fn mat_mul_wrapped(a: Matrix22, b: Matrix22) -> Matrix22 {
    Matrix22 {
        v00: entry_wrapped(a.v00 as int, b.v00 as int, a.v01 as int, b.v10 as int) as u64,
        v01: entry_wrapped(a.v00 as int, b.v01 as int, a.v01 as int, b.v11 as int) as u64,
        v10: entry_wrapped(a.v10 as int, b.v00 as int, a.v11 as int, b.v10 as int) as u64,
        v11: entry_wrapped(a.v10 as int, b.v01 as int, a.v11 as int, b.v11 as int) as u64,
    }
}

/// An entry lies in the range of `u64`, so casting it there loses nothing.
proof fn lemma_entry_in_range(p: int, q: int, r: int, s: int)
    ensures
        0 <= entry_wrapped(p, q, r, s) < word_modulus(),
{
    lemma_mod_bound(p * q + r * s, word_modulus());
}

/// Reducing both summands' left factors modulo 2^64 before a multiply-add
/// does not change the reduced result.
proof fn lemma_collapse_left(x: int, c: int, y: int, d: int)
    ensures
        ((x % word_modulus()) * c + (y % word_modulus()) * d) % word_modulus() == (x * c + y * d)
            % word_modulus(),
{
    let m = word_modulus();
    lemma_mul_mod_noop_left(x, c, m);
    lemma_mul_mod_noop_left(y, d, m);
    lemma_add_mod_noop((x % m) * c, (y % m) * d, m);
    lemma_add_mod_noop(x * c, y * d, m);
}

/// Reducing both summands' right factors modulo 2^64 before a multiply-add
/// does not change the reduced result.
proof fn lemma_collapse_right(a: int, x: int, b: int, y: int)
    ensures
        (a * (x % word_modulus()) + b * (y % word_modulus())) % word_modulus() == (a * x + b * y)
            % word_modulus(),
{
    let m = word_modulus();
    lemma_mul_mod_noop_right(a, x, m);
    lemma_mul_mod_noop_right(b, y, m);
    lemma_add_mod_noop(a * (x % m), b * (y % m), m);
    lemma_add_mod_noop(a * x, b * y, m);
}

/// Associativity of the wrapped product, one entry at a time: `p, q` is a row
/// of the left matrix, `u, v` a column of the right one, and `b00 .. b11` the
/// middle matrix.
proof fn lemma_entry_associative(
    p: int,
    q: int,
    b00: int,
    b01: int,
    b10: int,
    b11: int,
    u: int,
    v: int,
)
    ensures
        entry_wrapped(
            entry_wrapped(p, b00, q, b10),
            u,
            entry_wrapped(p, b01, q, b11),
            v,
        ) == entry_wrapped(
            p,
            entry_wrapped(b00, u, b01, v),
            q,
            entry_wrapped(b10, u, b11, v),
        ),
{
    let s1 = p * b00 + q * b10;
    let s2 = p * b01 + q * b11;
    let t1 = b00 * u + b01 * v;
    let t2 = b10 * u + b11 * v;
    lemma_collapse_left(s1, u, s2, v);
    lemma_collapse_right(p, t1, q, t2);
    lemma_mul_is_distributive_add_other_way(u, p * b00, q * b10);
    lemma_mul_is_distributive_add_other_way(v, p * b01, q * b11);
    lemma_mul_is_distributive_add(p, b00 * u, b01 * v);
    lemma_mul_is_distributive_add(q, b10 * u, b11 * v);
    lemma_mul_is_associative(p, b00, u);
    lemma_mul_is_associative(q, b10, u);
    lemma_mul_is_associative(p, b01, v);
    lemma_mul_is_associative(q, b11, v);
    assert(s1 * u + s2 * v == p * t1 + q * t2);
}

/// The 2x2 matrix product modulo 2^64 is associative.
proof fn lemma_mat_mul_wrapped_associative(a: Matrix22, b: Matrix22, c: Matrix22)
    ensures
        mat_mul_wrapped(mat_mul_wrapped(a, b), c) == mat_mul_wrapped(a, mat_mul_wrapped(b, c)),
{
    lemma_entry_in_range(a.v00 as int, b.v00 as int, a.v01 as int, b.v10 as int);
    lemma_entry_in_range(a.v00 as int, b.v01 as int, a.v01 as int, b.v11 as int);
    lemma_entry_in_range(a.v10 as int, b.v00 as int, a.v11 as int, b.v10 as int);
    lemma_entry_in_range(a.v10 as int, b.v01 as int, a.v11 as int, b.v11 as int);
    lemma_entry_in_range(b.v00 as int, c.v00 as int, b.v01 as int, c.v10 as int);
    lemma_entry_in_range(b.v00 as int, c.v01 as int, b.v01 as int, c.v11 as int);
    lemma_entry_in_range(b.v10 as int, c.v00 as int, b.v11 as int, c.v10 as int);
    lemma_entry_in_range(b.v10 as int, c.v01 as int, b.v11 as int, c.v11 as int);
    lemma_entry_associative(
        a.v00 as int,
        a.v01 as int,
        b.v00 as int,
        b.v01 as int,
        b.v10 as int,
        b.v11 as int,
        c.v00 as int,
        c.v10 as int,
    );
    lemma_entry_associative(
        a.v00 as int,
        a.v01 as int,
        b.v00 as int,
        b.v01 as int,
        b.v10 as int,
        b.v11 as int,
        c.v01 as int,
        c.v11 as int,
    );
    lemma_entry_associative(
        a.v10 as int,
        a.v11 as int,
        b.v00 as int,
        b.v01 as int,
        b.v10 as int,
        b.v11 as int,
        c.v00 as int,
        c.v10 as int,
    );
    lemma_entry_associative(
        a.v10 as int,
        a.v11 as int,
        b.v00 as int,
        b.v01 as int,
        b.v10 as int,
        b.v11 as int,
        c.v01 as int,
        c.v11 as int,
    );
}

/// One entry of the wrapped matrix product, executed with wrapping machine
/// arithmetic.
fn entry_mul_add(p: u64, q: u64, r: u64, s: u64) -> (e: u64)
    ensures
        e == entry_wrapped(p as int, q as int, r as int, s as int),
{
    let w = p.wrapping_mul(q);
    let z = r.wrapping_mul(s);
    proof {
        let m = word_modulus();
        lemma_mul_nonnegative(p as int, q as int);
        lemma_mul_nonnegative(r as int, s as int);
        lemma_mod_bound(p * q, m);
        lemma_mod_bound(r * s, m);
        lemma_add_mod_noop(p * q, r * s, m);
        if w + z <= u64::MAX {
            lemma_small_mod((w + z) as nat, m as nat);
        } else {
            lemma_small_mod((w + z - m) as nat, m as nat);
            lemma_mod_sub_multiples_vanish(w + z, m);
        }
    }
    w.wrapping_add(z)
}

/// Matrix multiplication as a semigroup capability: the standard 2x2 product
/// with each entry reduced modulo 2^64, total over all matrices, so that a
/// matrix can be the operand of the exponentiation algorithms.
pub struct MatrixProduct;

impl SemigroupOp<Matrix22> for MatrixProduct {
    open spec fn spec_op(&self, a: Matrix22, b: Matrix22) -> Matrix22 {
        mat_mul_wrapped(a, b)
    }

    proof fn lemma_associative(&self, a: Matrix22, b: Matrix22, c: Matrix22) {
        lemma_mat_mul_wrapped_associative(a, b, c);
    }

    fn op(&self, a: Matrix22, b: Matrix22) -> Matrix22 {
        Matrix22 {
            v00: entry_mul_add(a.v00, b.v00, a.v01, b.v10),
            v01: entry_mul_add(a.v00, b.v01, a.v01, b.v11),
            v10: entry_mul_add(a.v10, b.v00, a.v11, b.v10),
            v11: entry_mul_add(a.v10, b.v01, a.v11, b.v11),
        }
    }
}

impl Default for Matrix22 {
    /// The default matrix is the all-zero matrix.
    fn default() -> (r: Matrix22)
        ensures
            r.spec_is_zero(),
    {
        Matrix22 { v00: 0, v01: 0, v10: 0, v11: 0 }
    }
}

} // verus!
