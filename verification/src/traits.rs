//! Capability traits for the operations the exponentiation algorithms are
//! generic over.
//!
//! An operation is injected as a value of a type implementing
//! [`SemigroupOp`] (an associative binary operation) or [`Monoid`] (an
//! associative binary operation together with its identity element). Each
//! capability carries a specification-level description of its operation
//! (`spec_op`, `spec_identity`) and proof obligations for the algebraic laws,
//! so every implementation is held to associativity and to the identity laws.

use vstd::prelude::*;

verus! {

/// A multiplication-like operation, described at the specification level by
/// `spec_mul_op`.
pub trait MulOp<Rhs = Self> where Self: Sized {
    type Output;

    /// What `mul_op` returns.
    spec fn spec_mul_op(self, rhs: Rhs) -> Self::Output;

    fn mul_op(self, rhs: Rhs) -> (r: Self::Output)
        ensures
            r == self.spec_mul_op(rhs),
    ;
}

impl MulOp for bool {
    type Output = bool;

    open spec fn spec_mul_op(self, rhs: bool) -> bool {
        self && rhs
    }

    fn mul_op(self, rhs: bool) -> bool {
        self && rhs
    }
}

/// An associative binary operation over `T`, passed to the algorithms as a
/// capability value.
///
/// `spec_op` is the mathematical description of the operation; the exec
/// method `op` must return exactly that value, and `lemma_associative`
/// obliges every implementation to prove associativity, which is what the
/// exponentiation algorithms rely on.
pub trait SemigroupOp<T> where Self: Sized {
    /// What `op` computes.
    spec fn spec_op(&self, a: T, b: T) -> T;

    /// The operation is associative.
    proof fn lemma_associative(&self, a: T, b: T, c: T)
        ensures
            self.spec_op(self.spec_op(a, b), c) == self.spec_op(a, self.spec_op(b, c)),
    ;

    /// Applies the operation.
    fn op(&self, a: T, b: T) -> (r: T)
        ensures
            r == self.spec_op(a, b),
    ;
}

/// A semigroup operation together with its identity element.
///
/// `lemma_identity` obliges every implementation to prove that
/// `spec_identity` is a two-sided identity for `spec_op`.
pub trait Monoid<T>: SemigroupOp<T> {
    /// What `identity_element` returns.
    spec fn spec_identity(&self) -> T;

    /// The identity element is neutral on both sides.
    proof fn lemma_identity(&self, a: T)
        ensures
            self.spec_op(self.spec_identity(), a) == a,
            self.spec_op(a, self.spec_identity()) == a,
    ;

    /// Returns the identity element of the operation.
    fn identity_element(&self) -> (r: T)
        ensures
            r == self.spec_identity(),
    ;
}

} // verus!
