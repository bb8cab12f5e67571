use power_algorithms::ops::{AdditiveMonoid, MultiplicativeMonoid};
use power_algorithms::power::{
    power_accumulate, power_monoid, power_recursive, power_semigroup, power_semigroup_checked,
    PowerError,
};
use power_algorithms::traits::{Monoid, SemigroupOp};

/// The n-fold reduction of x computed the slow way: n - 1 applications of op.
fn repeated<M: SemigroupOp<u64>>(x: u64, n: u64, m: &M) -> u64 {
    let mut acc = x;
    let mut i = 1u64;
    while i < n {
        acc = m.op(acc, x);
        i += 1;
    }
    acc
}

#[test]
fn power_recursive_tests() {
    assert_eq!(power_recursive(2, 0), 1);
    assert_eq!(power_recursive(2, 1), 2);
    assert_eq!(power_recursive(2, 2), 4);
    assert_eq!(power_recursive(2, 3), 8);
    assert_eq!(power_recursive(2, 4), 16);
}

#[test]
fn power_recursive_matches_repeated_multiplication() {
    for x in 0u64..4 {
        for n in 0u64..=10 {
            let mut expected = 1u64;
            for _ in 0..n {
                expected *= x;
            }
            assert_eq!(power_recursive(x, n), expected);
        }
    }
}

#[test]
fn power_accumulate_mul() {
    let m = MultiplicativeMonoid;
    assert_eq!(power_accumulate(1, 2, 0, &m), 1);
    assert_eq!(power_accumulate(1, 2, 1, &m), 2);
    assert_eq!(power_accumulate(1, 2, 2, &m), 4);
    assert_eq!(power_accumulate(1, 2, 3, &m), 8);
    assert_eq!(power_accumulate(1, 2, 4, &m), 16);
}

#[test]
fn power_accumulate_combines_accumulator_with_power() {
    let mul = MultiplicativeMonoid;
    let add = AdditiveMonoid;
    for n in 1u64..=10 {
        assert_eq!(
            power_accumulate(5, 3, n, &mul),
            mul.op(5, power_semigroup(3, n, &mul))
        );
        assert_eq!(
            power_accumulate(5, 3, n, &add),
            add.op(5, power_semigroup(3, n, &add))
        );
    }
    assert_eq!(power_accumulate(5, 3, 0, &mul), 5);
    assert_eq!(power_accumulate(5, 3, 0, &add), 5);
}

#[test]
fn power_semigroup_mul() {
    let m = MultiplicativeMonoid;
    assert_eq!(power_semigroup(3, 1, &m), 3);
    assert_eq!(power_semigroup(3, 2, &m), 9);
    assert_eq!(power_semigroup(3, 3, &m), 27);
    assert_eq!(power_semigroup(3, 4, &m), 81);
}

#[test]
fn power_semigroup_add() {
    let m = AdditiveMonoid;
    assert_eq!(power_semigroup(3, 1, &m), 3);
    assert_eq!(power_semigroup(3, 2, &m), 6);
    assert_eq!(power_semigroup(3, 3, &m), 9);
    assert_eq!(power_semigroup(3, 4, &m), 12);
}

#[test]
fn power_semigroup_matches_fold() {
    let mul = MultiplicativeMonoid;
    let add = AdditiveMonoid;
    for n in 1u64..=10 {
        assert_eq!(power_semigroup(3, n, &mul), repeated(3, n, &mul));
        assert_eq!(power_semigroup(3, n, &add), repeated(3, n, &add));
    }
}

#[test]
fn power_monoid_mult_tests() {
    let m = MultiplicativeMonoid;
    assert_eq!(power_monoid(2, 0, &m), 1);
    assert_eq!(power_monoid(3, 1, &m), 3);
    assert_eq!(power_monoid(4, 2, &m), 16);
    assert_eq!(power_monoid(5, 3, &m), 125);
    assert_eq!(power_monoid(6, 4, &m), 1296);
}

#[test]
fn power_monoid_zero_exponent_gives_identity() {
    let mul = MultiplicativeMonoid;
    let add = AdditiveMonoid;
    for x in [0u64, 1, 7, u64::MAX] {
        assert_eq!(power_monoid(x, 0, &mul), mul.identity_element());
        assert_eq!(power_monoid(x, 0, &mul), 1);
        assert_eq!(power_monoid(x, 0, &add), add.identity_element());
        assert_eq!(power_monoid(x, 0, &add), 0);
    }
}

#[test]
fn power_semigroup_repeated_addition() {
    // Repeated addition, not multiplication: 3 + 3 + 3 == 9.
    assert_eq!(power_semigroup(3, 3, &AdditiveMonoid), 9);
}

#[test]
fn power_recursive_agrees_with_power_monoid() {
    let m = MultiplicativeMonoid;
    for x in 1u64..5 {
        for n in 0u64..=10 {
            assert_eq!(power_recursive(x, n), power_monoid(x, n, &m));
        }
    }
}

#[test]
fn checked_semigroup_rejects_zero_exponent() {
    let m = MultiplicativeMonoid;
    assert_eq!(power_semigroup_checked(3, 0, &m), Err(PowerError::InvalidExponent));
    for n in 1u64..=10 {
        assert_eq!(power_semigroup_checked(3, n, &m), Ok(power_semigroup(3, n, &m)));
    }
}

#[test]
fn monoid_operations_wrap_around() {
    let mul = MultiplicativeMonoid;
    let add = AdditiveMonoid;
    // 2^64 wraps to zero; u64::MAX + 1 wraps to zero.
    assert_eq!(power_monoid(2, 64, &mul), 0);
    assert_eq!(power_monoid(2, 63, &mul), 1u64 << 63);
    assert_eq!(add.op(u64::MAX, 1), 0);
    assert_eq!(mul.op(1u64 << 32, 1u64 << 32), 0);
}
