use power_algorithms::matrix::{Matrix22, MatrixProduct};
use power_algorithms::power::power_semigroup;
use power_algorithms::traits::SemigroupOp;

#[test]
fn test_mul() {
    let m1 = Matrix22 { v00: 1, v01: 2, v10: 3, v11: 4 };
    let m2 = Matrix22 { v00: 4, v01: 3, v10: 2, v11: 1 };
    let m3 = m1.mul(m2);
    assert_eq!(m3.v00, 8);
}

#[test]
fn test_zero() {
    let m = Matrix22 { v00: 1, v01: 2, v10: 3, v11: 4 };
    assert!(!m.is_zero());
    let m = Matrix22 { v00: 0, v01: 2, v10: 3, v11: 4 };
    assert!(!m.is_zero());
    let m = Matrix22 { v00: 1, v01: 0, v10: 3, v11: 4 };
    assert!(!m.is_zero());
    let m = Matrix22 { v00: 1, v01: 2, v10: 0, v11: 4 };
    assert!(!m.is_zero());
    let m = Matrix22 { v00: 1, v01: 2, v10: 3, v11: 0 };
    assert!(!m.is_zero());
    assert!(Matrix22::zero().is_zero())
}

#[test]
fn matrix_product_entries() {
    let m1 = Matrix22 { v00: 1, v01: 2, v10: 3, v11: 4 };
    let m2 = Matrix22 { v00: 4, v01: 3, v10: 2, v11: 1 };
    let m3 = m1.mul(m2);
    assert_eq!(m3, Matrix22 { v00: 8, v01: 5, v10: 20, v11: 13 });
}

#[test]
fn matrix_sum_entries() {
    let m1 = Matrix22 { v00: 1, v01: 2, v10: 3, v11: 4 };
    let m2 = Matrix22 { v00: 40, v01: 30, v10: 20, v11: 10 };
    assert_eq!(m1.add(m2), Matrix22 { v00: 41, v01: 32, v10: 23, v11: 14 });
}

#[test]
fn matrix_product_capability_agrees_with_exact_product() {
    let m1 = Matrix22 { v00: 1, v01: 2, v10: 3, v11: 4 };
    let m2 = Matrix22 { v00: 4, v01: 3, v10: 2, v11: 1 };
    assert_eq!(MatrixProduct.op(m1, m2), m1.mul(m2));
}

#[test]
fn matrix_power_computes_fibonacci() {
    // Powers of [[1, 1], [1, 0]] hold consecutive Fibonacci numbers.
    let q = Matrix22 { v00: 1, v01: 1, v10: 1, v11: 0 };
    let mut a = 1u64; // fib(k + 1)
    let mut b = 0u64; // fib(k)
    for n in 1u64..=20 {
        let t = a + b;
        b = a;
        a = t;
        let p = power_semigroup(q, n, &MatrixProduct);
        assert_eq!(p.v00, a);
        assert_eq!(p.v01, b);
        assert_eq!(p.v10, b);
    }
}

#[test]
fn matrix_default_is_zero() {
    assert!(Matrix22::default().is_zero());
    assert_eq!(Matrix22::default(), Matrix22::zero());
}
