use power_algorithms::ops;
use power_algorithms::traits::MulOp;

#[test]
fn exact_mul_and_add() {
    assert_eq!(ops::mul(3, 4), 12);
    assert_eq!(ops::mul(0, u64::MAX), 0);
    assert_eq!(ops::mul(1, u64::MAX), u64::MAX);
    assert_eq!(ops::add(3, 4), 7);
    assert_eq!(ops::add(0, u64::MAX), u64::MAX);
}

#[test]
fn bool_mul_op_is_conjunction() {
    assert_eq!(true.mul_op(true), true);
    assert_eq!(true.mul_op(false), false);
    assert_eq!(false.mul_op(true), false);
    assert_eq!(false.mul_op(false), false);
}
