use power_algorithms::integer::{half, is_odd};

#[test]
fn test_half() {
    assert_eq!(half(2), 1);
    assert_eq!(half(3), 1);
    assert_eq!(half(7), 3);
}

#[test]
fn half_of_even_and_odd() {
    for n in 0u64..200 {
        assert_eq!(half(2 * n), n);
        assert_eq!(half(2 * n + 1), n);
    }
    assert_eq!(half(u64::MAX), u64::MAX / 2);
    assert_eq!(half(0), 0);
}

#[test]
fn is_odd_parity() {
    for n in 0u64..200 {
        assert!(!is_odd(2 * n));
        assert!(is_odd(2 * n + 1));
    }
    assert!(is_odd(u64::MAX));
    assert!(!is_odd(0));
}
