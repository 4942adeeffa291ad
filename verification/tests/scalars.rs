use cgm::prelude::{Abs, Cast, Int, Max, Min, One, Scalar, Zero};

#[test]
fn identities() {
    assert_eq!(i32::zero(), 0);
    assert_eq!(i64::zero(), 0);
    assert_eq!(i32::one(), 1);
    assert_eq!(i64::one(), 1);
}

#[test]
fn min_max_abs() {
    assert_eq!(Min::min(3i32, -4), -4);
    assert_eq!(Max::max(3i32, -4), 3);
    assert_eq!(Min::min(5i64, 5), 5);
    assert_eq!(Abs::abs(-7i32), 7);
    assert_eq!(Abs::abs(7i64), 7);
}

#[test]
fn casts_truncate_like_native_narrowing() {
    assert_eq!(Cast::<i64>::cast(-5i32), -5i64);
    assert_eq!(Cast::<i32>::cast(-5i64), -5i32);
    assert_eq!(Cast::<i32>::cast(1i64 << 40), 0i32);
    assert_eq!(Cast::<i32>::cast(i64::MAX), -1i32);
    assert_eq!(Cast::<i32>::cast(0x1_2345_6789i64), 0x2345_6789i32);
}

#[test]
fn scalar_arithmetic() {
    assert_eq!(Scalar::add(2i32, 3), 5);
    assert_eq!(Scalar::sub(2i32, 3), -1);
    assert_eq!(Scalar::mul(-4i64, 5), -20);
    assert_eq!(Scalar::div(-7i32, 2), -3);
    assert_eq!(Scalar::rem(-7i32, 2), -1);
    assert_eq!(Scalar::div(7i64, -2), -3);
    assert_eq!(Scalar::rem(7i64, -2), 1);
    assert_eq!(Scalar::neg(9i32), -9);
}

#[test]
fn scalar_comparisons() {
    assert!(Scalar::lt(1i32, 2));
    assert!(!Scalar::lt(2i32, 2));
    assert!(Scalar::le(2i32, 2));
    assert!(Scalar::gt(3i64, 2));
    assert!(Scalar::ge(2i64, 2));
    assert!(Scalar::eq_val(2i32, 2));
    assert!(Scalar::ne_val(2i32, 3));
}

#[test]
fn integer_bitwise() {
    assert_eq!(Int::bitand(0b1100i32, 0b1010), 0b1000);
    assert_eq!(Int::bitor(0b1100i64, 0b1010), 0b1110);
    assert_eq!(Int::bitxor(0b1100i32, 0b1010), 0b0110);
    assert_eq!(Int::not(0i32), -1);
}
