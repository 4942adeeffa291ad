use cgm::prelude::{ToText, Vec2, Vec3, Vec4};

#[test]
fn vector_text() {
    assert_eq!(Vec3::new(2, 3, 4).to_text(), "(2, 3, 4)");
    assert_eq!(Vec2::new(-5, 9).to_text(), "(-5, 9)");
    assert_eq!(Vec4::new(1, 22, 333, 4444).to_text(), "(1, 22, 333, 4444)");
    assert_eq!(Vec2::new(16u8, 25u8).to_text(), "(16, 25)");
}

#[test]
fn scalar_text() {
    assert_eq!(0i32.to_text(), "0");
    assert_eq!((-1i32).to_text(), "-1");
    assert_eq!(i32::MIN.to_text(), "-2147483648");
    assert_eq!(i32::MAX.to_text(), "2147483647");
    assert_eq!(i64::MIN.to_text(), "-9223372036854775808");
    assert_eq!(u64::MAX.to_text(), "18446744073709551615");
    assert_eq!(1000000u32.to_text(), "1000000");
}

#[test]
fn identities_and_casts_render() {
    assert_eq!(Vec2::<i32>::unit_x().to_text(), "(1, 0)");
    assert_eq!(Vec3::new(-5i32, 9, 0).cast::<i64>().to_text(), "(-5, 9, 0)");
}
