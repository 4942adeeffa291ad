use cgm::prelude::{Vec2, Vec3, Vec4};

#[test]
fn comparison_masks() {
    assert_eq!(Vec2 { x: true, y: false }, Vec2::new(1, 2).eq(Vec2::new(1, -2)));
    assert_eq!(Vec2 { x: false, y: true }, Vec2::new(1, 2).ne(Vec2::new(1, -2)));
    assert_eq!(Vec3 { x: true, y: false, z: false }, Vec3::new(1, 5, 9).lt(Vec3::new(2, 5, 8)));
    assert_eq!(Vec3 { x: true, y: true, z: false }, Vec3::new(1, 5, 9).le(Vec3::new(2, 5, 8)));
    assert_eq!(Vec3 { x: false, y: false, z: true }, Vec3::new(1, 5, 9).gt(Vec3::new(2, 5, 8)));
    assert_eq!(Vec3 { x: false, y: true, z: true }, Vec3::new(1, 5, 9).ge(Vec3::new(2, 5, 8)));
}

#[test]
fn closure_masks() {
    assert_eq!(Vec2 { x: false, y: true }, Vec2::new(1, 2).mask(|c: i32| c > 1));
    assert_eq!(
        Vec4 { x: true, y: false, z: true, w: false },
        Vec4::new(1, 2, 3, 4).masked(Vec4::new(1, 0, 3, 0), |a: i32, b: i32| a == b)
    );
}

#[test]
fn elementwise_identity() {
    for v in [Vec2::new(0, 0), Vec2::new(-5, 9), Vec2::new(i32::MIN, i32::MAX)] {
        assert!(v.eq(v).all());
        assert!(!v.lt(v).any());
    }
    let v3 = Vec3::new(7, -7, 0);
    assert!(v3.eq(v3).all());
    assert!(!v3.lt(v3).any());
    let v4 = Vec4::new(1, 2, 3, 4);
    assert!(v4.eq(v4).all());
    assert!(!v4.lt(v4).any());
}

#[test]
fn select_merges_by_mask() {
    let picked = Vec3::new(1, 2, 3).select(Vec3::new(10, 20, 30), Vec3::new(true, false, true));
    assert_eq!(picked, Vec3::new(1, 20, 3));
    let none_picked = Vec2::new(1, 2).select(Vec2::new(10, 20), Vec2::new(false, false));
    assert_eq!(none_picked, Vec2::new(10, 20));
}

#[test]
fn mask_reductions() {
    assert!(Vec2 { x: true, y: false }.any());
    assert!(Vec2 { x: true, y: true }.all());
    assert!(Vec2 { x: false, y: false }.none());
    assert!(!Vec2 { x: true, y: false }.all());
    assert!(!Vec2 { x: false, y: false }.any());
    assert!(!Vec2 { x: true, y: false }.none());
    assert!(Vec4::new(false, false, false, true).any());
}

#[test]
fn mask_boolean_operators() {
    let a = Vec2::new(true, false);
    let b = Vec2::new(true, true);
    assert_eq!(a.bitand(b), Vec2::new(true, false));
    assert_eq!(a.bitor(b), Vec2::new(true, true));
    assert_eq!(a.bitxor(b), Vec2::new(false, true));
    assert_eq!(a.not(), Vec2::new(false, true));
}
