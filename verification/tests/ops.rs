use cgm::prelude::{Abs, Max, Min, Vec2, Vec3, Vec4};

#[test]
fn construction() {
    assert_eq!(Vec2 { x: 1, y: 2 }, Vec2::new(1, 2));
    assert_eq!(Vec3 { x: 42, y: 42, z: 42 }, Vec3::dup(42));
    assert_eq!(Vec2 { x: 0, y: 1 }, Vec2::unit_y());
    assert_eq!(Vec3 { x: 1, y: 0, z: 0 }, Vec3::unit_x());
    assert_eq!(Vec4 { x: 0, y: 0, z: 0, w: 1 }, Vec4::unit_w());
}

#[test]
fn setters() {
    assert_eq!(Vec3 { x: -12, y: 0, z: 12 }, Vec3::new(0, 0, 0).set_x(-12).set_z(12));
    assert_eq!(Vec2 { x: 7, y: 2 }, Vec2::new(1, 2).set_x(7));
    assert_eq!(Vec4 { x: 1, y: 9, z: 3, w: 4 }, Vec4::new(1, 2, 3, 4).set_y(9));
}

#[test]
fn extend_truncate() {
    assert_eq!(Vec3 { x: 3, y: 4, z: 5 }, Vec2::new(3, 4).vec3(5));
    assert_eq!(Vec4 { x: -1, y: -2, z: -3, w: -4 }, Vec3::new(-1, -2, -3).vec4(-4));
    assert_eq!(Vec4 { x: 1, y: 2, z: 3, w: 4 }, Vec2::new(1, 2).vec4(3, 4));
    assert_eq!(Vec2 { x: 2, y: 1 }, Vec3::new(2, 1, 0).xy());
    assert_eq!(Vec2 { x: 1, y: 2 }, Vec4::new(1, 2, 3, 4).xy());
    assert_eq!(Vec3 { x: 1, y: 2, z: 3 }, Vec4::new(1, 2, 3, 4).xyz());
}

#[test]
fn conversions() {
    assert_eq!(Vec2::from((2, 3)), Vec2::from([2, 3]));
    assert_eq!(Vec3::from((1, 2, 3)), Vec3::new(1, 2, 3));
    assert_eq!(Vec4::from([1, 2, 3, 4]), Vec4::new(1, 2, 3, 4));
    assert_eq!(Vec2::new(1, 2).into_tuple(), (1, 2));
    assert_eq!(Vec3::new(1, 2, 3).into_array(), [1, 2, 3]);
    assert_eq!(Vec4::new(1, 2, 3, 4).into_tuple(), (1, 2, 3, 4));
}

#[test]
fn transforms() {
    assert_eq!(Vec2 { x: 2, y: 4 }, Vec2::new(1, 2).map(|c: i32| c * 2));
    let left = Vec2::new(1, 2);
    let right = Vec2::new(1, -1);
    assert_eq!(Vec2 { x: 3, y: 3 }, Vec2::zip(left, right, |a: i32, b: i32| a * 2 + b));
    assert_eq!(Vec2 { x: -5, y: 9 }.cast::<i64>(), Vec2 { x: -5i64, y: 9i64 });
    assert_eq!(Vec3::new(1i64, -7, 1 << 40).cast::<i32>(), Vec3::new(1i32, -7, 0));
}

#[test]
fn fold_order() {
    let vec = Vec3::new(5, 3, 2);
    assert_eq!(0, vec.reduce(|acc: i32, c: i32| acc - c));
    assert_eq!(-10, vec.fold(0, |acc: i32, c: i32| acc - c));
    assert_eq!(1, Vec2::new(3, 2).reduce(|acc: i32, c: i32| acc - c));
    assert_eq!(-10, Vec4::new(1, 2, 3, 4).fold(0, |acc: i32, c: i32| acc - c));
    assert_eq!(-8, Vec4::new(1, 2, 3, 4).reduce(|acc: i32, c: i32| acc - c));
}

#[test]
fn geometry() {
    assert_eq!(Vec2 { x: 9, y: 16 }, Vec2::new(3, 4).sqr());
    assert_eq!(25, Vec2::new(3, 4).len_sqr());
    assert_eq!(2, Vec2::new(1, 1).dist_sqr(Vec2::new(2, 2)));
    assert_eq!(25, Vec3::new(10, 10, 0).dist_sqr(Vec3::new(13, 14, 0)));
    assert_eq!(12, Vec3::new(3, 4, 5).hadd());
    assert_eq!(-1, Vec2::new(3, 4).hsub());
    assert_eq!(12, Vec3::new(1, 2, 3).dot(Vec3::new(4, -5, 6)));
}

#[test]
fn planar_rotation() {
    assert_eq!(Vec2 { x: 4, y: -3 }, Vec2::new(3, 4).ccw());
    assert_eq!(Vec2 { x: -4, y: 3 }, Vec2::new(3, 4).cw());
}

#[test]
fn cross_products() {
    assert_eq!(10, Vec2::cross(Vec2::new(3, 4), Vec2::new(-1, 2)));
    assert_eq!(
        Vec3 { x: -12, y: 1, z: 39 },
        Vec3::cross((3, -3, 1).into(), (4, 9, 1).into())
    );
}

#[test]
fn componentwise_operators() {
    assert_eq!(Vec3::new(1, 7, 2).abs(), Vec3::new(1, 7, 2));
    assert_eq!(Vec3::new(-1, 7, -2).abs(), Vec3::new(1, 7, 2));
    assert_eq!(Vec2::new(1, 9).min(Vec2::new(4, -2)), Vec2::new(1, -2));
    assert_eq!(Vec2::new(1, 9).max(Vec2::new(4, -2)), Vec2::new(4, 9));
    assert_eq!(Vec2::new(1, 2).mul_add(Vec2::new(10, 20), 3), Vec2::new(31, 62));
    assert_eq!(Vec2::new(1, 2).add(Vec2::new(10, 20)), Vec2::new(11, 22));
    assert_eq!(Vec2::new(1, 2).sub(Vec2::new(10, 20)), Vec2::new(-9, -18));
    assert_eq!(Vec3::new(1, -2, 3).neg(), Vec3::new(-1, 2, -3));
}

#[test]
fn scalar_and_vector_multiplicative_operators() {
    assert_eq!(Vec2::new(3, 4).mul(2), Vec2::new(6, 8));
    assert_eq!(Vec2::new(7, -7).div(2), Vec2::new(3, -3));
    assert_eq!(Vec2::new(7, -7).rem(4), Vec2::new(3, -3));
    assert_eq!(Vec2::new(3, 4).mul_vec(Vec2::new(2, 10)), Vec2::new(6, 40));
    assert_eq!(Vec4::new(8, 9, 10, 11).div_vec(Vec4::new(2, 3, 5, 11)), Vec4::new(4, 3, 2, 1));
    assert_eq!(Vec3::new(8, 9, 10).rem_vec(Vec3::new(3, 4, 6)), Vec3::new(2, 1, 4));
}

#[test]
fn integer_bitwise_operators() {
    assert_eq!(Vec2::new(0b1100, 0b1010).bitand(Vec2::new(0b1010, 0b1010)), Vec2::new(0b1000, 0b1010));
    assert_eq!(Vec2::new(0b1100, 0b0001).bitor(Vec2::new(0b1010, 0b0100)), Vec2::new(0b1110, 0b0101));
    assert_eq!(Vec2::new(0b1100, 0b0001).bitxor(Vec2::new(0b1010, 0b0101)), Vec2::new(0b0110, 0b0100));
    assert_eq!(Vec2::new(0, -1).not(), Vec2::new(-1, 0));
}

#[test]
fn trait_level_min_max_abs() {
    assert_eq!(Min::min(Vec2::new(1, 9), Vec2::new(4, -2)), Vec2::new(1, -2));
    assert_eq!(Max::max(Vec3::new(1, 9, 0), Vec3::new(4, -2, 7)), Vec3::new(4, 9, 7));
    assert_eq!(Abs::abs(Vec4::new(-1, 2, -3, 4)), Vec4::new(1, 2, 3, 4));
}

#[test]
fn whole_vector_comparisons() {
    assert_eq!(Vec2 { x: -5, y: 9 }, Vec2::new(-5, 9));
    assert!(Vec2::new(1, 9) > Vec2::new(1, -2));
}
