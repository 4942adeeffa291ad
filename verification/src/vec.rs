//! The vector types.
//!
//! `Vec2`, `Vec3` and `Vec4` are plain structs of two, three and four
//! same-typed components, copied by value on every operation. No operation
//! mutates a vector in place: setters and transforms return a fresh value.
//!
//! This module holds construction, component replacement, dimensional
//! extension and truncation, tuple and array conversion, and the functional
//! transforms (`cast`, `map`, `zip`, `reduce`, `fold`). The transforms fix
//! the component order observably: always `x`, then `y`, then `z`, then `w`.

use vstd::prelude::*;

use crate::num::Cast;
use crate::num::One;
use crate::num::Zero;

verus! {

/// A 2-dimensional vector.
#[derive(Copy, Clone, Debug, Default, Eq, PartialEq, Ord, PartialOrd, Hash)]
pub struct Vec2<T> {
    pub x: T,
    pub y: T,
}

/// A 3-dimensional vector.
#[derive(Copy, Clone, Debug, Default, Eq, PartialEq, Ord, PartialOrd, Hash)]
pub struct Vec3<T> {
    pub x: T,
    pub y: T,
    pub z: T,
}

/// A 4-dimensional vector.
#[derive(Copy, Clone, Debug, Default, Eq, PartialEq, Ord, PartialOrd, Hash)]
pub struct Vec4<T> {
    pub x: T,
    pub y: T,
    pub z: T,
    pub w: T,
}

impl<T> Vec2<T> {
    /// Constructs a new vector from components.
    pub fn new(x: T, y: T) -> (r: Vec2<T>)
        ensures
            r.x == x,
            r.y == y,
    {
        Vec2 { x, y }
    }

    /// Constructs a new vector by broadcasting one value to all components.
    pub fn dup(u: T) -> (r: Vec2<T>) where T: Copy
        ensures
            r.x == u,
            r.y == u,
    {
        Vec2 { x: u, y: u }
    }

    /// A unit vector in the `x` direction.
    pub fn unit_x() -> (r: Vec2<T>) where T: Zero + One
        ensures
            r.x == T::one_spec(),
            r.y == T::zero_spec(),
    {
        Vec2 { x: T::one(), y: T::zero() }
    }

    /// A unit vector in the `y` direction.
    pub fn unit_y() -> (r: Vec2<T>) where T: Zero + One
        ensures
            r.x == T::zero_spec(),
            r.y == T::one_spec(),
    {
        Vec2 { x: T::zero(), y: T::one() }
    }

    /// Returns a copy with the `x` component replaced.
    pub fn set_x(self, x: T) -> (r: Vec2<T>)
        ensures
            r.x == x,
            r.y == self.y,
    {
        Vec2 { x, y: self.y }
    }

    /// Returns a copy with the `y` component replaced.
    pub fn set_y(self, y: T) -> (r: Vec2<T>)
        ensures
            r.x == self.x,
            r.y == y,
    {
        Vec2 { x: self.x, y }
    }

    /// Extends the 2D vector with a `z` component.
    pub fn vec3(self, z: T) -> (r: Vec3<T>)
        ensures
            r.x == self.x,
            r.y == self.y,
            r.z == z,
    {
        Vec3 { x: self.x, y: self.y, z }
    }

    /// Extends the 2D vector with a `z` and a `w` component.
    pub fn vec4(self, z: T, w: T) -> (r: Vec4<T>)
        ensures
            r.x == self.x,
            r.y == self.y,
            r.z == z,
            r.w == w,
    {
        Vec4 { x: self.x, y: self.y, z, w }
    }

    /// Moves the components into a tuple, in declaration order.
    pub fn into_tuple(self) -> (r: (T, T))
        ensures
            r.0 == self.x,
            r.1 == self.y,
    {
        (self.x, self.y)
    }

    /// Moves the components into an array, in declaration order.
    pub fn into_array(self) -> (r: [T; 2])
        ensures
            r[0] == self.x,
            r[1] == self.y,
    {
        [self.x, self.y]
    }

    /// Casts to a vector of a different scalar type with the same
    /// dimensions, converting every component independently.
    pub fn cast<U>(self) -> (r: Vec2<U>) where T: Cast<U>
        ensures
            r.x == self.x.cast_spec(),
            r.y == self.y.cast_spec(),
    {
        Vec2 { x: self.x.cast(), y: self.y.cast() }
    }

    /// Maps a callable over the components, in declaration order.
    pub fn map<U, F: Fn(T) -> U>(self, f: F) -> (r: Vec2<U>)
        requires
            call_requires(f, (self.x,)),
            call_requires(f, (self.y,)),
        ensures
            call_ensures(f, (self.x,), r.x),
            call_ensures(f, (self.y,), r.y),
    {
        Vec2 { x: f(self.x), y: f(self.y) }
    }

    /// Zips two vectors together, pairing same-named components.
    pub fn zip<U, F: Fn(T, T) -> U>(self, rhs: Vec2<T>, f: F) -> (r: Vec2<U>)
        requires
            call_requires(f, (self.x, rhs.x)),
            call_requires(f, (self.y, rhs.y)),
        ensures
            call_ensures(f, (self.x, rhs.x), r.x),
            call_ensures(f, (self.y, rhs.y), r.y),
    {
        Vec2 { x: f(self.x, rhs.x), y: f(self.y, rhs.y) }
    }

    /// Left-folds the components with the `x` component as the seed: the
    /// result is `f(x, y)`.
    pub fn reduce<F: Fn(T, T) -> T>(self, f: F) -> (r: T)
        requires
            call_requires(f, (self.x, self.y)),
        ensures
            call_ensures(f, (self.x, self.y), r),
    {
        f(self.x, self.y)
    }

    /// Left-folds the components from an explicit seed: the result is
    /// `f(f(acc, x), y)`.
    pub fn fold<A, F: Fn(A, T) -> A>(self, acc: A, f: F) -> (r: A)
        requires
            call_requires(f, (acc, self.x)),
            forall|a: A|
                call_ensures(f, (acc, self.x), a) ==> call_requires(f, (a, self.y)),
        ensures
            exists|a: A|
                #[trigger] call_ensures(f, (acc, self.x), a) && call_ensures(
                    f,
                    (a, self.y),
                    r,
                ),
    {
        let a = f(acc, self.x);
        f(a, self.y)
    }
}

impl<T> From<(T, T)> for Vec2<T> {
    fn from(val: (T, T)) -> (r: Vec2<T>) {
        Vec2 { x: val.0, y: val.1 }
    }
}

impl<T> vstd::std_specs::convert::FromSpecImpl<(T, T)> for Vec2<T> {
    open spec fn obeys_from_spec() -> bool {
        true
    }

    open spec fn from_spec(val: (T, T)) -> Vec2<T> {
        Vec2 { x: val.0, y: val.1 }
    }
}

impl<T: Copy> From<[T; 2]> for Vec2<T> {
    fn from(val: [T; 2]) -> (r: Vec2<T>) {
        Vec2 { x: val[0], y: val[1] }
    }
}

impl<T: Copy> vstd::std_specs::convert::FromSpecImpl<[T; 2]> for Vec2<T> {
    open spec fn obeys_from_spec() -> bool {
        true
    }

    open spec fn from_spec(val: [T; 2]) -> Vec2<T> {
        Vec2 { x: val[0], y: val[1] }
    }
}

impl<T> Vec3<T> {
    /// Constructs a new vector from components.
    pub fn new(x: T, y: T, z: T) -> (r: Vec3<T>)
        ensures
            r.x == x,
            r.y == y,
            r.z == z,
    {
        Vec3 { x, y, z }
    }

    /// Constructs a new vector by broadcasting one value to all components.
    pub fn dup(u: T) -> (r: Vec3<T>) where T: Copy
        ensures
            r.x == u,
            r.y == u,
            r.z == u,
    {
        Vec3 { x: u, y: u, z: u }
    }

    /// A unit vector in the `x` direction.
    pub fn unit_x() -> (r: Vec3<T>) where T: Zero + One
        ensures
            r.x == T::one_spec(),
            r.y == T::zero_spec(),
            r.z == T::zero_spec(),
    {
        Vec3 { x: T::one(), y: T::zero(), z: T::zero() }
    }

    /// A unit vector in the `y` direction.
    pub fn unit_y() -> (r: Vec3<T>) where T: Zero + One
        ensures
            r.x == T::zero_spec(),
            r.y == T::one_spec(),
            r.z == T::zero_spec(),
    {
        Vec3 { x: T::zero(), y: T::one(), z: T::zero() }
    }

    /// A unit vector in the `z` direction.
    pub fn unit_z() -> (r: Vec3<T>) where T: Zero + One
        ensures
            r.x == T::zero_spec(),
            r.y == T::zero_spec(),
            r.z == T::one_spec(),
    {
        Vec3 { x: T::zero(), y: T::zero(), z: T::one() }
    }

    /// Returns a copy with the `x` component replaced.
    pub fn set_x(self, x: T) -> (r: Vec3<T>)
        ensures
            r.x == x,
            r.y == self.y,
            r.z == self.z,
    {
        Vec3 { x, y: self.y, z: self.z }
    }

    /// Returns a copy with the `y` component replaced.
    pub fn set_y(self, y: T) -> (r: Vec3<T>)
        ensures
            r.x == self.x,
            r.y == y,
            r.z == self.z,
    {
        Vec3 { x: self.x, y, z: self.z }
    }

    /// Returns a copy with the `z` component replaced.
    pub fn set_z(self, z: T) -> (r: Vec3<T>)
        ensures
            r.x == self.x,
            r.y == self.y,
            r.z == z,
    {
        Vec3 { x: self.x, y: self.y, z }
    }

    /// Extends the 3D vector with a `w` component.
    pub fn vec4(self, w: T) -> (r: Vec4<T>)
        ensures
            r.x == self.x,
            r.y == self.y,
            r.z == self.z,
            r.w == w,
    {
        Vec4 { x: self.x, y: self.y, z: self.z, w }
    }

    /// Drops the `z` component.
    pub fn xy(self) -> (r: Vec2<T>)
        ensures
            r.x == self.x,
            r.y == self.y,
    {
        Vec2 { x: self.x, y: self.y }
    }

    /// Moves the components into a tuple, in declaration order.
    pub fn into_tuple(self) -> (r: (T, T, T))
        ensures
            r.0 == self.x,
            r.1 == self.y,
            r.2 == self.z,
    {
        (self.x, self.y, self.z)
    }

    /// Moves the components into an array, in declaration order.
    pub fn into_array(self) -> (r: [T; 3])
        ensures
            r[0] == self.x,
            r[1] == self.y,
            r[2] == self.z,
    {
        [self.x, self.y, self.z]
    }

    /// Casts to a vector of a different scalar type with the same
    /// dimensions, converting every component independently.
    pub fn cast<U>(self) -> (r: Vec3<U>) where T: Cast<U>
        ensures
            r.x == self.x.cast_spec(),
            r.y == self.y.cast_spec(),
            r.z == self.z.cast_spec(),
    {
        Vec3 { x: self.x.cast(), y: self.y.cast(), z: self.z.cast() }
    }

    /// Maps a callable over the components, in declaration order.
    pub fn map<U, F: Fn(T) -> U>(self, f: F) -> (r: Vec3<U>)
        requires
            call_requires(f, (self.x,)),
            call_requires(f, (self.y,)),
            call_requires(f, (self.z,)),
        ensures
            call_ensures(f, (self.x,), r.x),
            call_ensures(f, (self.y,), r.y),
            call_ensures(f, (self.z,), r.z),
    {
        Vec3 { x: f(self.x), y: f(self.y), z: f(self.z) }
    }

    /// Zips two vectors together, pairing same-named components.
    pub fn zip<U, F: Fn(T, T) -> U>(self, rhs: Vec3<T>, f: F) -> (r: Vec3<U>)
        requires
            call_requires(f, (self.x, rhs.x)),
            call_requires(f, (self.y, rhs.y)),
            call_requires(f, (self.z, rhs.z)),
        ensures
            call_ensures(f, (self.x, rhs.x), r.x),
            call_ensures(f, (self.y, rhs.y), r.y),
            call_ensures(f, (self.z, rhs.z), r.z),
    {
        Vec3 { x: f(self.x, rhs.x), y: f(self.y, rhs.y), z: f(self.z, rhs.z) }
    }

    /// Left-folds the components with the `x` component as the seed: the
    /// result is `f(f(x, y), z)`.
    pub fn reduce<F: Fn(T, T) -> T>(self, f: F) -> (r: T)
        requires
            call_requires(f, (self.x, self.y)),
            forall|a: T|
                call_ensures(f, (self.x, self.y), a) ==> call_requires(f, (a, self.z)),
        ensures
            exists|a: T|
                #[trigger] call_ensures(f, (self.x, self.y), a) && call_ensures(
                    f,
                    (a, self.z),
                    r,
                ),
    {
        let a = f(self.x, self.y);
        f(a, self.z)
    }

    /// Left-folds the components from an explicit seed: the result is
    /// `f(f(f(acc, x), y), z)`.
    pub fn fold<A, F: Fn(A, T) -> A>(self, acc: A, f: F) -> (r: A)
        requires
            call_requires(f, (acc, self.x)),
            forall|a: A|
                call_ensures(f, (acc, self.x), a) ==> call_requires(f, (a, self.y)),
            forall|a: A, b: A|
                call_ensures(f, (acc, self.x), a) && call_ensures(f, (a, self.y), b)
                    ==> call_requires(f, (b, self.z)),
        ensures
            exists|a: A, b: A|
                #[trigger] call_ensures(f, (acc, self.x), a) && #[trigger] call_ensures(
                    f,
                    (a, self.y),
                    b,
                ) && call_ensures(f, (b, self.z), r),
    {
        let a = f(acc, self.x);
        let b = f(a, self.y);
        f(b, self.z)
    }
}

impl<T> From<(T, T, T)> for Vec3<T> {
    fn from(val: (T, T, T)) -> (r: Vec3<T>) {
        Vec3 { x: val.0, y: val.1, z: val.2 }
    }
}

impl<T> vstd::std_specs::convert::FromSpecImpl<(T, T, T)> for Vec3<T> {
    open spec fn obeys_from_spec() -> bool {
        true
    }

    open spec fn from_spec(val: (T, T, T)) -> Vec3<T> {
        Vec3 { x: val.0, y: val.1, z: val.2 }
    }
}

impl<T: Copy> From<[T; 3]> for Vec3<T> {
    fn from(val: [T; 3]) -> (r: Vec3<T>) {
        Vec3 { x: val[0], y: val[1], z: val[2] }
    }
}

impl<T: Copy> vstd::std_specs::convert::FromSpecImpl<[T; 3]> for Vec3<T> {
    open spec fn obeys_from_spec() -> bool {
        true
    }

    open spec fn from_spec(val: [T; 3]) -> Vec3<T> {
        Vec3 { x: val[0], y: val[1], z: val[2] }
    }
}

impl<T> Vec4<T> {
    /// Constructs a new vector from components.
    pub fn new(x: T, y: T, z: T, w: T) -> (r: Vec4<T>)
        ensures
            r.x == x,
            r.y == y,
            r.z == z,
            r.w == w,
    {
        Vec4 { x, y, z, w }
    }

    /// Constructs a new vector by broadcasting one value to all components.
    pub fn dup(u: T) -> (r: Vec4<T>) where T: Copy
        ensures
            r.x == u,
            r.y == u,
            r.z == u,
            r.w == u,
    {
        Vec4 { x: u, y: u, z: u, w: u }
    }

    /// A unit vector in the `x` direction.
    pub fn unit_x() -> (r: Vec4<T>) where T: Zero + One
        ensures
            r.x == T::one_spec(),
            r.y == T::zero_spec(),
            r.z == T::zero_spec(),
            r.w == T::zero_spec(),
    {
        Vec4 { x: T::one(), y: T::zero(), z: T::zero(), w: T::zero() }
    }

    /// A unit vector in the `y` direction.
    pub fn unit_y() -> (r: Vec4<T>) where T: Zero + One
        ensures
            r.x == T::zero_spec(),
            r.y == T::one_spec(),
            r.z == T::zero_spec(),
            r.w == T::zero_spec(),
    {
        Vec4 { x: T::zero(), y: T::one(), z: T::zero(), w: T::zero() }
    }

    /// A unit vector in the `z` direction.
    pub fn unit_z() -> (r: Vec4<T>) where T: Zero + One
        ensures
            r.x == T::zero_spec(),
            r.y == T::zero_spec(),
            r.z == T::one_spec(),
            r.w == T::zero_spec(),
    {
        Vec4 { x: T::zero(), y: T::zero(), z: T::one(), w: T::zero() }
    }

    /// A unit vector in the `w` direction.
    pub fn unit_w() -> (r: Vec4<T>) where T: Zero + One
        ensures
            r.x == T::zero_spec(),
            r.y == T::zero_spec(),
            r.z == T::zero_spec(),
            r.w == T::one_spec(),
    {
        Vec4 { x: T::zero(), y: T::zero(), z: T::zero(), w: T::one() }
    }

    /// Returns a copy with the `x` component replaced.
    pub fn set_x(self, x: T) -> (r: Vec4<T>)
        ensures
            r.x == x,
            r.y == self.y,
            r.z == self.z,
            r.w == self.w,
    {
        Vec4 { x, y: self.y, z: self.z, w: self.w }
    }

    /// Returns a copy with the `y` component replaced.
    pub fn set_y(self, y: T) -> (r: Vec4<T>)
        ensures
            r.x == self.x,
            r.y == y,
            r.z == self.z,
            r.w == self.w,
    {
        Vec4 { x: self.x, y, z: self.z, w: self.w }
    }

    /// Returns a copy with the `z` component replaced.
    pub fn set_z(self, z: T) -> (r: Vec4<T>)
        ensures
            r.x == self.x,
            r.y == self.y,
            r.z == z,
            r.w == self.w,
    {
        Vec4 { x: self.x, y: self.y, z, w: self.w }
    }

    /// Returns a copy with the `w` component replaced.
    pub fn set_w(self, w: T) -> (r: Vec4<T>)
        ensures
            r.x == self.x,
            r.y == self.y,
            r.z == self.z,
            r.w == w,
    {
        Vec4 { x: self.x, y: self.y, z: self.z, w }
    }

    /// Drops the `z` and `w` components.
    pub fn xy(self) -> (r: Vec2<T>)
        ensures
            r.x == self.x,
            r.y == self.y,
    {
        Vec2 { x: self.x, y: self.y }
    }

    /// Drops the `w` component.
    pub fn xyz(self) -> (r: Vec3<T>)
        ensures
            r.x == self.x,
            r.y == self.y,
            r.z == self.z,
    {
        Vec3 { x: self.x, y: self.y, z: self.z }
    }

    /// Moves the components into a tuple, in declaration order.
    pub fn into_tuple(self) -> (r: (T, T, T, T))
        ensures
            r.0 == self.x,
            r.1 == self.y,
            r.2 == self.z,
            r.3 == self.w,
    {
        (self.x, self.y, self.z, self.w)
    }

    /// Moves the components into an array, in declaration order.
    pub fn into_array(self) -> (r: [T; 4])
        ensures
            r[0] == self.x,
            r[1] == self.y,
            r[2] == self.z,
            r[3] == self.w,
    {
        [self.x, self.y, self.z, self.w]
    }

    /// Casts to a vector of a different scalar type with the same
    /// dimensions, converting every component independently.
    pub fn cast<U>(self) -> (r: Vec4<U>) where T: Cast<U>
        ensures
            r.x == self.x.cast_spec(),
            r.y == self.y.cast_spec(),
            r.z == self.z.cast_spec(),
            r.w == self.w.cast_spec(),
    {
        Vec4 { x: self.x.cast(), y: self.y.cast(), z: self.z.cast(), w: self.w.cast() }
    }

    /// Maps a callable over the components, in declaration order.
    pub fn map<U, F: Fn(T) -> U>(self, f: F) -> (r: Vec4<U>)
        requires
            call_requires(f, (self.x,)),
            call_requires(f, (self.y,)),
            call_requires(f, (self.z,)),
            call_requires(f, (self.w,)),
        ensures
            call_ensures(f, (self.x,), r.x),
            call_ensures(f, (self.y,), r.y),
            call_ensures(f, (self.z,), r.z),
            call_ensures(f, (self.w,), r.w),
    {
        Vec4 { x: f(self.x), y: f(self.y), z: f(self.z), w: f(self.w) }
    }

    /// Zips two vectors together, pairing same-named components.
    pub fn zip<U, F: Fn(T, T) -> U>(self, rhs: Vec4<T>, f: F) -> (r: Vec4<U>)
        requires
            call_requires(f, (self.x, rhs.x)),
            call_requires(f, (self.y, rhs.y)),
            call_requires(f, (self.z, rhs.z)),
            call_requires(f, (self.w, rhs.w)),
        ensures
            call_ensures(f, (self.x, rhs.x), r.x),
            call_ensures(f, (self.y, rhs.y), r.y),
            call_ensures(f, (self.z, rhs.z), r.z),
            call_ensures(f, (self.w, rhs.w), r.w),
    {
        Vec4 {
            x: f(self.x, rhs.x),
            y: f(self.y, rhs.y),
            z: f(self.z, rhs.z),
            w: f(self.w, rhs.w),
        }
    }

    /// Left-folds the components with the `x` component as the seed: the
    /// result is `f(f(f(x, y), z), w)`.
    pub fn reduce<F: Fn(T, T) -> T>(self, f: F) -> (r: T)
        requires
            call_requires(f, (self.x, self.y)),
            forall|a: T|
                call_ensures(f, (self.x, self.y), a) ==> call_requires(f, (a, self.z)),
            forall|a: T, b: T|
                call_ensures(f, (self.x, self.y), a) && call_ensures(f, (a, self.z), b)
                    ==> call_requires(f, (b, self.w)),
        ensures
            exists|a: T, b: T|
                #[trigger] call_ensures(f, (self.x, self.y), a) && #[trigger] call_ensures(
                    f,
                    (a, self.z),
                    b,
                ) && call_ensures(f, (b, self.w), r),
    {
        let a = f(self.x, self.y);
        let b = f(a, self.z);
        f(b, self.w)
    }

    /// Left-folds the components from an explicit seed: the result is
    /// `f(f(f(f(acc, x), y), z), w)`.
    pub fn fold<A, F: Fn(A, T) -> A>(self, acc: A, f: F) -> (r: A)
        requires
            call_requires(f, (acc, self.x)),
            forall|a: A|
                call_ensures(f, (acc, self.x), a) ==> call_requires(f, (a, self.y)),
            forall|a: A, b: A|
                call_ensures(f, (acc, self.x), a) && call_ensures(f, (a, self.y), b)
                    ==> call_requires(f, (b, self.z)),
            forall|a: A, b: A, c: A|
                call_ensures(f, (acc, self.x), a) && call_ensures(f, (a, self.y), b)
                    && call_ensures(f, (b, self.z), c) ==> call_requires(f, (c, self.w)),
        ensures
            exists|a: A, b: A, c: A|
                #[trigger] call_ensures(f, (acc, self.x), a) && #[trigger] call_ensures(
                    f,
                    (a, self.y),
                    b,
                ) && #[trigger] call_ensures(f, (b, self.z), c) && call_ensures(
                    f,
                    (c, self.w),
                    r,
                ),
    {
        let a = f(acc, self.x);
        let b = f(a, self.y);
        let c = f(b, self.z);
        f(c, self.w)
    }
}

impl<T> From<(T, T, T, T)> for Vec4<T> {
    fn from(val: (T, T, T, T)) -> (r: Vec4<T>) {
        Vec4 { x: val.0, y: val.1, z: val.2, w: val.3 }
    }
}

impl<T> vstd::std_specs::convert::FromSpecImpl<(T, T, T, T)> for Vec4<T> {
    open spec fn obeys_from_spec() -> bool {
        true
    }

    open spec fn from_spec(val: (T, T, T, T)) -> Vec4<T> {
        Vec4 { x: val.0, y: val.1, z: val.2, w: val.3 }
    }
}

impl<T: Copy> From<[T; 4]> for Vec4<T> {
    fn from(val: [T; 4]) -> (r: Vec4<T>) {
        Vec4 { x: val[0], y: val[1], z: val[2], w: val[3] }
    }
}

impl<T: Copy> vstd::std_specs::convert::FromSpecImpl<[T; 4]> for Vec4<T> {
    open spec fn obeys_from_spec() -> bool {
        true
    }

    open spec fn from_spec(val: [T; 4]) -> Vec4<T> {
        Vec4 { x: val[0], y: val[1], z: val[2], w: val[3] }
    }
}

} // verus!
