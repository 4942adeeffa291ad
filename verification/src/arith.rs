//! Component-wise and geometric operations on the vector types.
//!
//! Every operation is bound by the [`Scalar`] capability (or one of the
//! smaller capabilities for `abs`, `min` and `max`) and states its result
//! exactly, component by component, through a spec-level twin. Operations
//! whose scalar steps can overflow carry a `*_req` precondition naming the
//! exact sums, differences and products that must be representable; within
//! it they never wrap or panic.
//!
//! The scalar-broadcast and the component-wise variants of multiplication,
//! division and remainder are distinct methods (`mul` versus `mul_vec`, and
//! so on), mirroring the two operand shapes.

use vstd::prelude::*;

use crate::num::Abs;
use crate::num::Int;
use crate::num::Max;
use crate::num::Min;
use crate::num::Scalar;
use crate::vec::Vec2;
use crate::vec::Vec3;
use crate::vec::Vec4;

verus! {

impl<T: Scalar> Vec2<T> {
    /// Whether every product in `self.sqr()` is representable.
    pub open spec fn sqr_req(self) -> bool {
        self.x.mul_req(self.x) && self.y.mul_req(self.y)
    }

    /// The component-wise square at the specification level.
    pub open spec fn sqr_spec(self) -> Vec2<T> {
        Vec2 { x: self.x.mul_spec(self.x), y: self.y.mul_spec(self.y) }
    }

    /// Squares the components.
    pub fn sqr(self) -> (r: Vec2<T>)
        requires
            self.sqr_req(),
        ensures
            r == self.sqr_spec(),
    {
        Vec2 { x: self.x.mul(self.x), y: self.y.mul(self.y) }
    }

    /// Whether every step of `self.dot(rhs)` is representable.
    pub open spec fn dot_req(self, rhs: Vec2<T>) -> bool {
        self.x.mul_req(rhs.x) && self.y.mul_req(rhs.y) && self.x.mul_spec(rhs.x).add_req(
            self.y.mul_spec(rhs.y),
        )
    }

    /// The inner product at the specification level:
    /// `x * rhs.x + y * rhs.y`.
    pub open spec fn dot_spec(self, rhs: Vec2<T>) -> T {
        self.x.mul_spec(rhs.x).add_spec(self.y.mul_spec(rhs.y))
    }

    /// Calculates the inner product.
    pub fn dot(self, rhs: Vec2<T>) -> (r: T)
        requires
            self.dot_req(rhs),
        ensures
            r == self.dot_spec(rhs),
    {
        self.x.mul(rhs.x).add(self.y.mul(rhs.y))
    }

    /// Whether every step of `self.len_sqr()` is representable.
    pub open spec fn len_sqr_req(self) -> bool {
        self.dot_req(self)
    }

    /// The squared length at the specification level: the self inner
    /// product.
    pub open spec fn len_sqr_spec(self) -> T {
        self.dot_spec(self)
    }

    /// Calculates the squared length of the vector.
    pub fn len_sqr(self) -> (r: T)
        requires
            self.len_sqr_req(),
        ensures
            r == self.len_sqr_spec(),
    {
        self.x.mul(self.x).add(self.y.mul(self.y))
    }

    /// Whether every step of `self.dist_sqr(to)` is representable.
    pub open spec fn dist_sqr_req(self, to: Vec2<T>) -> bool {
        to.sub_req(self) && to.sub_spec(self).len_sqr_req()
    }

    /// The squared euclidean distance at the specification level: the
    /// squared length of `to - self`.
    pub open spec fn dist_sqr_spec(self, to: Vec2<T>) -> T {
        to.sub_spec(self).len_sqr_spec()
    }

    /// Calculates the squared euclidean distance to another vector.
    pub fn dist_sqr(self, to: Vec2<T>) -> (r: T)
        requires
            self.dist_sqr_req(to),
        ensures
            r == self.dist_sqr_spec(to),
    {
        let dx = to.x.sub(self.x);
        let dy = to.y.sub(self.y);
        dx.mul(dx).add(dy.mul(dy))
    }

    /// Whether every sum in `self.hadd()` is representable.
    pub open spec fn hadd_req(self) -> bool {
        self.x.add_req(self.y)
    }

    /// The horizontal sum at the specification level: `x + y`.
    pub open spec fn hadd_spec(self) -> T {
        self.x.add_spec(self.y)
    }

    /// Horizontally adds all components.
    pub fn hadd(self) -> (r: T)
        requires
            self.hadd_req(),
        ensures
            r == self.hadd_spec(),
    {
        self.x.add(self.y)
    }

    /// Whether the horizontal difference is representable.
    pub open spec fn hsub_req(self) -> bool {
        self.x.sub_req(self.y)
    }

    /// The horizontal difference at the specification level: `x - y`.
    pub open spec fn hsub_spec(self) -> T {
        self.x.sub_spec(self.y)
    }

    /// Horizontally subtracts the components.
    pub fn hsub(self) -> (r: T)
        requires
            self.hsub_req(),
        ensures
            r == self.hsub_spec(),
    {
        self.x.sub(self.y)
    }

    /// Whether the rotated vector is representable.
    pub open spec fn ccw_req(self) -> bool {
        self.x.neg_req()
    }

    /// The counter-clockwise rotation at the specification level:
    /// `(y, -x)`.
    pub open spec fn ccw_spec(self) -> Vec2<T> {
        Vec2 { x: self.y, y: self.x.neg_spec() }
    }

    /// Rotates the vector counter-clockwise by a quarter turn.
    pub fn ccw(self) -> (r: Vec2<T>)
        requires
            self.ccw_req(),
        ensures
            r == self.ccw_spec(),
    {
        Vec2 { x: self.y, y: self.x.neg() }
    }

    /// Whether the rotated vector is representable.
    pub open spec fn cw_req(self) -> bool {
        self.y.neg_req()
    }

    /// The clockwise rotation at the specification level: `(-y, x)`.
    pub open spec fn cw_spec(self) -> Vec2<T> {
        Vec2 { x: self.y.neg_spec(), y: self.x }
    }

    /// Rotates the vector clockwise by a quarter turn.
    pub fn cw(self) -> (r: Vec2<T>)
        requires
            self.cw_req(),
        ensures
            r == self.cw_spec(),
    {
        Vec2 { x: self.y.neg(), y: self.x }
    }

    /// Whether every step of `self.cross(rhs)` is representable.
    pub open spec fn cross_req(self, rhs: Vec2<T>) -> bool {
        self.x.mul_req(rhs.y) && self.y.mul_req(rhs.x) && self.x.mul_spec(rhs.y).sub_req(
            self.y.mul_spec(rhs.x),
        )
    }

    /// The planar cross product at the specification level:
    /// `x * rhs.y - y * rhs.x`, the `z` magnitude of the 3D cross product
    /// of the inputs embedded at `z = 0`.
    pub open spec fn cross_spec(self, rhs: Vec2<T>) -> T {
        self.x.mul_spec(rhs.y).sub_spec(self.y.mul_spec(rhs.x))
    }

    /// Calculates the 3D cross product where the inputs are extended with
    /// `z = 0` and returns the magnitude of the result.
    pub fn cross(self, rhs: Vec2<T>) -> (r: T)
        requires
            self.cross_req(rhs),
        ensures
            r == self.cross_spec(rhs),
    {
        self.x.mul(rhs.y).sub(self.y.mul(rhs.x))
    }

    /// Whether every step of `self.mul_add(vec, scale)` is representable.
    pub open spec fn mul_add_req(self, vec: Vec2<T>, scale: T) -> bool {
        vec.x.mul_req(scale) && vec.y.mul_req(scale) && self.x.add_req(vec.x.mul_spec(scale))
            && self.y.add_req(vec.y.mul_spec(scale))
    }

    /// The scaled addition at the specification level: component-wise
    /// `self + vec * scale`.
    pub open spec fn mul_add_spec(self, vec: Vec2<T>, scale: T) -> Vec2<T> {
        Vec2 {
            x: self.x.add_spec(vec.x.mul_spec(scale)),
            y: self.y.add_spec(vec.y.mul_spec(scale)),
        }
    }

    /// Adds the scaled vector.
    pub fn mul_add(self, vec: Vec2<T>, scale: T) -> (r: Vec2<T>)
        requires
            self.mul_add_req(vec, scale),
        ensures
            r == self.mul_add_spec(vec, scale),
    {
        Vec2 { x: self.x.add(vec.x.mul(scale)), y: self.y.add(vec.y.mul(scale)) }
    }

    /// Whether every component sum is representable.
    pub open spec fn add_req(self, rhs: Vec2<T>) -> bool {
        self.x.add_req(rhs.x) && self.y.add_req(rhs.y)
    }

    /// The component-wise sum at the specification level.
    pub open spec fn add_spec(self, rhs: Vec2<T>) -> Vec2<T> {
        Vec2 { x: self.x.add_spec(rhs.x), y: self.y.add_spec(rhs.y) }
    }

    /// Adds the vectors component-wise.
    pub fn add(self, rhs: Vec2<T>) -> (r: Vec2<T>)
        requires
            self.add_req(rhs),
        ensures
            r == self.add_spec(rhs),
    {
        Vec2 { x: self.x.add(rhs.x), y: self.y.add(rhs.y) }
    }

    /// Whether every component difference is representable.
    pub open spec fn sub_req(self, rhs: Vec2<T>) -> bool {
        self.x.sub_req(rhs.x) && self.y.sub_req(rhs.y)
    }

    /// The component-wise difference at the specification level.
    pub open spec fn sub_spec(self, rhs: Vec2<T>) -> Vec2<T> {
        Vec2 { x: self.x.sub_spec(rhs.x), y: self.y.sub_spec(rhs.y) }
    }

    /// Subtracts the vectors component-wise.
    pub fn sub(self, rhs: Vec2<T>) -> (r: Vec2<T>)
        requires
            self.sub_req(rhs),
        ensures
            r == self.sub_spec(rhs),
    {
        Vec2 { x: self.x.sub(rhs.x), y: self.y.sub(rhs.y) }
    }

    /// Whether every component negation is representable.
    pub open spec fn neg_req(self) -> bool {
        self.x.neg_req() && self.y.neg_req()
    }

    /// The component-wise negation at the specification level.
    pub open spec fn neg_spec(self) -> Vec2<T> {
        Vec2 { x: self.x.neg_spec(), y: self.y.neg_spec() }
    }

    /// Negates the vector component-wise.
    pub fn neg(self) -> (r: Vec2<T>)
        requires
            self.neg_req(),
        ensures
            r == self.neg_spec(),
    {
        Vec2 { x: self.x.neg(), y: self.y.neg() }
    }

    /// Whether every product with the scalar is representable.
    pub open spec fn mul_req(self, rhs: T) -> bool {
        self.x.mul_req(rhs) && self.y.mul_req(rhs)
    }

    /// The scalar-broadcast product at the specification level.
    pub open spec fn mul_spec(self, rhs: T) -> Vec2<T> {
        Vec2 { x: self.x.mul_spec(rhs), y: self.y.mul_spec(rhs) }
    }

    /// Multiplies every component by the scalar.
    pub fn mul(self, rhs: T) -> (r: Vec2<T>)
        requires
            self.mul_req(rhs),
        ensures
            r == self.mul_spec(rhs),
    {
        Vec2 { x: self.x.mul(rhs), y: self.y.mul(rhs) }
    }

    /// Whether every quotient by the scalar is defined and representable.
    pub open spec fn div_req(self, rhs: T) -> bool {
        self.x.div_req(rhs) && self.y.div_req(rhs)
    }

    /// The scalar-broadcast quotient at the specification level.
    pub open spec fn div_spec(self, rhs: T) -> Vec2<T> {
        Vec2 { x: self.x.div_spec(rhs), y: self.y.div_spec(rhs) }
    }

    /// Divides every component by the scalar.
    pub fn div(self, rhs: T) -> (r: Vec2<T>)
        requires
            self.div_req(rhs),
        ensures
            r == self.div_spec(rhs),
    {
        Vec2 { x: self.x.div(rhs), y: self.y.div(rhs) }
    }

    /// Whether every remainder by the scalar is defined and representable.
    pub open spec fn rem_req(self, rhs: T) -> bool {
        self.x.rem_req(rhs) && self.y.rem_req(rhs)
    }

    /// The scalar-broadcast remainder at the specification level.
    pub open spec fn rem_spec(self, rhs: T) -> Vec2<T> {
        Vec2 { x: self.x.rem_spec(rhs), y: self.y.rem_spec(rhs) }
    }

    /// Takes every component's remainder by the scalar.
    pub fn rem(self, rhs: T) -> (r: Vec2<T>)
        requires
            self.rem_req(rhs),
        ensures
            r == self.rem_spec(rhs),
    {
        Vec2 { x: self.x.rem(rhs), y: self.y.rem(rhs) }
    }

    /// Whether every component product is representable.
    pub open spec fn mul_vec_req(self, rhs: Vec2<T>) -> bool {
        self.x.mul_req(rhs.x) && self.y.mul_req(rhs.y)
    }

    /// The component-wise product at the specification level.
    pub open spec fn mul_vec_spec(self, rhs: Vec2<T>) -> Vec2<T> {
        Vec2 { x: self.x.mul_spec(rhs.x), y: self.y.mul_spec(rhs.y) }
    }

    /// Multiplies the vectors component-wise.
    pub fn mul_vec(self, rhs: Vec2<T>) -> (r: Vec2<T>)
        requires
            self.mul_vec_req(rhs),
        ensures
            r == self.mul_vec_spec(rhs),
    {
        Vec2 { x: self.x.mul(rhs.x), y: self.y.mul(rhs.y) }
    }

    /// Whether every component quotient is defined and representable.
    pub open spec fn div_vec_req(self, rhs: Vec2<T>) -> bool {
        self.x.div_req(rhs.x) && self.y.div_req(rhs.y)
    }

    /// The component-wise quotient at the specification level.
    pub open spec fn div_vec_spec(self, rhs: Vec2<T>) -> Vec2<T> {
        Vec2 { x: self.x.div_spec(rhs.x), y: self.y.div_spec(rhs.y) }
    }

    /// Divides the vectors component-wise.
    pub fn div_vec(self, rhs: Vec2<T>) -> (r: Vec2<T>)
        requires
            self.div_vec_req(rhs),
        ensures
            r == self.div_vec_spec(rhs),
    {
        Vec2 { x: self.x.div(rhs.x), y: self.y.div(rhs.y) }
    }

    /// Whether every component remainder is defined and representable.
    pub open spec fn rem_vec_req(self, rhs: Vec2<T>) -> bool {
        self.x.rem_req(rhs.x) && self.y.rem_req(rhs.y)
    }

    /// The component-wise remainder at the specification level.
    pub open spec fn rem_vec_spec(self, rhs: Vec2<T>) -> Vec2<T> {
        Vec2 { x: self.x.rem_spec(rhs.x), y: self.y.rem_spec(rhs.y) }
    }

    /// Takes the remainders component-wise.
    pub fn rem_vec(self, rhs: Vec2<T>) -> (r: Vec2<T>)
        requires
            self.rem_vec_req(rhs),
        ensures
            r == self.rem_vec_spec(rhs),
    {
        Vec2 { x: self.x.rem(rhs.x), y: self.y.rem(rhs.y) }
    }
}

impl<T> Vec2<T> {
    /// Whether every component's absolute value is representable.
    pub open spec fn abs_vec_req(self) -> bool where T: Abs<Output = T> {
        self.x.abs_req() && self.y.abs_req()
    }

    /// The component-wise absolute value at the specification level.
    pub open spec fn abs_vec_spec(self) -> Vec2<T> where T: Abs<Output = T> {
        Vec2 { x: self.x.abs_spec(), y: self.y.abs_spec() }
    }

    /// Component-wise absolute value.
    pub fn abs(self) -> (r: Vec2<T>) where T: Abs<Output = T>
        requires
            self.abs_vec_req(),
        ensures
            r == self.abs_vec_spec(),
    {
        Vec2 { x: self.x.abs(), y: self.y.abs() }
    }

    /// The component-wise minimum at the specification level.
    pub open spec fn min_vec_spec(self, rhs: Vec2<T>) -> Vec2<T> where T: Min<Output = T> {
        Vec2 { x: self.x.min_spec(rhs.x), y: self.y.min_spec(rhs.y) }
    }

    /// Component-wise minimum value.
    pub fn min(self, rhs: Vec2<T>) -> (r: Vec2<T>) where T: Min<Output = T>
        ensures
            r == self.min_vec_spec(rhs),
    {
        Vec2 { x: self.x.min(rhs.x), y: self.y.min(rhs.y) }
    }

    /// The component-wise maximum at the specification level.
    pub open spec fn max_vec_spec(self, rhs: Vec2<T>) -> Vec2<T> where T: Max<Output = T> {
        Vec2 { x: self.x.max_spec(rhs.x), y: self.y.max_spec(rhs.y) }
    }

    /// Component-wise maximum value.
    pub fn max(self, rhs: Vec2<T>) -> (r: Vec2<T>) where T: Max<Output = T>
        ensures
            r == self.max_vec_spec(rhs),
    {
        Vec2 { x: self.x.max(rhs.x), y: self.y.max(rhs.y) }
    }
}

impl<T: Int> Vec2<T> {
    /// The component-wise bitwise conjunction at the specification level.
    pub open spec fn bitand_spec(self, rhs: Vec2<T>) -> Vec2<T> {
        Vec2 { x: self.x.bitand_spec(rhs.x), y: self.y.bitand_spec(rhs.y) }
    }

    /// Component-wise bitwise conjunction.
    pub fn bitand(self, rhs: Vec2<T>) -> (r: Vec2<T>)
        ensures
            r == self.bitand_spec(rhs),
    {
        Vec2 { x: self.x.bitand(rhs.x), y: self.y.bitand(rhs.y) }
    }

    /// The component-wise bitwise disjunction at the specification level.
    pub open spec fn bitor_spec(self, rhs: Vec2<T>) -> Vec2<T> {
        Vec2 { x: self.x.bitor_spec(rhs.x), y: self.y.bitor_spec(rhs.y) }
    }

    /// Component-wise bitwise disjunction.
    pub fn bitor(self, rhs: Vec2<T>) -> (r: Vec2<T>)
        ensures
            r == self.bitor_spec(rhs),
    {
        Vec2 { x: self.x.bitor(rhs.x), y: self.y.bitor(rhs.y) }
    }

    /// The component-wise bitwise exclusive disjunction at the
    /// specification level.
    pub open spec fn bitxor_spec(self, rhs: Vec2<T>) -> Vec2<T> {
        Vec2 { x: self.x.bitxor_spec(rhs.x), y: self.y.bitxor_spec(rhs.y) }
    }

    /// Component-wise bitwise exclusive disjunction.
    pub fn bitxor(self, rhs: Vec2<T>) -> (r: Vec2<T>)
        ensures
            r == self.bitxor_spec(rhs),
    {
        Vec2 { x: self.x.bitxor(rhs.x), y: self.y.bitxor(rhs.y) }
    }

    /// The component-wise bitwise complement at the specification level.
    pub open spec fn not_spec(self) -> Vec2<T> {
        Vec2 { x: self.x.not_spec(), y: self.y.not_spec() }
    }

    /// Component-wise bitwise complement.
    pub fn not(self) -> (r: Vec2<T>)
        ensures
            r == self.not_spec(),
    {
        Vec2 { x: self.x.not(), y: self.y.not() }
    }
}

impl<T: Scalar> Vec3<T> {
    /// Whether every product in `self.sqr()` is representable.
    pub open spec fn sqr_req(self) -> bool {
        self.x.mul_req(self.x) && self.y.mul_req(self.y) && self.z.mul_req(self.z)
    }

    /// The component-wise square at the specification level.
    pub open spec fn sqr_spec(self) -> Vec3<T> {
        Vec3 {
            x: self.x.mul_spec(self.x),
            y: self.y.mul_spec(self.y),
            z: self.z.mul_spec(self.z),
        }
    }

    /// Squares the components.
    pub fn sqr(self) -> (r: Vec3<T>)
        requires
            self.sqr_req(),
        ensures
            r == self.sqr_spec(),
    {
        Vec3 { x: self.x.mul(self.x), y: self.y.mul(self.y), z: self.z.mul(self.z) }
    }

    /// Whether every step of `self.dot(rhs)` is representable.
    pub open spec fn dot_req(self, rhs: Vec3<T>) -> bool {
        self.x.mul_req(rhs.x)
            && self.y.mul_req(rhs.y)
            && self.z.mul_req(rhs.z)
            && self.x.mul_spec(rhs.x).add_req(self.y.mul_spec(rhs.y))
            && self.x.mul_spec(rhs.x).add_spec(self.y.mul_spec(rhs.y)).add_req(self.z.mul_spec(rhs.z))
    }

    /// The inner product at the specification level: the sum of the
    /// pairwise component products, summed in declaration order.
    pub open spec fn dot_spec(self, rhs: Vec3<T>) -> T {
        self.x.mul_spec(rhs.x).add_spec(self.y.mul_spec(rhs.y)).add_spec(self.z.mul_spec(rhs.z))
    }

    /// Calculates the inner product.
    pub fn dot(self, rhs: Vec3<T>) -> (r: T)
        requires
            self.dot_req(rhs),
        ensures
            r == self.dot_spec(rhs),
    {
        self.x.mul(rhs.x).add(self.y.mul(rhs.y)).add(self.z.mul(rhs.z))
    }

    /// Whether every step of `self.len_sqr()` is representable.
    pub open spec fn len_sqr_req(self) -> bool {
        self.dot_req(self)
    }

    /// The squared length at the specification level: the self inner
    /// product.
    pub open spec fn len_sqr_spec(self) -> T {
        self.dot_spec(self)
    }

    /// Calculates the squared length of the vector.
    pub fn len_sqr(self) -> (r: T)
        requires
            self.len_sqr_req(),
        ensures
            r == self.len_sqr_spec(),
    {
        self.x.mul(self.x).add(self.y.mul(self.y)).add(self.z.mul(self.z))
    }

    /// Whether every step of `self.dist_sqr(to)` is representable.
    pub open spec fn dist_sqr_req(self, to: Vec3<T>) -> bool {
        to.sub_req(self) && to.sub_spec(self).len_sqr_req()
    }

    /// The squared euclidean distance at the specification level: the
    /// squared length of `to - self`.
    pub open spec fn dist_sqr_spec(self, to: Vec3<T>) -> T {
        to.sub_spec(self).len_sqr_spec()
    }

    /// Calculates the squared euclidean distance to another vector.
    pub fn dist_sqr(self, to: Vec3<T>) -> (r: T)
        requires
            self.dist_sqr_req(to),
        ensures
            r == self.dist_sqr_spec(to),
    {
        let dx = to.x.sub(self.x);
        let dy = to.y.sub(self.y);
        let dz = to.z.sub(self.z);
        dx.mul(dx).add(dy.mul(dy)).add(dz.mul(dz))
    }

    /// Whether every sum in `self.hadd()` is representable.
    pub open spec fn hadd_req(self) -> bool {
        self.x.add_req(self.y) && self.x.add_spec(self.y).add_req(self.z)
    }

    /// The horizontal sum at the specification level: the components
    /// summed in declaration order.
    pub open spec fn hadd_spec(self) -> T {
        self.x.add_spec(self.y).add_spec(self.z)
    }

    /// Horizontally adds all components.
    pub fn hadd(self) -> (r: T)
        requires
            self.hadd_req(),
        ensures
            r == self.hadd_spec(),
    {
        self.x.add(self.y).add(self.z)
    }

    /// Whether every step of `self.cross(rhs)` is representable.
    pub open spec fn cross_req(self, rhs: Vec3<T>) -> bool {
        self.y.mul_req(rhs.z)
            && self.z.mul_req(rhs.y)
            && self.y.mul_spec(rhs.z).sub_req(self.z.mul_spec(rhs.y))
            && self.z.mul_req(rhs.x)
            && self.x.mul_req(rhs.z)
            && self.z.mul_spec(rhs.x).sub_req(self.x.mul_spec(rhs.z))
            && self.x.mul_req(rhs.y)
            && self.y.mul_req(rhs.x)
            && self.x.mul_spec(rhs.y).sub_req(self.y.mul_spec(rhs.x))
    }

    /// The 3D cross product at the specification level, by the standard
    /// determinant expansion.
    pub open spec fn cross_spec(self, rhs: Vec3<T>) -> Vec3<T> {
        Vec3 {
            x: self.y.mul_spec(rhs.z).sub_spec(self.z.mul_spec(rhs.y)),
            y: self.z.mul_spec(rhs.x).sub_spec(self.x.mul_spec(rhs.z)),
            z: self.x.mul_spec(rhs.y).sub_spec(self.y.mul_spec(rhs.x)),
        }
    }

    /// Calculates the 3D cross product.
    pub fn cross(self, rhs: Vec3<T>) -> (r: Vec3<T>)
        requires
            self.cross_req(rhs),
        ensures
            r == self.cross_spec(rhs),
    {
        Vec3 {
            x: self.y.mul(rhs.z).sub(self.z.mul(rhs.y)),
            y: self.z.mul(rhs.x).sub(self.x.mul(rhs.z)),
            z: self.x.mul(rhs.y).sub(self.y.mul(rhs.x)),
        }
    }

    /// Whether every step of `self.mul_add(vec, scale)` is representable.
    pub open spec fn mul_add_req(self, vec: Vec3<T>, scale: T) -> bool {
        vec.x.mul_req(scale)
            && vec.y.mul_req(scale)
            && vec.z.mul_req(scale)
            && self.x.add_req(vec.x.mul_spec(scale))
            && self.y.add_req(vec.y.mul_spec(scale))
            && self.z.add_req(vec.z.mul_spec(scale))
    }

    /// The scaled addition at the specification level: component-wise
    /// `self + vec * scale`.
    pub open spec fn mul_add_spec(self, vec: Vec3<T>, scale: T) -> Vec3<T> {
        Vec3 {
            x: self.x.add_spec(vec.x.mul_spec(scale)),
            y: self.y.add_spec(vec.y.mul_spec(scale)),
            z: self.z.add_spec(vec.z.mul_spec(scale)),
        }
    }

    /// Adds the scaled vector.
    pub fn mul_add(self, vec: Vec3<T>, scale: T) -> (r: Vec3<T>)
        requires
            self.mul_add_req(vec, scale),
        ensures
            r == self.mul_add_spec(vec, scale),
    {
        Vec3 {
            x: self.x.add(vec.x.mul(scale)),
            y: self.y.add(vec.y.mul(scale)),
            z: self.z.add(vec.z.mul(scale)),
        }
    }

    /// Whether every component sum is representable.
    pub open spec fn add_req(self, rhs: Vec3<T>) -> bool {
        self.x.add_req(rhs.x) && self.y.add_req(rhs.y) && self.z.add_req(rhs.z)
    }

    /// The component-wise sum at the specification level.
    pub open spec fn add_spec(self, rhs: Vec3<T>) -> Vec3<T> {
        Vec3 {
            x: self.x.add_spec(rhs.x),
            y: self.y.add_spec(rhs.y),
            z: self.z.add_spec(rhs.z),
        }
    }

    /// Adds the vectors component-wise.
    pub fn add(self, rhs: Vec3<T>) -> (r: Vec3<T>)
        requires
            self.add_req(rhs),
        ensures
            r == self.add_spec(rhs),
    {
        Vec3 { x: self.x.add(rhs.x), y: self.y.add(rhs.y), z: self.z.add(rhs.z) }
    }

    /// Whether every component difference is representable.
    pub open spec fn sub_req(self, rhs: Vec3<T>) -> bool {
        self.x.sub_req(rhs.x) && self.y.sub_req(rhs.y) && self.z.sub_req(rhs.z)
    }

    /// The component-wise difference at the specification level.
    pub open spec fn sub_spec(self, rhs: Vec3<T>) -> Vec3<T> {
        Vec3 {
            x: self.x.sub_spec(rhs.x),
            y: self.y.sub_spec(rhs.y),
            z: self.z.sub_spec(rhs.z),
        }
    }

    /// Subtracts the vectors component-wise.
    pub fn sub(self, rhs: Vec3<T>) -> (r: Vec3<T>)
        requires
            self.sub_req(rhs),
        ensures
            r == self.sub_spec(rhs),
    {
        Vec3 { x: self.x.sub(rhs.x), y: self.y.sub(rhs.y), z: self.z.sub(rhs.z) }
    }

    /// Whether every component negation is representable.
    pub open spec fn neg_req(self) -> bool {
        self.x.neg_req() && self.y.neg_req() && self.z.neg_req()
    }

    /// The component-wise negation at the specification level.
    pub open spec fn neg_spec(self) -> Vec3<T> {
        Vec3 { x: self.x.neg_spec(), y: self.y.neg_spec(), z: self.z.neg_spec() }
    }

    /// Negates the vector component-wise.
    pub fn neg(self) -> (r: Vec3<T>)
        requires
            self.neg_req(),
        ensures
            r == self.neg_spec(),
    {
        Vec3 { x: self.x.neg(), y: self.y.neg(), z: self.z.neg() }
    }

    /// Whether every product with the scalar is representable.
    pub open spec fn mul_req(self, rhs: T) -> bool {
        self.x.mul_req(rhs) && self.y.mul_req(rhs) && self.z.mul_req(rhs)
    }

    /// The scalar-broadcast product at the specification level.
    pub open spec fn mul_spec(self, rhs: T) -> Vec3<T> {
        Vec3 { x: self.x.mul_spec(rhs), y: self.y.mul_spec(rhs), z: self.z.mul_spec(rhs) }
    }

    /// Multiplies every component by the scalar.
    pub fn mul(self, rhs: T) -> (r: Vec3<T>)
        requires
            self.mul_req(rhs),
        ensures
            r == self.mul_spec(rhs),
    {
        Vec3 { x: self.x.mul(rhs), y: self.y.mul(rhs), z: self.z.mul(rhs) }
    }

    /// Whether every quotient by the scalar is defined and representable.
    pub open spec fn div_req(self, rhs: T) -> bool {
        self.x.div_req(rhs) && self.y.div_req(rhs) && self.z.div_req(rhs)
    }

    /// The scalar-broadcast quotient at the specification level.
    pub open spec fn div_spec(self, rhs: T) -> Vec3<T> {
        Vec3 { x: self.x.div_spec(rhs), y: self.y.div_spec(rhs), z: self.z.div_spec(rhs) }
    }

    /// Divides every component by the scalar.
    pub fn div(self, rhs: T) -> (r: Vec3<T>)
        requires
            self.div_req(rhs),
        ensures
            r == self.div_spec(rhs),
    {
        Vec3 { x: self.x.div(rhs), y: self.y.div(rhs), z: self.z.div(rhs) }
    }

    /// Whether every remainder by the scalar is defined and representable.
    pub open spec fn rem_req(self, rhs: T) -> bool {
        self.x.rem_req(rhs) && self.y.rem_req(rhs) && self.z.rem_req(rhs)
    }

    /// The scalar-broadcast remainder at the specification level.
    pub open spec fn rem_spec(self, rhs: T) -> Vec3<T> {
        Vec3 { x: self.x.rem_spec(rhs), y: self.y.rem_spec(rhs), z: self.z.rem_spec(rhs) }
    }

    /// Takes every component's remainder by the scalar.
    pub fn rem(self, rhs: T) -> (r: Vec3<T>)
        requires
            self.rem_req(rhs),
        ensures
            r == self.rem_spec(rhs),
    {
        Vec3 { x: self.x.rem(rhs), y: self.y.rem(rhs), z: self.z.rem(rhs) }
    }

    /// Whether every component product is representable.
    pub open spec fn mul_vec_req(self, rhs: Vec3<T>) -> bool {
        self.x.mul_req(rhs.x) && self.y.mul_req(rhs.y) && self.z.mul_req(rhs.z)
    }

    /// The component-wise product at the specification level.
    pub open spec fn mul_vec_spec(self, rhs: Vec3<T>) -> Vec3<T> {
        Vec3 {
            x: self.x.mul_spec(rhs.x),
            y: self.y.mul_spec(rhs.y),
            z: self.z.mul_spec(rhs.z),
        }
    }

    /// Multiplies the vectors component-wise.
    pub fn mul_vec(self, rhs: Vec3<T>) -> (r: Vec3<T>)
        requires
            self.mul_vec_req(rhs),
        ensures
            r == self.mul_vec_spec(rhs),
    {
        Vec3 { x: self.x.mul(rhs.x), y: self.y.mul(rhs.y), z: self.z.mul(rhs.z) }
    }

    /// Whether every component quotient is defined and representable.
    pub open spec fn div_vec_req(self, rhs: Vec3<T>) -> bool {
        self.x.div_req(rhs.x) && self.y.div_req(rhs.y) && self.z.div_req(rhs.z)
    }

    /// The component-wise quotient at the specification level.
    pub open spec fn div_vec_spec(self, rhs: Vec3<T>) -> Vec3<T> {
        Vec3 {
            x: self.x.div_spec(rhs.x),
            y: self.y.div_spec(rhs.y),
            z: self.z.div_spec(rhs.z),
        }
    }

    /// Divides the vectors component-wise.
    pub fn div_vec(self, rhs: Vec3<T>) -> (r: Vec3<T>)
        requires
            self.div_vec_req(rhs),
        ensures
            r == self.div_vec_spec(rhs),
    {
        Vec3 { x: self.x.div(rhs.x), y: self.y.div(rhs.y), z: self.z.div(rhs.z) }
    }

    /// Whether every component remainder is defined and representable.
    pub open spec fn rem_vec_req(self, rhs: Vec3<T>) -> bool {
        self.x.rem_req(rhs.x) && self.y.rem_req(rhs.y) && self.z.rem_req(rhs.z)
    }

    /// The component-wise remainder at the specification level.
    pub open spec fn rem_vec_spec(self, rhs: Vec3<T>) -> Vec3<T> {
        Vec3 {
            x: self.x.rem_spec(rhs.x),
            y: self.y.rem_spec(rhs.y),
            z: self.z.rem_spec(rhs.z),
        }
    }

    /// Takes the remainders component-wise.
    pub fn rem_vec(self, rhs: Vec3<T>) -> (r: Vec3<T>)
        requires
            self.rem_vec_req(rhs),
        ensures
            r == self.rem_vec_spec(rhs),
    {
        Vec3 { x: self.x.rem(rhs.x), y: self.y.rem(rhs.y), z: self.z.rem(rhs.z) }
    }
}

impl<T> Vec3<T> {
    /// Whether every component's absolute value is representable.
    pub open spec fn abs_vec_req(self) -> bool where T: Abs<Output = T> {
        self.x.abs_req() && self.y.abs_req() && self.z.abs_req()
    }

    /// The component-wise absolute value at the specification level.
    pub open spec fn abs_vec_spec(self) -> Vec3<T> where T: Abs<Output = T> {
        Vec3 { x: self.x.abs_spec(), y: self.y.abs_spec(), z: self.z.abs_spec() }
    }

    /// Component-wise absolute value.
    pub fn abs(self) -> (r: Vec3<T>) where T: Abs<Output = T>
        requires
            self.abs_vec_req(),
        ensures
            r == self.abs_vec_spec(),
    {
        Vec3 { x: self.x.abs(), y: self.y.abs(), z: self.z.abs() }
    }

    /// The component-wise minimum at the specification level.
    pub open spec fn min_vec_spec(self, rhs: Vec3<T>) -> Vec3<T> where T: Min<Output = T> {
        Vec3 {
            x: self.x.min_spec(rhs.x),
            y: self.y.min_spec(rhs.y),
            z: self.z.min_spec(rhs.z),
        }
    }

    /// Component-wise minimum value.
    pub fn min(self, rhs: Vec3<T>) -> (r: Vec3<T>) where T: Min<Output = T>
        ensures
            r == self.min_vec_spec(rhs),
    {
        Vec3 { x: self.x.min(rhs.x), y: self.y.min(rhs.y), z: self.z.min(rhs.z) }
    }

    /// The component-wise maximum at the specification level.
    pub open spec fn max_vec_spec(self, rhs: Vec3<T>) -> Vec3<T> where T: Max<Output = T> {
        Vec3 {
            x: self.x.max_spec(rhs.x),
            y: self.y.max_spec(rhs.y),
            z: self.z.max_spec(rhs.z),
        }
    }

    /// Component-wise maximum value.
    pub fn max(self, rhs: Vec3<T>) -> (r: Vec3<T>) where T: Max<Output = T>
        ensures
            r == self.max_vec_spec(rhs),
    {
        Vec3 { x: self.x.max(rhs.x), y: self.y.max(rhs.y), z: self.z.max(rhs.z) }
    }
}

impl<T: Int> Vec3<T> {
    /// The component-wise bitwise conjunction at the specification level.
    pub open spec fn bitand_spec(self, rhs: Vec3<T>) -> Vec3<T> {
        Vec3 {
            x: self.x.bitand_spec(rhs.x),
            y: self.y.bitand_spec(rhs.y),
            z: self.z.bitand_spec(rhs.z),
        }
    }

    /// Component-wise bitwise conjunction.
    pub fn bitand(self, rhs: Vec3<T>) -> (r: Vec3<T>)
        ensures
            r == self.bitand_spec(rhs),
    {
        Vec3 { x: self.x.bitand(rhs.x), y: self.y.bitand(rhs.y), z: self.z.bitand(rhs.z) }
    }
    /// The component-wise bitwise disjunction at the specification level.
    pub open spec fn bitor_spec(self, rhs: Vec3<T>) -> Vec3<T> {
        Vec3 {
            x: self.x.bitor_spec(rhs.x),
            y: self.y.bitor_spec(rhs.y),
            z: self.z.bitor_spec(rhs.z),
        }
    }

    /// Component-wise bitwise disjunction.
    pub fn bitor(self, rhs: Vec3<T>) -> (r: Vec3<T>)
        ensures
            r == self.bitor_spec(rhs),
    {
        Vec3 { x: self.x.bitor(rhs.x), y: self.y.bitor(rhs.y), z: self.z.bitor(rhs.z) }
    }
    /// The component-wise bitwise exclusive disjunction at the specification level.
    pub open spec fn bitxor_spec(self, rhs: Vec3<T>) -> Vec3<T> {
        Vec3 {
            x: self.x.bitxor_spec(rhs.x),
            y: self.y.bitxor_spec(rhs.y),
            z: self.z.bitxor_spec(rhs.z),
        }
    }

    /// Component-wise bitwise exclusive disjunction.
    pub fn bitxor(self, rhs: Vec3<T>) -> (r: Vec3<T>)
        ensures
            r == self.bitxor_spec(rhs),
    {
        Vec3 { x: self.x.bitxor(rhs.x), y: self.y.bitxor(rhs.y), z: self.z.bitxor(rhs.z) }
    }
    /// The component-wise bitwise complement at the specification level.
    pub open spec fn not_spec(self) -> Vec3<T> {
        Vec3 { x: self.x.not_spec(), y: self.y.not_spec(), z: self.z.not_spec() }
    }

    /// Component-wise bitwise complement.
    pub fn not(self) -> (r: Vec3<T>)
        ensures
            r == self.not_spec(),
    {
        Vec3 { x: self.x.not(), y: self.y.not(), z: self.z.not() }
    }
}

impl<T: Scalar> Vec4<T> {
    /// Whether every product in `self.sqr()` is representable.
    pub open spec fn sqr_req(self) -> bool {
        self.x.mul_req(self.x)
            && self.y.mul_req(self.y)
            && self.z.mul_req(self.z)
            && self.w.mul_req(self.w)
    }

    /// The component-wise square at the specification level.
    pub open spec fn sqr_spec(self) -> Vec4<T> {
        Vec4 {
            x: self.x.mul_spec(self.x),
            y: self.y.mul_spec(self.y),
            z: self.z.mul_spec(self.z),
            w: self.w.mul_spec(self.w),
        }
    }

    /// Squares the components.
    pub fn sqr(self) -> (r: Vec4<T>)
        requires
            self.sqr_req(),
        ensures
            r == self.sqr_spec(),
    {
        Vec4 {
            x: self.x.mul(self.x),
            y: self.y.mul(self.y),
            z: self.z.mul(self.z),
            w: self.w.mul(self.w),
        }
    }

    /// Whether every step of `self.dot(rhs)` is representable.
    pub open spec fn dot_req(self, rhs: Vec4<T>) -> bool {
        self.x.mul_req(rhs.x)
            && self.y.mul_req(rhs.y)
            && self.z.mul_req(rhs.z)
            && self.w.mul_req(rhs.w)
            && self.x.mul_spec(rhs.x).add_req(self.y.mul_spec(rhs.y))
            && self.x.mul_spec(rhs.x).add_spec(self.y.mul_spec(rhs.y)).add_req(self.z.mul_spec(rhs.z))
            && self.x.mul_spec(rhs.x).add_spec(self.y.mul_spec(rhs.y)).add_spec(self.z.mul_spec(rhs.z)).add_req(self.w.mul_spec(rhs.w))
    }

    /// The inner product at the specification level: the sum of the
    /// pairwise component products, summed in declaration order.
    pub open spec fn dot_spec(self, rhs: Vec4<T>) -> T {
        self.x.mul_spec(rhs.x).add_spec(self.y.mul_spec(rhs.y)).add_spec(self.z.mul_spec(rhs.z)).add_spec(self.w.mul_spec(rhs.w))
    }

    /// Calculates the inner product.
    pub fn dot(self, rhs: Vec4<T>) -> (r: T)
        requires
            self.dot_req(rhs),
        ensures
            r == self.dot_spec(rhs),
    {
        self.x.mul(rhs.x).add(self.y.mul(rhs.y)).add(self.z.mul(rhs.z)).add(self.w.mul(rhs.w))
    }

    /// Whether every step of `self.len_sqr()` is representable.
    pub open spec fn len_sqr_req(self) -> bool {
        self.dot_req(self)
    }

    /// The squared length at the specification level: the self inner
    /// product.
    pub open spec fn len_sqr_spec(self) -> T {
        self.dot_spec(self)
    }

    /// Calculates the squared length of the vector.
    pub fn len_sqr(self) -> (r: T)
        requires
            self.len_sqr_req(),
        ensures
            r == self.len_sqr_spec(),
    {
        self.x.mul(self.x).add(self.y.mul(self.y)).add(self.z.mul(self.z)).add(self.w.mul(self.w))
    }

    /// Whether every step of `self.dist_sqr(to)` is representable.
    pub open spec fn dist_sqr_req(self, to: Vec4<T>) -> bool {
        to.sub_req(self) && to.sub_spec(self).len_sqr_req()
    }

    /// The squared euclidean distance at the specification level: the
    /// squared length of `to - self`.
    pub open spec fn dist_sqr_spec(self, to: Vec4<T>) -> T {
        to.sub_spec(self).len_sqr_spec()
    }

    /// Calculates the squared euclidean distance to another vector.
    pub fn dist_sqr(self, to: Vec4<T>) -> (r: T)
        requires
            self.dist_sqr_req(to),
        ensures
            r == self.dist_sqr_spec(to),
    {
        let dx = to.x.sub(self.x);
        let dy = to.y.sub(self.y);
        let dz = to.z.sub(self.z);
        let dw = to.w.sub(self.w);
        dx.mul(dx).add(dy.mul(dy)).add(dz.mul(dz)).add(dw.mul(dw))
    }

    /// Whether every sum in `self.hadd()` is representable.
    pub open spec fn hadd_req(self) -> bool {
        self.x.add_req(self.y)
            && self.x.add_spec(self.y).add_req(self.z)
            && self.x.add_spec(self.y).add_spec(self.z).add_req(self.w)
    }

    /// The horizontal sum at the specification level: the components
    /// summed in declaration order.
    pub open spec fn hadd_spec(self) -> T {
        self.x.add_spec(self.y).add_spec(self.z).add_spec(self.w)
    }

    /// Horizontally adds all components.
    pub fn hadd(self) -> (r: T)
        requires
            self.hadd_req(),
        ensures
            r == self.hadd_spec(),
    {
        self.x.add(self.y).add(self.z).add(self.w)
    }

    /// Whether every step of `self.mul_add(vec, scale)` is representable.
    pub open spec fn mul_add_req(self, vec: Vec4<T>, scale: T) -> bool {
        vec.x.mul_req(scale)
            && vec.y.mul_req(scale)
            && vec.z.mul_req(scale)
            && vec.w.mul_req(scale)
            && self.x.add_req(vec.x.mul_spec(scale))
            && self.y.add_req(vec.y.mul_spec(scale))
            && self.z.add_req(vec.z.mul_spec(scale))
            && self.w.add_req(vec.w.mul_spec(scale))
    }

    /// The scaled addition at the specification level: component-wise
    /// `self + vec * scale`.
    pub open spec fn mul_add_spec(self, vec: Vec4<T>, scale: T) -> Vec4<T> {
        Vec4 {
            x: self.x.add_spec(vec.x.mul_spec(scale)),
            y: self.y.add_spec(vec.y.mul_spec(scale)),
            z: self.z.add_spec(vec.z.mul_spec(scale)),
            w: self.w.add_spec(vec.w.mul_spec(scale)),
        }
    }

    /// Adds the scaled vector.
    pub fn mul_add(self, vec: Vec4<T>, scale: T) -> (r: Vec4<T>)
        requires
            self.mul_add_req(vec, scale),
        ensures
            r == self.mul_add_spec(vec, scale),
    {
        Vec4 {
            x: self.x.add(vec.x.mul(scale)),
            y: self.y.add(vec.y.mul(scale)),
            z: self.z.add(vec.z.mul(scale)),
            w: self.w.add(vec.w.mul(scale)),
        }
    }

    /// Whether every component sum is representable.
    pub open spec fn add_req(self, rhs: Vec4<T>) -> bool {
        self.x.add_req(rhs.x)
            && self.y.add_req(rhs.y)
            && self.z.add_req(rhs.z)
            && self.w.add_req(rhs.w)
    }

    /// The component-wise sum at the specification level.
    pub open spec fn add_spec(self, rhs: Vec4<T>) -> Vec4<T> {
        Vec4 {
            x: self.x.add_spec(rhs.x),
            y: self.y.add_spec(rhs.y),
            z: self.z.add_spec(rhs.z),
            w: self.w.add_spec(rhs.w),
        }
    }

    /// Adds the vectors component-wise.
    pub fn add(self, rhs: Vec4<T>) -> (r: Vec4<T>)
        requires
            self.add_req(rhs),
        ensures
            r == self.add_spec(rhs),
    {
        Vec4 {
            x: self.x.add(rhs.x),
            y: self.y.add(rhs.y),
            z: self.z.add(rhs.z),
            w: self.w.add(rhs.w),
        }
    }

    /// Whether every component difference is representable.
    pub open spec fn sub_req(self, rhs: Vec4<T>) -> bool {
        self.x.sub_req(rhs.x)
            && self.y.sub_req(rhs.y)
            && self.z.sub_req(rhs.z)
            && self.w.sub_req(rhs.w)
    }

    /// The component-wise difference at the specification level.
    pub open spec fn sub_spec(self, rhs: Vec4<T>) -> Vec4<T> {
        Vec4 {
            x: self.x.sub_spec(rhs.x),
            y: self.y.sub_spec(rhs.y),
            z: self.z.sub_spec(rhs.z),
            w: self.w.sub_spec(rhs.w),
        }
    }

    /// Subtracts the vectors component-wise.
    pub fn sub(self, rhs: Vec4<T>) -> (r: Vec4<T>)
        requires
            self.sub_req(rhs),
        ensures
            r == self.sub_spec(rhs),
    {
        Vec4 {
            x: self.x.sub(rhs.x),
            y: self.y.sub(rhs.y),
            z: self.z.sub(rhs.z),
            w: self.w.sub(rhs.w),
        }
    }

    /// Whether every component negation is representable.
    pub open spec fn neg_req(self) -> bool {
        self.x.neg_req() && self.y.neg_req() && self.z.neg_req() && self.w.neg_req()
    }

    /// The component-wise negation at the specification level.
    pub open spec fn neg_spec(self) -> Vec4<T> {
        Vec4 {
            x: self.x.neg_spec(),
            y: self.y.neg_spec(),
            z: self.z.neg_spec(),
            w: self.w.neg_spec(),
        }
    }

    /// Negates the vector component-wise.
    pub fn neg(self) -> (r: Vec4<T>)
        requires
            self.neg_req(),
        ensures
            r == self.neg_spec(),
    {
        Vec4 { x: self.x.neg(), y: self.y.neg(), z: self.z.neg(), w: self.w.neg() }
    }

    /// Whether every product with the scalar is representable.
    pub open spec fn mul_req(self, rhs: T) -> bool {
        self.x.mul_req(rhs)
            && self.y.mul_req(rhs)
            && self.z.mul_req(rhs)
            && self.w.mul_req(rhs)
    }

    /// The scalar-broadcast product at the specification level.
    pub open spec fn mul_spec(self, rhs: T) -> Vec4<T> {
        Vec4 {
            x: self.x.mul_spec(rhs),
            y: self.y.mul_spec(rhs),
            z: self.z.mul_spec(rhs),
            w: self.w.mul_spec(rhs),
        }
    }

    /// Multiplies every component by the scalar.
    pub fn mul(self, rhs: T) -> (r: Vec4<T>)
        requires
            self.mul_req(rhs),
        ensures
            r == self.mul_spec(rhs),
    {
        Vec4 {
            x: self.x.mul(rhs),
            y: self.y.mul(rhs),
            z: self.z.mul(rhs),
            w: self.w.mul(rhs),
        }
    }

    /// Whether every quotient by the scalar is defined and representable.
    pub open spec fn div_req(self, rhs: T) -> bool {
        self.x.div_req(rhs)
            && self.y.div_req(rhs)
            && self.z.div_req(rhs)
            && self.w.div_req(rhs)
    }

    /// The scalar-broadcast quotient at the specification level.
    pub open spec fn div_spec(self, rhs: T) -> Vec4<T> {
        Vec4 {
            x: self.x.div_spec(rhs),
            y: self.y.div_spec(rhs),
            z: self.z.div_spec(rhs),
            w: self.w.div_spec(rhs),
        }
    }

    /// Divides every component by the scalar.
    pub fn div(self, rhs: T) -> (r: Vec4<T>)
        requires
            self.div_req(rhs),
        ensures
            r == self.div_spec(rhs),
    {
        Vec4 {
            x: self.x.div(rhs),
            y: self.y.div(rhs),
            z: self.z.div(rhs),
            w: self.w.div(rhs),
        }
    }

    /// Whether every remainder by the scalar is defined and representable.
    pub open spec fn rem_req(self, rhs: T) -> bool {
        self.x.rem_req(rhs)
            && self.y.rem_req(rhs)
            && self.z.rem_req(rhs)
            && self.w.rem_req(rhs)
    }

    /// The scalar-broadcast remainder at the specification level.
    pub open spec fn rem_spec(self, rhs: T) -> Vec4<T> {
        Vec4 {
            x: self.x.rem_spec(rhs),
            y: self.y.rem_spec(rhs),
            z: self.z.rem_spec(rhs),
            w: self.w.rem_spec(rhs),
        }
    }

    /// Takes every component's remainder by the scalar.
    pub fn rem(self, rhs: T) -> (r: Vec4<T>)
        requires
            self.rem_req(rhs),
        ensures
            r == self.rem_spec(rhs),
    {
        Vec4 {
            x: self.x.rem(rhs),
            y: self.y.rem(rhs),
            z: self.z.rem(rhs),
            w: self.w.rem(rhs),
        }
    }

    /// Whether every component product is representable.
    pub open spec fn mul_vec_req(self, rhs: Vec4<T>) -> bool {
        self.x.mul_req(rhs.x)
            && self.y.mul_req(rhs.y)
            && self.z.mul_req(rhs.z)
            && self.w.mul_req(rhs.w)
    }

    /// The component-wise product at the specification level.
    pub open spec fn mul_vec_spec(self, rhs: Vec4<T>) -> Vec4<T> {
        Vec4 {
            x: self.x.mul_spec(rhs.x),
            y: self.y.mul_spec(rhs.y),
            z: self.z.mul_spec(rhs.z),
            w: self.w.mul_spec(rhs.w),
        }
    }

    /// Multiplies the vectors component-wise.
    pub fn mul_vec(self, rhs: Vec4<T>) -> (r: Vec4<T>)
        requires
            self.mul_vec_req(rhs),
        ensures
            r == self.mul_vec_spec(rhs),
    {
        Vec4 {
            x: self.x.mul(rhs.x),
            y: self.y.mul(rhs.y),
            z: self.z.mul(rhs.z),
            w: self.w.mul(rhs.w),
        }
    }

    /// Whether every component quotient is defined and representable.
    pub open spec fn div_vec_req(self, rhs: Vec4<T>) -> bool {
        self.x.div_req(rhs.x)
            && self.y.div_req(rhs.y)
            && self.z.div_req(rhs.z)
            && self.w.div_req(rhs.w)
    }

    /// The component-wise quotient at the specification level.
    pub open spec fn div_vec_spec(self, rhs: Vec4<T>) -> Vec4<T> {
        Vec4 {
            x: self.x.div_spec(rhs.x),
            y: self.y.div_spec(rhs.y),
            z: self.z.div_spec(rhs.z),
            w: self.w.div_spec(rhs.w),
        }
    }

    /// Divides the vectors component-wise.
    pub fn div_vec(self, rhs: Vec4<T>) -> (r: Vec4<T>)
        requires
            self.div_vec_req(rhs),
        ensures
            r == self.div_vec_spec(rhs),
    {
        Vec4 {
            x: self.x.div(rhs.x),
            y: self.y.div(rhs.y),
            z: self.z.div(rhs.z),
            w: self.w.div(rhs.w),
        }
    }

    /// Whether every component remainder is defined and representable.
    pub open spec fn rem_vec_req(self, rhs: Vec4<T>) -> bool {
        self.x.rem_req(rhs.x)
            && self.y.rem_req(rhs.y)
            && self.z.rem_req(rhs.z)
            && self.w.rem_req(rhs.w)
    }

    /// The component-wise remainder at the specification level.
    pub open spec fn rem_vec_spec(self, rhs: Vec4<T>) -> Vec4<T> {
        Vec4 {
            x: self.x.rem_spec(rhs.x),
            y: self.y.rem_spec(rhs.y),
            z: self.z.rem_spec(rhs.z),
            w: self.w.rem_spec(rhs.w),
        }
    }

    /// Takes the remainders component-wise.
    pub fn rem_vec(self, rhs: Vec4<T>) -> (r: Vec4<T>)
        requires
            self.rem_vec_req(rhs),
        ensures
            r == self.rem_vec_spec(rhs),
    {
        Vec4 {
            x: self.x.rem(rhs.x),
            y: self.y.rem(rhs.y),
            z: self.z.rem(rhs.z),
            w: self.w.rem(rhs.w),
        }
    }
}

impl<T> Vec4<T> {
    /// Whether every component's absolute value is representable.
    pub open spec fn abs_vec_req(self) -> bool where T: Abs<Output = T> {
        self.x.abs_req() && self.y.abs_req() && self.z.abs_req() && self.w.abs_req()
    }

    /// The component-wise absolute value at the specification level.
    pub open spec fn abs_vec_spec(self) -> Vec4<T> where T: Abs<Output = T> {
        Vec4 {
            x: self.x.abs_spec(),
            y: self.y.abs_spec(),
            z: self.z.abs_spec(),
            w: self.w.abs_spec(),
        }
    }

    /// Component-wise absolute value.
    pub fn abs(self) -> (r: Vec4<T>) where T: Abs<Output = T>
        requires
            self.abs_vec_req(),
        ensures
            r == self.abs_vec_spec(),
    {
        Vec4 { x: self.x.abs(), y: self.y.abs(), z: self.z.abs(), w: self.w.abs() }
    }

    /// The component-wise minimum at the specification level.
    pub open spec fn min_vec_spec(self, rhs: Vec4<T>) -> Vec4<T> where T: Min<Output = T> {
        Vec4 {
            x: self.x.min_spec(rhs.x),
            y: self.y.min_spec(rhs.y),
            z: self.z.min_spec(rhs.z),
            w: self.w.min_spec(rhs.w),
        }
    }

    /// Component-wise minimum value.
    pub fn min(self, rhs: Vec4<T>) -> (r: Vec4<T>) where T: Min<Output = T>
        ensures
            r == self.min_vec_spec(rhs),
    {
        Vec4 {
            x: self.x.min(rhs.x),
            y: self.y.min(rhs.y),
            z: self.z.min(rhs.z),
            w: self.w.min(rhs.w),
        }
    }

    /// The component-wise maximum at the specification level.
    pub open spec fn max_vec_spec(self, rhs: Vec4<T>) -> Vec4<T> where T: Max<Output = T> {
        Vec4 {
            x: self.x.max_spec(rhs.x),
            y: self.y.max_spec(rhs.y),
            z: self.z.max_spec(rhs.z),
            w: self.w.max_spec(rhs.w),
        }
    }

    /// Component-wise maximum value.
    pub fn max(self, rhs: Vec4<T>) -> (r: Vec4<T>) where T: Max<Output = T>
        ensures
            r == self.max_vec_spec(rhs),
    {
        Vec4 {
            x: self.x.max(rhs.x),
            y: self.y.max(rhs.y),
            z: self.z.max(rhs.z),
            w: self.w.max(rhs.w),
        }
    }
}

impl<T: Int> Vec4<T> {
    /// The component-wise bitwise conjunction at the specification level.
    pub open spec fn bitand_spec(self, rhs: Vec4<T>) -> Vec4<T> {
        Vec4 {
            x: self.x.bitand_spec(rhs.x),
            y: self.y.bitand_spec(rhs.y),
            z: self.z.bitand_spec(rhs.z),
            w: self.w.bitand_spec(rhs.w),
        }
    }

    /// Component-wise bitwise conjunction.
    pub fn bitand(self, rhs: Vec4<T>) -> (r: Vec4<T>)
        ensures
            r == self.bitand_spec(rhs),
    {
        Vec4 {
            x: self.x.bitand(rhs.x),
            y: self.y.bitand(rhs.y),
            z: self.z.bitand(rhs.z),
            w: self.w.bitand(rhs.w),
        }
    }
    /// The component-wise bitwise disjunction at the specification level.
    pub open spec fn bitor_spec(self, rhs: Vec4<T>) -> Vec4<T> {
        Vec4 {
            x: self.x.bitor_spec(rhs.x),
            y: self.y.bitor_spec(rhs.y),
            z: self.z.bitor_spec(rhs.z),
            w: self.w.bitor_spec(rhs.w),
        }
    }

    /// Component-wise bitwise disjunction.
    pub fn bitor(self, rhs: Vec4<T>) -> (r: Vec4<T>)
        ensures
            r == self.bitor_spec(rhs),
    {
        Vec4 {
            x: self.x.bitor(rhs.x),
            y: self.y.bitor(rhs.y),
            z: self.z.bitor(rhs.z),
            w: self.w.bitor(rhs.w),
        }
    }
    /// The component-wise bitwise exclusive disjunction at the specification level.
    pub open spec fn bitxor_spec(self, rhs: Vec4<T>) -> Vec4<T> {
        Vec4 {
            x: self.x.bitxor_spec(rhs.x),
            y: self.y.bitxor_spec(rhs.y),
            z: self.z.bitxor_spec(rhs.z),
            w: self.w.bitxor_spec(rhs.w),
        }
    }

    /// Component-wise bitwise exclusive disjunction.
    pub fn bitxor(self, rhs: Vec4<T>) -> (r: Vec4<T>)
        ensures
            r == self.bitxor_spec(rhs),
    {
        Vec4 {
            x: self.x.bitxor(rhs.x),
            y: self.y.bitxor(rhs.y),
            z: self.z.bitxor(rhs.z),
            w: self.w.bitxor(rhs.w),
        }
    }
    /// The component-wise bitwise complement at the specification level.
    pub open spec fn not_spec(self) -> Vec4<T> {
        Vec4 {
            x: self.x.not_spec(),
            y: self.y.not_spec(),
            z: self.z.not_spec(),
            w: self.w.not_spec(),
        }
    }

    /// Component-wise bitwise complement.
    pub fn not(self) -> (r: Vec4<T>)
        ensures
            r == self.not_spec(),
    {
        Vec4 { x: self.x.not(), y: self.y.not(), z: self.z.not(), w: self.w.not() }
    }
}


impl<T: Abs> Abs for Vec2<T> {
    type Output = Vec2<T::Output>;

    open spec fn abs_req(self) -> bool {
        self.x.abs_req() && self.y.abs_req()
    }

    open spec fn abs_spec(self) -> Vec2<T::Output> {
        Vec2 { x: self.x.abs_spec(), y: self.y.abs_spec() }
    }

    fn abs(self) -> Vec2<T::Output> {
        Vec2 { x: self.x.abs(), y: self.y.abs() }
    }
}

impl<U, T: Min<U>> Min<Vec2<U>> for Vec2<T> {
    type Output = Vec2<T::Output>;

    open spec fn min_spec(self, rhs: Vec2<U>) -> Vec2<T::Output> {
        Vec2 { x: self.x.min_spec(rhs.x), y: self.y.min_spec(rhs.y) }
    }

    fn min(self, rhs: Vec2<U>) -> Vec2<T::Output> {
        Vec2 { x: self.x.min(rhs.x), y: self.y.min(rhs.y) }
    }
}

impl<U, T: Max<U>> Max<Vec2<U>> for Vec2<T> {
    type Output = Vec2<T::Output>;

    open spec fn max_spec(self, rhs: Vec2<U>) -> Vec2<T::Output> {
        Vec2 { x: self.x.max_spec(rhs.x), y: self.y.max_spec(rhs.y) }
    }

    fn max(self, rhs: Vec2<U>) -> Vec2<T::Output> {
        Vec2 { x: self.x.max(rhs.x), y: self.y.max(rhs.y) }
    }
}

impl<T: Abs> Abs for Vec3<T> {
    type Output = Vec3<T::Output>;

    open spec fn abs_req(self) -> bool {
        self.x.abs_req() && self.y.abs_req() && self.z.abs_req()
    }

    open spec fn abs_spec(self) -> Vec3<T::Output> {
        Vec3 { x: self.x.abs_spec(), y: self.y.abs_spec(), z: self.z.abs_spec() }
    }

    fn abs(self) -> Vec3<T::Output> {
        Vec3 { x: self.x.abs(), y: self.y.abs(), z: self.z.abs() }
    }
}

impl<U, T: Min<U>> Min<Vec3<U>> for Vec3<T> {
    type Output = Vec3<T::Output>;

    open spec fn min_spec(self, rhs: Vec3<U>) -> Vec3<T::Output> {
        Vec3 {
            x: self.x.min_spec(rhs.x),
            y: self.y.min_spec(rhs.y),
            z: self.z.min_spec(rhs.z),
        }
    }

    fn min(self, rhs: Vec3<U>) -> Vec3<T::Output> {
        Vec3 { x: self.x.min(rhs.x), y: self.y.min(rhs.y), z: self.z.min(rhs.z) }
    }
}

impl<U, T: Max<U>> Max<Vec3<U>> for Vec3<T> {
    type Output = Vec3<T::Output>;

    open spec fn max_spec(self, rhs: Vec3<U>) -> Vec3<T::Output> {
        Vec3 {
            x: self.x.max_spec(rhs.x),
            y: self.y.max_spec(rhs.y),
            z: self.z.max_spec(rhs.z),
        }
    }

    fn max(self, rhs: Vec3<U>) -> Vec3<T::Output> {
        Vec3 { x: self.x.max(rhs.x), y: self.y.max(rhs.y), z: self.z.max(rhs.z) }
    }
}

impl<T: Abs> Abs for Vec4<T> {
    type Output = Vec4<T::Output>;

    open spec fn abs_req(self) -> bool {
        self.x.abs_req() && self.y.abs_req() && self.z.abs_req() && self.w.abs_req()
    }

    open spec fn abs_spec(self) -> Vec4<T::Output> {
        Vec4 {
            x: self.x.abs_spec(),
            y: self.y.abs_spec(),
            z: self.z.abs_spec(),
            w: self.w.abs_spec(),
        }
    }

    fn abs(self) -> Vec4<T::Output> {
        Vec4 { x: self.x.abs(), y: self.y.abs(), z: self.z.abs(), w: self.w.abs() }
    }
}

impl<U, T: Min<U>> Min<Vec4<U>> for Vec4<T> {
    type Output = Vec4<T::Output>;

    open spec fn min_spec(self, rhs: Vec4<U>) -> Vec4<T::Output> {
        Vec4 {
            x: self.x.min_spec(rhs.x),
            y: self.y.min_spec(rhs.y),
            z: self.z.min_spec(rhs.z),
            w: self.w.min_spec(rhs.w),
        }
    }

    fn min(self, rhs: Vec4<U>) -> Vec4<T::Output> {
        Vec4 {
            x: self.x.min(rhs.x),
            y: self.y.min(rhs.y),
            z: self.z.min(rhs.z),
            w: self.w.min(rhs.w),
        }
    }
}

impl<U, T: Max<U>> Max<Vec4<U>> for Vec4<T> {
    type Output = Vec4<T::Output>;

    open spec fn max_spec(self, rhs: Vec4<U>) -> Vec4<T::Output> {
        Vec4 {
            x: self.x.max_spec(rhs.x),
            y: self.y.max_spec(rhs.y),
            z: self.z.max_spec(rhs.z),
            w: self.w.max_spec(rhs.w),
        }
    }

    fn max(self, rhs: Vec4<U>) -> Vec4<T::Output> {
        Vec4 {
            x: self.x.max(rhs.x),
            y: self.y.max(rhs.y),
            z: self.z.max(rhs.z),
            w: self.w.max(rhs.w),
        }
    }
}

} // verus!
