//! Boolean mask vectors.
//!
//! Comparison masks are vectors of booleans, produced by the per-component
//! comparisons and predicates here and consumed by `select`. Unlike the
//! whole-vector derived comparisons, these are independent per axis: no
//! lexicographic short-circuit takes place. The mask reductions `any`,
//! `all` and `none` and the component-wise boolean operators complete the
//! set.

use vstd::prelude::*;

use crate::num::Scalar;
use crate::vec::Vec2;
use crate::vec::Vec3;
use crate::vec::Vec4;

verus! {

impl<T> Vec2<T> {
    /// Creates a mask by applying the predicate to each component, in
    /// declaration order.
    pub fn mask<F: Fn(T) -> bool>(self, f: F) -> (r: Vec2<bool>)
        requires
            call_requires(f, (self.x,)),
            call_requires(f, (self.y,)),
        ensures
            call_ensures(f, (self.x,), r.x),
            call_ensures(f, (self.y,), r.y),
    {
        Vec2 { x: f(self.x), y: f(self.y) }
    }

    /// Creates a mask by applying the predicate to each pair of same-named
    /// components, in declaration order.
    pub fn masked<F: Fn(T, T) -> bool>(self, rhs: Vec2<T>, f: F) -> (r: Vec2<bool>)
        requires
            call_requires(f, (self.x, rhs.x)),
            call_requires(f, (self.y, rhs.y)),
        ensures
            call_ensures(f, (self.x, rhs.x), r.x),
            call_ensures(f, (self.y, rhs.y), r.y),
    {
        Vec2 { x: f(self.x, rhs.x), y: f(self.y, rhs.y) }
    }

    /// The component-wise merge at the specification level: each component
    /// comes from `self` where the mask holds, else from `rhs`.
    pub open spec fn select_spec(self, rhs: Vec2<T>, mask: Vec2<bool>) -> Vec2<T> {
        Vec2 {
            x: if mask.x { self.x } else { rhs.x },
            y: if mask.y { self.y } else { rhs.y },
        }
    }

    /// Combines two vectors based on the mask, selecting components from
    /// `self` where `true` and from `rhs` where `false`.
    pub fn select(self, rhs: Vec2<T>, mask: Vec2<bool>) -> (r: Vec2<T>)
        ensures
            r == self.select_spec(rhs, mask),
    {
        Vec2 {
            x: if mask.x { self.x } else { rhs.x },
            y: if mask.y { self.y } else { rhs.y },
        }
    }
}

impl<T: Scalar> Vec2<T> {
    /// The equality mask at the specification level.
    pub open spec fn eq_spec(self, rhs: Vec2<T>) -> Vec2<bool> {
        Vec2 { x: self.x == rhs.x, y: self.y == rhs.y }
    }

    /// Masks where the components are equal, independently per axis.
    pub fn eq(self, rhs: Vec2<T>) -> (r: Vec2<bool>)
        ensures
            r == self.eq_spec(rhs),
    {
        Vec2 { x: self.x.eq_val(rhs.x), y: self.y.eq_val(rhs.y) }
    }

    /// The not-equal mask at the specification level.
    pub open spec fn ne_spec(self, rhs: Vec2<T>) -> Vec2<bool> {
        Vec2 { x: self.x != rhs.x, y: self.y != rhs.y }
    }

    /// Masks where the components are not equal, independently per axis.
    pub fn ne(self, rhs: Vec2<T>) -> (r: Vec2<bool>)
        ensures
            r == self.ne_spec(rhs),
    {
        Vec2 { x: self.x.ne_val(rhs.x), y: self.y.ne_val(rhs.y) }
    }

    /// The strictly-less mask at the specification level.
    pub open spec fn lt_spec(self, rhs: Vec2<T>) -> Vec2<bool> {
        Vec2 { x: self.x.lt_spec(rhs.x), y: self.y.lt_spec(rhs.y) }
    }

    /// Masks where the components are less than the right-hand side, independently per axis.
    pub fn lt(self, rhs: Vec2<T>) -> (r: Vec2<bool>)
        ensures
            r == self.lt_spec(rhs),
    {
        Vec2 { x: self.x.lt(rhs.x), y: self.y.lt(rhs.y) }
    }

    /// The less-or-equal mask at the specification level.
    pub open spec fn le_spec(self, rhs: Vec2<T>) -> Vec2<bool> {
        Vec2 { x: self.x.le_spec(rhs.x), y: self.y.le_spec(rhs.y) }
    }

    /// Masks where the components are less than or equal to the right-hand side, independently per axis.
    pub fn le(self, rhs: Vec2<T>) -> (r: Vec2<bool>)
        ensures
            r == self.le_spec(rhs),
    {
        Vec2 { x: self.x.le(rhs.x), y: self.y.le(rhs.y) }
    }

    /// The strictly-greater mask at the specification level.
    pub open spec fn gt_spec(self, rhs: Vec2<T>) -> Vec2<bool> {
        Vec2 { x: rhs.x.lt_spec(self.x), y: rhs.y.lt_spec(self.y) }
    }

    /// Masks where the components are greater than the right-hand side, independently per axis.
    pub fn gt(self, rhs: Vec2<T>) -> (r: Vec2<bool>)
        ensures
            r == self.gt_spec(rhs),
    {
        Vec2 { x: self.x.gt(rhs.x), y: self.y.gt(rhs.y) }
    }

    /// The greater-or-equal mask at the specification level.
    pub open spec fn ge_spec(self, rhs: Vec2<T>) -> Vec2<bool> {
        Vec2 { x: rhs.x.le_spec(self.x), y: rhs.y.le_spec(self.y) }
    }

    /// Masks where the components are greater than or equal to the right-hand side, independently per axis.
    pub fn ge(self, rhs: Vec2<T>) -> (r: Vec2<bool>)
        ensures
            r == self.ge_spec(rhs),
    {
        Vec2 { x: self.x.ge(rhs.x), y: self.y.ge(rhs.y) }
    }

    /// Law: a vector compared with itself is component-wise equal on
    /// every axis, and strictly smaller on none.
    pub proof fn lemma_cmp_refl(v: Vec2<T>)
        ensures
            v.eq_spec(v).all_spec(),
            !v.lt_spec(v).any_spec(),
    {
        v.x.lemma_lt_irrefl();
        v.y.lemma_lt_irrefl();
    }
}

impl Vec2<bool> {
    /// Whether any component is set, at the specification level.
    pub open spec fn any_spec(self) -> bool {
        self.x || self.y
    }

    /// Returns `true` if any of the components is `true`.
    pub fn any(self) -> (r: bool)
        ensures
            r == self.any_spec(),
    {
        self.x || self.y
    }

    /// Whether every component is set, at the specification level.
    pub open spec fn all_spec(self) -> bool {
        self.x && self.y
    }

    /// Returns `true` if all the components are `true`.
    pub fn all(self) -> (r: bool)
        ensures
            r == self.all_spec(),
    {
        self.x && self.y
    }

    /// Returns `true` if none of the components are `true`.
    pub fn none(self) -> (r: bool)
        ensures
            r == !self.any_spec(),
    {
        !self.any()
    }

    /// The component-wise conjunction at the specification level.
    pub open spec fn and_spec(self, rhs: Vec2<bool>) -> Vec2<bool> {
        Vec2 { x: self.x && rhs.x, y: self.y && rhs.y }
    }

    /// Component-wise boolean conjunction.
    pub fn bitand(self, rhs: Vec2<bool>) -> (r: Vec2<bool>)
        ensures
            r == self.and_spec(rhs),
    {
        Vec2 { x: self.x && rhs.x, y: self.y && rhs.y }
    }

    /// The component-wise disjunction at the specification level.
    pub open spec fn or_spec(self, rhs: Vec2<bool>) -> Vec2<bool> {
        Vec2 { x: self.x || rhs.x, y: self.y || rhs.y }
    }

    /// Component-wise boolean disjunction.
    pub fn bitor(self, rhs: Vec2<bool>) -> (r: Vec2<bool>)
        ensures
            r == self.or_spec(rhs),
    {
        Vec2 { x: self.x || rhs.x, y: self.y || rhs.y }
    }

    /// The component-wise exclusive disjunction at the specification
    /// level.
    pub open spec fn xor_spec(self, rhs: Vec2<bool>) -> Vec2<bool> {
        Vec2 { x: self.x != rhs.x, y: self.y != rhs.y }
    }

    /// Component-wise boolean exclusive disjunction.
    pub fn bitxor(self, rhs: Vec2<bool>) -> (r: Vec2<bool>)
        ensures
            r == self.xor_spec(rhs),
    {
        Vec2 { x: self.x != rhs.x, y: self.y != rhs.y }
    }

    /// The component-wise complement at the specification level.
    pub open spec fn not_mask_spec(self) -> Vec2<bool> {
        Vec2 { x: !self.x, y: !self.y }
    }

    /// Component-wise boolean complement.
    pub fn not(self) -> (r: Vec2<bool>)
        ensures
            r == self.not_mask_spec(),
    {
        Vec2 { x: !self.x, y: !self.y }
    }
}

impl<T> Vec3<T> {
    /// Creates a mask by applying the predicate to each component, in
    /// declaration order.
    pub fn mask<F: Fn(T) -> bool>(self, f: F) -> (r: Vec3<bool>)
        requires
            call_requires(f, (self.x,)),
            call_requires(f, (self.y,)),
            call_requires(f, (self.z,)),
        ensures
            call_ensures(f, (self.x,), r.x),
            call_ensures(f, (self.y,), r.y),
            call_ensures(f, (self.z,), r.z),
    {
        Vec3 { x: f(self.x), y: f(self.y), z: f(self.z) }
    }

    /// Creates a mask by applying the predicate to each pair of same-named
    /// components, in declaration order.
    pub fn masked<F: Fn(T, T) -> bool>(self, rhs: Vec3<T>, f: F) -> (r: Vec3<bool>)
        requires
            call_requires(f, (self.x, rhs.x)),
            call_requires(f, (self.y, rhs.y)),
            call_requires(f, (self.z, rhs.z)),
        ensures
            call_ensures(f, (self.x, rhs.x), r.x),
            call_ensures(f, (self.y, rhs.y), r.y),
            call_ensures(f, (self.z, rhs.z), r.z),
    {
        Vec3 { x: f(self.x, rhs.x), y: f(self.y, rhs.y), z: f(self.z, rhs.z) }
    }

    /// The component-wise merge at the specification level: each component
    /// comes from `self` where the mask holds, else from `rhs`.
    pub open spec fn select_spec(self, rhs: Vec3<T>, mask: Vec3<bool>) -> Vec3<T> {
        Vec3 {
            x: if mask.x { self.x } else { rhs.x },
            y: if mask.y { self.y } else { rhs.y },
            z: if mask.z { self.z } else { rhs.z },
        }
    }

    /// Combines two vectors based on the mask, selecting components from
    /// `self` where `true` and from `rhs` where `false`.
    pub fn select(self, rhs: Vec3<T>, mask: Vec3<bool>) -> (r: Vec3<T>)
        ensures
            r == self.select_spec(rhs, mask),
    {
        Vec3 {
            x: if mask.x { self.x } else { rhs.x },
            y: if mask.y { self.y } else { rhs.y },
            z: if mask.z { self.z } else { rhs.z },
        }
    }
}

impl<T: Scalar> Vec3<T> {
    /// The equality mask at the specification level.
    pub open spec fn eq_spec(self, rhs: Vec3<T>) -> Vec3<bool> {
        Vec3 { x: self.x == rhs.x, y: self.y == rhs.y, z: self.z == rhs.z }
    }

    /// Masks where the components are equal, independently per axis.
    pub fn eq(self, rhs: Vec3<T>) -> (r: Vec3<bool>)
        ensures
            r == self.eq_spec(rhs),
    {
        Vec3 { x: self.x.eq_val(rhs.x), y: self.y.eq_val(rhs.y), z: self.z.eq_val(rhs.z) }
    }

    /// The not-equal mask at the specification level.
    pub open spec fn ne_spec(self, rhs: Vec3<T>) -> Vec3<bool> {
        Vec3 { x: self.x != rhs.x, y: self.y != rhs.y, z: self.z != rhs.z }
    }

    /// Masks where the components are not equal, independently per axis.
    pub fn ne(self, rhs: Vec3<T>) -> (r: Vec3<bool>)
        ensures
            r == self.ne_spec(rhs),
    {
        Vec3 { x: self.x.ne_val(rhs.x), y: self.y.ne_val(rhs.y), z: self.z.ne_val(rhs.z) }
    }

    /// The strictly-less mask at the specification level.
    pub open spec fn lt_spec(self, rhs: Vec3<T>) -> Vec3<bool> {
        Vec3 {
            x: self.x.lt_spec(rhs.x),
            y: self.y.lt_spec(rhs.y),
            z: self.z.lt_spec(rhs.z),
        }
    }

    /// Masks where the components are less than the right-hand side, independently per axis.
    pub fn lt(self, rhs: Vec3<T>) -> (r: Vec3<bool>)
        ensures
            r == self.lt_spec(rhs),
    {
        Vec3 { x: self.x.lt(rhs.x), y: self.y.lt(rhs.y), z: self.z.lt(rhs.z) }
    }

    /// The less-or-equal mask at the specification level.
    pub open spec fn le_spec(self, rhs: Vec3<T>) -> Vec3<bool> {
        Vec3 {
            x: self.x.le_spec(rhs.x),
            y: self.y.le_spec(rhs.y),
            z: self.z.le_spec(rhs.z),
        }
    }

    /// Masks where the components are less than or equal to the right-hand side, independently per axis.
    pub fn le(self, rhs: Vec3<T>) -> (r: Vec3<bool>)
        ensures
            r == self.le_spec(rhs),
    {
        Vec3 { x: self.x.le(rhs.x), y: self.y.le(rhs.y), z: self.z.le(rhs.z) }
    }

    /// The strictly-greater mask at the specification level.
    pub open spec fn gt_spec(self, rhs: Vec3<T>) -> Vec3<bool> {
        Vec3 {
            x: rhs.x.lt_spec(self.x),
            y: rhs.y.lt_spec(self.y),
            z: rhs.z.lt_spec(self.z),
        }
    }

    /// Masks where the components are greater than the right-hand side, independently per axis.
    pub fn gt(self, rhs: Vec3<T>) -> (r: Vec3<bool>)
        ensures
            r == self.gt_spec(rhs),
    {
        Vec3 { x: self.x.gt(rhs.x), y: self.y.gt(rhs.y), z: self.z.gt(rhs.z) }
    }

    /// The greater-or-equal mask at the specification level.
    pub open spec fn ge_spec(self, rhs: Vec3<T>) -> Vec3<bool> {
        Vec3 {
            x: rhs.x.le_spec(self.x),
            y: rhs.y.le_spec(self.y),
            z: rhs.z.le_spec(self.z),
        }
    }

    /// Masks where the components are greater than or equal to the right-hand side, independently per axis.
    pub fn ge(self, rhs: Vec3<T>) -> (r: Vec3<bool>)
        ensures
            r == self.ge_spec(rhs),
    {
        Vec3 { x: self.x.ge(rhs.x), y: self.y.ge(rhs.y), z: self.z.ge(rhs.z) }
    }

    /// Law: a vector compared with itself is component-wise equal on
    /// every axis, and strictly smaller on none.
    pub proof fn lemma_cmp_refl(v: Vec3<T>)
        ensures
            v.eq_spec(v).all_spec(),
            !v.lt_spec(v).any_spec(),
    {
        v.x.lemma_lt_irrefl();
        v.y.lemma_lt_irrefl();
        v.z.lemma_lt_irrefl();
    }
}

impl Vec3<bool> {
    /// Whether any component is set, at the specification level.
    pub open spec fn any_spec(self) -> bool {
        self.x || self.y || self.z
    }

    /// Returns `true` if any of the components is `true`.
    pub fn any(self) -> (r: bool)
        ensures
            r == self.any_spec(),
    {
        self.x || self.y || self.z
    }

    /// Whether every component is set, at the specification level.
    pub open spec fn all_spec(self) -> bool {
        self.x && self.y && self.z
    }

    /// Returns `true` if all the components are `true`.
    pub fn all(self) -> (r: bool)
        ensures
            r == self.all_spec(),
    {
        self.x && self.y && self.z
    }

    /// Returns `true` if none of the components are `true`.
    pub fn none(self) -> (r: bool)
        ensures
            r == !self.any_spec(),
    {
        !self.any()
    }

    /// The component-wise conjunction at the specification level.
    pub open spec fn and_spec(self, rhs: Vec3<bool>) -> Vec3<bool> {
        Vec3 { x: self.x && rhs.x, y: self.y && rhs.y, z: self.z && rhs.z }
    }

    /// Component-wise boolean conjunction.
    pub fn bitand(self, rhs: Vec3<bool>) -> (r: Vec3<bool>)
        ensures
            r == self.and_spec(rhs),
    {
        Vec3 { x: self.x && rhs.x, y: self.y && rhs.y, z: self.z && rhs.z }
    }

    /// The component-wise disjunction at the specification level.
    pub open spec fn or_spec(self, rhs: Vec3<bool>) -> Vec3<bool> {
        Vec3 { x: self.x || rhs.x, y: self.y || rhs.y, z: self.z || rhs.z }
    }

    /// Component-wise boolean disjunction.
    pub fn bitor(self, rhs: Vec3<bool>) -> (r: Vec3<bool>)
        ensures
            r == self.or_spec(rhs),
    {
        Vec3 { x: self.x || rhs.x, y: self.y || rhs.y, z: self.z || rhs.z }
    }

    /// The component-wise exclusive disjunction at the specification
    /// level.
    pub open spec fn xor_spec(self, rhs: Vec3<bool>) -> Vec3<bool> {
        Vec3 { x: self.x != rhs.x, y: self.y != rhs.y, z: self.z != rhs.z }
    }

    /// Component-wise boolean exclusive disjunction.
    pub fn bitxor(self, rhs: Vec3<bool>) -> (r: Vec3<bool>)
        ensures
            r == self.xor_spec(rhs),
    {
        Vec3 { x: self.x != rhs.x, y: self.y != rhs.y, z: self.z != rhs.z }
    }

    /// The component-wise complement at the specification level.
    pub open spec fn not_mask_spec(self) -> Vec3<bool> {
        Vec3 { x: !self.x, y: !self.y, z: !self.z }
    }

    /// Component-wise boolean complement.
    pub fn not(self) -> (r: Vec3<bool>)
        ensures
            r == self.not_mask_spec(),
    {
        Vec3 { x: !self.x, y: !self.y, z: !self.z }
    }
}

impl<T> Vec4<T> {
    /// Creates a mask by applying the predicate to each component, in
    /// declaration order.
    pub fn mask<F: Fn(T) -> bool>(self, f: F) -> (r: Vec4<bool>)
        requires
            call_requires(f, (self.x,)),
            call_requires(f, (self.y,)),
            call_requires(f, (self.z,)),
            call_requires(f, (self.w,)),
        ensures
            call_ensures(f, (self.x,), r.x),
            call_ensures(f, (self.y,), r.y),
            call_ensures(f, (self.z,), r.z),
            call_ensures(f, (self.w,), r.w),
    {
        Vec4 { x: f(self.x), y: f(self.y), z: f(self.z), w: f(self.w) }
    }

    /// Creates a mask by applying the predicate to each pair of same-named
    /// components, in declaration order.
    pub fn masked<F: Fn(T, T) -> bool>(self, rhs: Vec4<T>, f: F) -> (r: Vec4<bool>)
        requires
            call_requires(f, (self.x, rhs.x)),
            call_requires(f, (self.y, rhs.y)),
            call_requires(f, (self.z, rhs.z)),
            call_requires(f, (self.w, rhs.w)),
        ensures
            call_ensures(f, (self.x, rhs.x), r.x),
            call_ensures(f, (self.y, rhs.y), r.y),
            call_ensures(f, (self.z, rhs.z), r.z),
            call_ensures(f, (self.w, rhs.w), r.w),
    {
        Vec4 {
            x: f(self.x, rhs.x),
            y: f(self.y, rhs.y),
            z: f(self.z, rhs.z),
            w: f(self.w, rhs.w),
        }
    }

    /// The component-wise merge at the specification level: each component
    /// comes from `self` where the mask holds, else from `rhs`.
    pub open spec fn select_spec(self, rhs: Vec4<T>, mask: Vec4<bool>) -> Vec4<T> {
        Vec4 {
            x: if mask.x { self.x } else { rhs.x },
            y: if mask.y { self.y } else { rhs.y },
            z: if mask.z { self.z } else { rhs.z },
            w: if mask.w { self.w } else { rhs.w },
        }
    }

    /// Combines two vectors based on the mask, selecting components from
    /// `self` where `true` and from `rhs` where `false`.
    pub fn select(self, rhs: Vec4<T>, mask: Vec4<bool>) -> (r: Vec4<T>)
        ensures
            r == self.select_spec(rhs, mask),
    {
        Vec4 {
            x: if mask.x { self.x } else { rhs.x },
            y: if mask.y { self.y } else { rhs.y },
            z: if mask.z { self.z } else { rhs.z },
            w: if mask.w { self.w } else { rhs.w },
        }
    }
}

impl<T: Scalar> Vec4<T> {
    /// The equality mask at the specification level.
    pub open spec fn eq_spec(self, rhs: Vec4<T>) -> Vec4<bool> {
        Vec4 {
            x: self.x == rhs.x,
            y: self.y == rhs.y,
            z: self.z == rhs.z,
            w: self.w == rhs.w,
        }
    }

    /// Masks where the components are equal, independently per axis.
    pub fn eq(self, rhs: Vec4<T>) -> (r: Vec4<bool>)
        ensures
            r == self.eq_spec(rhs),
    {
        Vec4 {
            x: self.x.eq_val(rhs.x),
            y: self.y.eq_val(rhs.y),
            z: self.z.eq_val(rhs.z),
            w: self.w.eq_val(rhs.w),
        }
    }

    /// The not-equal mask at the specification level.
    pub open spec fn ne_spec(self, rhs: Vec4<T>) -> Vec4<bool> {
        Vec4 {
            x: self.x != rhs.x,
            y: self.y != rhs.y,
            z: self.z != rhs.z,
            w: self.w != rhs.w,
        }
    }

    /// Masks where the components are not equal, independently per axis.
    pub fn ne(self, rhs: Vec4<T>) -> (r: Vec4<bool>)
        ensures
            r == self.ne_spec(rhs),
    {
        Vec4 {
            x: self.x.ne_val(rhs.x),
            y: self.y.ne_val(rhs.y),
            z: self.z.ne_val(rhs.z),
            w: self.w.ne_val(rhs.w),
        }
    }

    /// The strictly-less mask at the specification level.
    pub open spec fn lt_spec(self, rhs: Vec4<T>) -> Vec4<bool> {
        Vec4 {
            x: self.x.lt_spec(rhs.x),
            y: self.y.lt_spec(rhs.y),
            z: self.z.lt_spec(rhs.z),
            w: self.w.lt_spec(rhs.w),
        }
    }

    /// Masks where the components are less than the right-hand side, independently per axis.
    pub fn lt(self, rhs: Vec4<T>) -> (r: Vec4<bool>)
        ensures
            r == self.lt_spec(rhs),
    {
        Vec4 {
            x: self.x.lt(rhs.x),
            y: self.y.lt(rhs.y),
            z: self.z.lt(rhs.z),
            w: self.w.lt(rhs.w),
        }
    }

    /// The less-or-equal mask at the specification level.
    pub open spec fn le_spec(self, rhs: Vec4<T>) -> Vec4<bool> {
        Vec4 {
            x: self.x.le_spec(rhs.x),
            y: self.y.le_spec(rhs.y),
            z: self.z.le_spec(rhs.z),
            w: self.w.le_spec(rhs.w),
        }
    }

    /// Masks where the components are less than or equal to the right-hand side, independently per axis.
    pub fn le(self, rhs: Vec4<T>) -> (r: Vec4<bool>)
        ensures
            r == self.le_spec(rhs),
    {
        Vec4 {
            x: self.x.le(rhs.x),
            y: self.y.le(rhs.y),
            z: self.z.le(rhs.z),
            w: self.w.le(rhs.w),
        }
    }

    /// The strictly-greater mask at the specification level.
    pub open spec fn gt_spec(self, rhs: Vec4<T>) -> Vec4<bool> {
        Vec4 {
            x: rhs.x.lt_spec(self.x),
            y: rhs.y.lt_spec(self.y),
            z: rhs.z.lt_spec(self.z),
            w: rhs.w.lt_spec(self.w),
        }
    }

    /// Masks where the components are greater than the right-hand side, independently per axis.
    pub fn gt(self, rhs: Vec4<T>) -> (r: Vec4<bool>)
        ensures
            r == self.gt_spec(rhs),
    {
        Vec4 {
            x: self.x.gt(rhs.x),
            y: self.y.gt(rhs.y),
            z: self.z.gt(rhs.z),
            w: self.w.gt(rhs.w),
        }
    }

    /// The greater-or-equal mask at the specification level.
    pub open spec fn ge_spec(self, rhs: Vec4<T>) -> Vec4<bool> {
        Vec4 {
            x: rhs.x.le_spec(self.x),
            y: rhs.y.le_spec(self.y),
            z: rhs.z.le_spec(self.z),
            w: rhs.w.le_spec(self.w),
        }
    }

    /// Masks where the components are greater than or equal to the right-hand side, independently per axis.
    pub fn ge(self, rhs: Vec4<T>) -> (r: Vec4<bool>)
        ensures
            r == self.ge_spec(rhs),
    {
        Vec4 {
            x: self.x.ge(rhs.x),
            y: self.y.ge(rhs.y),
            z: self.z.ge(rhs.z),
            w: self.w.ge(rhs.w),
        }
    }

    /// Law: a vector compared with itself is component-wise equal on
    /// every axis, and strictly smaller on none.
    pub proof fn lemma_cmp_refl(v: Vec4<T>)
        ensures
            v.eq_spec(v).all_spec(),
            !v.lt_spec(v).any_spec(),
    {
        v.x.lemma_lt_irrefl();
        v.y.lemma_lt_irrefl();
        v.z.lemma_lt_irrefl();
        v.w.lemma_lt_irrefl();
    }
}

impl Vec4<bool> {
    /// Whether any component is set, at the specification level.
    pub open spec fn any_spec(self) -> bool {
        self.x || self.y || self.z || self.w
    }

    /// Returns `true` if any of the components is `true`.
    pub fn any(self) -> (r: bool)
        ensures
            r == self.any_spec(),
    {
        self.x || self.y || self.z || self.w
    }

    /// Whether every component is set, at the specification level.
    pub open spec fn all_spec(self) -> bool {
        self.x && self.y && self.z && self.w
    }

    /// Returns `true` if all the components are `true`.
    pub fn all(self) -> (r: bool)
        ensures
            r == self.all_spec(),
    {
        self.x && self.y && self.z && self.w
    }

    /// Returns `true` if none of the components are `true`.
    pub fn none(self) -> (r: bool)
        ensures
            r == !self.any_spec(),
    {
        !self.any()
    }

    /// The component-wise conjunction at the specification level.
    pub open spec fn and_spec(self, rhs: Vec4<bool>) -> Vec4<bool> {
        Vec4 {
            x: self.x && rhs.x,
            y: self.y && rhs.y,
            z: self.z && rhs.z,
            w: self.w && rhs.w,
        }
    }

    /// Component-wise boolean conjunction.
    pub fn bitand(self, rhs: Vec4<bool>) -> (r: Vec4<bool>)
        ensures
            r == self.and_spec(rhs),
    {
        Vec4 {
            x: self.x && rhs.x,
            y: self.y && rhs.y,
            z: self.z && rhs.z,
            w: self.w && rhs.w,
        }
    }

    /// The component-wise disjunction at the specification level.
    pub open spec fn or_spec(self, rhs: Vec4<bool>) -> Vec4<bool> {
        Vec4 {
            x: self.x || rhs.x,
            y: self.y || rhs.y,
            z: self.z || rhs.z,
            w: self.w || rhs.w,
        }
    }

    /// Component-wise boolean disjunction.
    pub fn bitor(self, rhs: Vec4<bool>) -> (r: Vec4<bool>)
        ensures
            r == self.or_spec(rhs),
    {
        Vec4 {
            x: self.x || rhs.x,
            y: self.y || rhs.y,
            z: self.z || rhs.z,
            w: self.w || rhs.w,
        }
    }

    /// The component-wise exclusive disjunction at the specification
    /// level.
    pub open spec fn xor_spec(self, rhs: Vec4<bool>) -> Vec4<bool> {
        Vec4 {
            x: self.x != rhs.x,
            y: self.y != rhs.y,
            z: self.z != rhs.z,
            w: self.w != rhs.w,
        }
    }

    /// Component-wise boolean exclusive disjunction.
    pub fn bitxor(self, rhs: Vec4<bool>) -> (r: Vec4<bool>)
        ensures
            r == self.xor_spec(rhs),
    {
        Vec4 {
            x: self.x != rhs.x,
            y: self.y != rhs.y,
            z: self.z != rhs.z,
            w: self.w != rhs.w,
        }
    }

    /// The component-wise complement at the specification level.
    pub open spec fn not_mask_spec(self) -> Vec4<bool> {
        Vec4 { x: !self.x, y: !self.y, z: !self.z, w: !self.w }
    }

    /// Component-wise boolean complement.
    pub fn not(self) -> (r: Vec4<bool>)
        ensures
            r == self.not_mask_spec(),
    {
        Vec4 { x: !self.x, y: !self.y, z: !self.z, w: !self.w }
    }
}

} // verus!
