//! Numeric capability traits.
//!
//! Each trait is a minimal capability a scalar type must offer to take part
//! in vector arithmetic. Every executable method carries a contract phrased
//! over a spec-level twin, so that vector operations built on top of these
//! traits can state exactly what they compute.

use vstd::prelude::*;

verus! {

/// Truncating division (rounding towards zero), as the `/` operator of the
/// built-in integer types computes it, written over the Euclidean `/` of
/// specification arithmetic.
pub open spec fn trunc_div(x: int, d: int) -> int {
    if x >= 0 {
        x / d
    } else {
        -((-x) / d)
    }
}

/// Remainder paired with [`trunc_div`], as the `%` operator of the built-in
/// integer types computes it: the result takes the sign of the dividend.
pub open spec fn trunc_rem(x: int, d: int) -> int {
    if x >= 0 {
        x % d
    } else {
        -((-x) % d)
    }
}

/// The additive identity.
pub trait Zero: Sized {
    /// The identity value at the specification level.
    spec fn zero_spec() -> Self;

    /// Returns the additive identity.
    fn zero() -> (r: Self)
        ensures
            r == Self::zero_spec(),
    ;
}

/// The multiplicative identity.
pub trait One: Sized {
    /// The identity value at the specification level.
    spec fn one_spec() -> Self;

    /// Returns the multiplicative identity.
    fn one() -> (r: Self)
        ensures
            r == Self::one_spec(),
    ;
}

/// The lesser of two values, generic over the right-hand side.
pub trait Min<Rhs = Self>: Sized {
    /// The type of the lesser value.
    type Output;

    /// The lesser value at the specification level.
    spec fn min_spec(self, rhs: Rhs) -> Self::Output;

    /// Returns the lesser of the two operands; on ties either operand may
    /// come back, the two being equal.
    fn min(self, rhs: Rhs) -> (r: Self::Output)
        ensures
            r == self.min_spec(rhs),
    ;
}

/// The greater of two values, generic over the right-hand side.
pub trait Max<Rhs = Self>: Sized {
    /// The type of the greater value.
    type Output;

    /// The greater value at the specification level.
    spec fn max_spec(self, rhs: Rhs) -> Self::Output;

    /// Returns the greater of the two operands; on ties either operand may
    /// come back, the two being equal.
    fn max(self, rhs: Rhs) -> (r: Self::Output)
        ensures
            r == self.max_spec(rhs),
    ;
}

/// The absolute value.
pub trait Abs: Sized {
    /// The type of the absolute value.
    type Output;

    /// Whether the absolute value is representable.
    spec fn abs_req(self) -> bool;

    /// The absolute value at the specification level.
    spec fn abs_spec(self) -> Self::Output;

    /// Returns the absolute value.
    fn abs(self) -> (r: Self::Output)
        requires
            self.abs_req(),
        ensures
            r == self.abs_spec(),
    ;
}

/// Explicit, possibly lossy numeric conversion to the scalar type `T`.
pub trait Cast<T>: Sized {
    /// The converted value at the specification level.
    spec fn cast_spec(self) -> T;

    /// Converts to `T`, truncating as the native narrowing conversion does.
    fn cast(self) -> (r: T)
        ensures
            r == self.cast_spec(),
    ;
}

/// The full capability bound for vector arithmetic: identities, the four
/// arithmetic operations, negation, remainder, min/max/abs and ordering.
///
/// Each operation `op` comes with `op_req`, saying when the result is
/// representable (its caller must establish it: the operations never wrap,
/// panic or signal), and `op_spec`, its exact value.
pub trait Scalar:
    Copy + Zero + One + Min<Self, Output = Self> + Max<Self, Output = Self> + Abs<Output = Self>
{
    /// Whether `self + rhs` is representable.
    spec fn add_req(self, rhs: Self) -> bool;

    /// The sum at the specification level.
    spec fn add_spec(self, rhs: Self) -> Self;

    /// Adds the two operands.
    fn add(self, rhs: Self) -> (r: Self)
        requires
            self.add_req(rhs),
        ensures
            r == self.add_spec(rhs),
    ;

    /// Whether `self - rhs` is representable.
    spec fn sub_req(self, rhs: Self) -> bool;

    /// The difference at the specification level.
    spec fn sub_spec(self, rhs: Self) -> Self;

    /// Subtracts `rhs` from `self`.
    fn sub(self, rhs: Self) -> (r: Self)
        requires
            self.sub_req(rhs),
        ensures
            r == self.sub_spec(rhs),
    ;

    /// Whether `self * rhs` is representable.
    spec fn mul_req(self, rhs: Self) -> bool;

    /// The product at the specification level.
    spec fn mul_spec(self, rhs: Self) -> Self;

    /// Multiplies the two operands.
    fn mul(self, rhs: Self) -> (r: Self)
        requires
            self.mul_req(rhs),
        ensures
            r == self.mul_spec(rhs),
    ;

    /// Whether `self / rhs` is defined and representable.
    spec fn div_req(self, rhs: Self) -> bool;

    /// The quotient at the specification level.
    spec fn div_spec(self, rhs: Self) -> Self;

    /// Divides `self` by `rhs`.
    fn div(self, rhs: Self) -> (r: Self)
        requires
            self.div_req(rhs),
        ensures
            r == self.div_spec(rhs),
    ;

    /// Whether `self % rhs` is defined and representable.
    spec fn rem_req(self, rhs: Self) -> bool;

    /// The remainder at the specification level.
    spec fn rem_spec(self, rhs: Self) -> Self;

    /// Takes the remainder of `self` by `rhs`.
    fn rem(self, rhs: Self) -> (r: Self)
        requires
            self.rem_req(rhs),
        ensures
            r == self.rem_spec(rhs),
    ;

    /// Whether `-self` is representable.
    spec fn neg_req(self) -> bool;

    /// The negated value at the specification level.
    spec fn neg_spec(self) -> Self;

    /// Negates the operand.
    fn neg(self) -> (r: Self)
        requires
            self.neg_req(),
        ensures
            r == self.neg_spec(),
    ;

    /// The strict order at the specification level.
    spec fn lt_spec(self, rhs: Self) -> bool;

    /// The non-strict order at the specification level.
    spec fn le_spec(self, rhs: Self) -> bool;

    /// Compares the operands for equality.
    fn eq_val(self, rhs: Self) -> (r: bool)
        ensures
            r == (self == rhs),
    ;

    /// Compares the operands for inequality.
    fn ne_val(self, rhs: Self) -> (r: bool)
        ensures
            r == (self != rhs),
    ;

    /// Whether `self` is strictly less than `rhs`.
    fn lt(self, rhs: Self) -> (r: bool)
        ensures
            r == self.lt_spec(rhs),
    ;

    /// Whether `self` is less than or equal to `rhs`.
    fn le(self, rhs: Self) -> (r: bool)
        ensures
            r == self.le_spec(rhs),
    ;

    /// Whether `self` is strictly greater than `rhs`.
    fn gt(self, rhs: Self) -> (r: bool)
        ensures
            r == rhs.lt_spec(self),
    ;

    /// Whether `self` is greater than or equal to `rhs`.
    fn ge(self, rhs: Self) -> (r: bool)
        ensures
            r == rhs.le_spec(self),
    ;

    /// The strict order never relates a value to itself.
    proof fn lemma_lt_irrefl(self)
        ensures
            !self.lt_spec(self),
    ;
}

/// Marker capability of the exactly comparable, totally ordered scalar
/// kinds, adding the bitwise operations, which on those kinds are total.
pub trait Int: Scalar {
    /// The bitwise conjunction at the specification level.
    spec fn bitand_spec(self, rhs: Self) -> Self;

    /// The bitwise disjunction at the specification level.
    spec fn bitor_spec(self, rhs: Self) -> Self;

    /// The bitwise exclusive disjunction at the specification level.
    spec fn bitxor_spec(self, rhs: Self) -> Self;

    /// The bitwise complement at the specification level.
    spec fn not_spec(self) -> Self;

    /// Returns the bitwise conjunction of the operands.
    fn bitand(self, rhs: Self) -> (r: Self)
        ensures
            r == self.bitand_spec(rhs),
    ;

    /// Returns the bitwise disjunction of the operands.
    fn bitor(self, rhs: Self) -> (r: Self)
        ensures
            r == self.bitor_spec(rhs),
    ;

    /// Returns the bitwise exclusive disjunction of the operands.
    fn bitxor(self, rhs: Self) -> (r: Self)
        ensures
            r == self.bitxor_spec(rhs),
    ;

    /// Returns the bitwise complement of the operand.
    fn not(self) -> (r: Self)
        ensures
            r == self.not_spec(),
    ;
}

impl Zero for i32 {
    open spec fn zero_spec() -> i32 {
        0
    }

    fn zero() -> i32 {
        0
    }
}

impl One for i32 {
    open spec fn one_spec() -> i32 {
        1
    }

    fn one() -> i32 {
        1
    }
}

impl Min for i32 {
    type Output = i32;

    open spec fn min_spec(self, rhs: i32) -> i32 {
        if self < rhs {
            self
        } else {
            rhs
        }
    }

    fn min(self, rhs: i32) -> i32 {
        if self < rhs {
            self
        } else {
            rhs
        }
    }
}

impl Max for i32 {
    type Output = i32;

    open spec fn max_spec(self, rhs: i32) -> i32 {
        if self > rhs {
            self
        } else {
            rhs
        }
    }

    fn max(self, rhs: i32) -> i32 {
        if self > rhs {
            self
        } else {
            rhs
        }
    }
}

impl Abs for i32 {
    type Output = i32;

    open spec fn abs_req(self) -> bool {
        self != i32::MIN
    }

    open spec fn abs_spec(self) -> i32 {
        if self < 0 {
            (-self) as i32
        } else {
            self
        }
    }

    fn abs(self) -> i32 {
        if self < 0 {
            -self
        } else {
            self
        }
    }
}

impl Scalar for i32 {
    open spec fn add_req(self, rhs: i32) -> bool {
        i32::MIN <= self + rhs <= i32::MAX
    }

    open spec fn add_spec(self, rhs: i32) -> i32 {
        (self + rhs) as i32
    }

    fn add(self, rhs: i32) -> i32 {
        self + rhs
    }

    open spec fn sub_req(self, rhs: i32) -> bool {
        i32::MIN <= self - rhs <= i32::MAX
    }

    open spec fn sub_spec(self, rhs: i32) -> i32 {
        (self - rhs) as i32
    }

    fn sub(self, rhs: i32) -> i32 {
        self - rhs
    }

    open spec fn mul_req(self, rhs: i32) -> bool {
        i32::MIN <= self * rhs <= i32::MAX
    }

    open spec fn mul_spec(self, rhs: i32) -> i32 {
        (self * rhs) as i32
    }

    fn mul(self, rhs: i32) -> i32 {
        self * rhs
    }

    open spec fn div_req(self, rhs: i32) -> bool {
        rhs != 0 && !(self == i32::MIN && rhs == -1)
    }

    open spec fn div_spec(self, rhs: i32) -> i32 {
        trunc_div(self as int, rhs as int) as i32
    }

    fn div(self, rhs: i32) -> i32 {
        self / rhs
    }

    open spec fn rem_req(self, rhs: i32) -> bool {
        rhs != 0 && !(self == i32::MIN && rhs == -1)
    }

    open spec fn rem_spec(self, rhs: i32) -> i32 {
        trunc_rem(self as int, rhs as int) as i32
    }

    fn rem(self, rhs: i32) -> i32 {
        self % rhs
    }

    open spec fn neg_req(self) -> bool {
        self != i32::MIN
    }

    open spec fn neg_spec(self) -> i32 {
        (-self) as i32
    }

    fn neg(self) -> i32 {
        -self
    }

    open spec fn lt_spec(self, rhs: i32) -> bool {
        self < rhs
    }

    open spec fn le_spec(self, rhs: i32) -> bool {
        self <= rhs
    }

    fn eq_val(self, rhs: i32) -> bool {
        self == rhs
    }

    fn ne_val(self, rhs: i32) -> bool {
        self != rhs
    }

    fn lt(self, rhs: i32) -> bool {
        self < rhs
    }

    fn le(self, rhs: i32) -> bool {
        self <= rhs
    }

    fn gt(self, rhs: i32) -> bool {
        self > rhs
    }

    fn ge(self, rhs: i32) -> bool {
        self >= rhs
    }

    proof fn lemma_lt_irrefl(self) {
    }
}

impl Int for i32 {
    open spec fn bitand_spec(self, rhs: i32) -> i32 {
        self & rhs
    }

    open spec fn bitor_spec(self, rhs: i32) -> i32 {
        self | rhs
    }

    open spec fn bitxor_spec(self, rhs: i32) -> i32 {
        self ^ rhs
    }

    open spec fn not_spec(self) -> i32 {
        !self
    }

    fn bitand(self, rhs: i32) -> i32 {
        self & rhs
    }

    fn bitor(self, rhs: i32) -> i32 {
        self | rhs
    }

    fn bitxor(self, rhs: i32) -> i32 {
        self ^ rhs
    }

    fn not(self) -> i32 {
        !self
    }
}

impl Cast<i32> for i32 {
    open spec fn cast_spec(self) -> i32 {
        self
    }

    fn cast(self) -> i32 {
        self
    }
}

impl Cast<i64> for i32 {
    open spec fn cast_spec(self) -> i64 {
        self as i64
    }

    fn cast(self) -> i64 {
        self as i64
    }
}

impl Zero for i64 {
    open spec fn zero_spec() -> i64 {
        0
    }

    fn zero() -> i64 {
        0
    }
}

impl One for i64 {
    open spec fn one_spec() -> i64 {
        1
    }

    fn one() -> i64 {
        1
    }
}

impl Min for i64 {
    type Output = i64;

    open spec fn min_spec(self, rhs: i64) -> i64 {
        if self < rhs {
            self
        } else {
            rhs
        }
    }

    fn min(self, rhs: i64) -> i64 {
        if self < rhs {
            self
        } else {
            rhs
        }
    }
}

impl Max for i64 {
    type Output = i64;

    open spec fn max_spec(self, rhs: i64) -> i64 {
        if self > rhs {
            self
        } else {
            rhs
        }
    }

    fn max(self, rhs: i64) -> i64 {
        if self > rhs {
            self
        } else {
            rhs
        }
    }
}

impl Abs for i64 {
    type Output = i64;

    open spec fn abs_req(self) -> bool {
        self != i64::MIN
    }

    open spec fn abs_spec(self) -> i64 {
        if self < 0 {
            (-self) as i64
        } else {
            self
        }
    }

    fn abs(self) -> i64 {
        if self < 0 {
            -self
        } else {
            self
        }
    }
}

impl Scalar for i64 {
    open spec fn add_req(self, rhs: i64) -> bool {
        i64::MIN <= self + rhs <= i64::MAX
    }

    open spec fn add_spec(self, rhs: i64) -> i64 {
        (self + rhs) as i64
    }

    fn add(self, rhs: i64) -> i64 {
        self + rhs
    }

    open spec fn sub_req(self, rhs: i64) -> bool {
        i64::MIN <= self - rhs <= i64::MAX
    }

    open spec fn sub_spec(self, rhs: i64) -> i64 {
        (self - rhs) as i64
    }

    fn sub(self, rhs: i64) -> i64 {
        self - rhs
    }

    open spec fn mul_req(self, rhs: i64) -> bool {
        i64::MIN <= self * rhs <= i64::MAX
    }

    open spec fn mul_spec(self, rhs: i64) -> i64 {
        (self * rhs) as i64
    }

    fn mul(self, rhs: i64) -> i64 {
        self * rhs
    }

    open spec fn div_req(self, rhs: i64) -> bool {
        rhs != 0 && !(self == i64::MIN && rhs == -1)
    }

    open spec fn div_spec(self, rhs: i64) -> i64 {
        trunc_div(self as int, rhs as int) as i64
    }

    fn div(self, rhs: i64) -> i64 {
        self / rhs
    }

    open spec fn rem_req(self, rhs: i64) -> bool {
        rhs != 0 && !(self == i64::MIN && rhs == -1)
    }

    open spec fn rem_spec(self, rhs: i64) -> i64 {
        trunc_rem(self as int, rhs as int) as i64
    }

    fn rem(self, rhs: i64) -> i64 {
        self % rhs
    }

    open spec fn neg_req(self) -> bool {
        self != i64::MIN
    }

    open spec fn neg_spec(self) -> i64 {
        (-self) as i64
    }

    fn neg(self) -> i64 {
        -self
    }

    open spec fn lt_spec(self, rhs: i64) -> bool {
        self < rhs
    }

    open spec fn le_spec(self, rhs: i64) -> bool {
        self <= rhs
    }

    fn eq_val(self, rhs: i64) -> bool {
        self == rhs
    }

    fn ne_val(self, rhs: i64) -> bool {
        self != rhs
    }

    fn lt(self, rhs: i64) -> bool {
        self < rhs
    }

    fn le(self, rhs: i64) -> bool {
        self <= rhs
    }

    fn gt(self, rhs: i64) -> bool {
        self > rhs
    }

    fn ge(self, rhs: i64) -> bool {
        self >= rhs
    }

    proof fn lemma_lt_irrefl(self) {
    }
}

impl Int for i64 {
    open spec fn bitand_spec(self, rhs: i64) -> i64 {
        self & rhs
    }

    open spec fn bitor_spec(self, rhs: i64) -> i64 {
        self | rhs
    }

    open spec fn bitxor_spec(self, rhs: i64) -> i64 {
        self ^ rhs
    }

    open spec fn not_spec(self) -> i64 {
        !self
    }

    fn bitand(self, rhs: i64) -> i64 {
        self & rhs
    }

    fn bitor(self, rhs: i64) -> i64 {
        self | rhs
    }

    fn bitxor(self, rhs: i64) -> i64 {
        self ^ rhs
    }

    fn not(self) -> i64 {
        !self
    }
}

impl Cast<i32> for i64 {
    open spec fn cast_spec(self) -> i32 {
        self as i32
    }

    fn cast(self) -> i32 {
        #[verifier::truncate] (self as i32)
    }
}

impl Cast<i64> for i64 {
    open spec fn cast_spec(self) -> i64 {
        self
    }

    fn cast(self) -> i64 {
        self
    }
}

/// Capability of scalar kinds with a notion of finiteness and a square
/// root; required by every operation that embeds a geometric length.
///
/// No built-in scalar kind of this crate provides it: it is the extension
/// point for floating-point scalars, whose arithmetic stays outside the
/// verified surface.
pub trait Float: Sized {
    /// Whether the value is neither infinite nor undefined.
    fn is_finite(self) -> bool;

    /// Whether the value is one of the two infinities.
    fn is_infinite(self) -> bool;

    /// The square root.
    fn sqrt(self) -> Self;
}

/// The full trigonometric function set, consumed by angle representations
/// rather than by the vector types directly.
///
/// Like [`Float`], it is an extension point for floating-point scalars and
/// has no built-in implementer here.
pub trait Trig: Sized {
    /// The sine.
    fn sin(self) -> Self;

    /// The cosine.
    fn cos(self) -> Self;

    /// The tangent.
    fn tan(self) -> Self;

    /// The sine and cosine together.
    fn sin_cos(self) -> (Self, Self);

    /// The inverse sine.
    fn asin(self) -> Self;

    /// The inverse cosine.
    fn acos(self) -> Self;

    /// The inverse tangent.
    fn atan(self) -> Self;

    /// The angle of the point `(rhs, self)` from the positive horizontal
    /// axis.
    fn atan2(self, rhs: Self) -> Self;
}

} // verus!
