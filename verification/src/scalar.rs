//! The scalar types a complex number can be built from.

use vstd::prelude::*;
use crate::decimal::decimal;

verus! {

/// A numeric type with a zero, ring arithmetic, negation and an order.
///
/// Every value stands for a mathematical integer, its `value`, and the
/// type holds exactly the integers between `least` and `greatest`.
pub trait Scalar: Copy + Sized {
    /// The integer this scalar stands for.
    spec fn value(self) -> int;

    /// The smallest integer the type holds.
    spec fn least() -> int;

    /// The largest integer the type holds.
    spec fn greatest() -> int;

    /// Every value lies within the type's range, which contains 0.
    proof fn value_in_range(self)
        ensures
            Self::least() <= self.value() <= Self::greatest(),
            Self::least() <= 0 <= Self::greatest(),
    ;

    /// The scalar that stands for `v`, where `v` lies within the range.
    spec fn of(v: int) -> Self;

    /// A scalar is the one that stands for its own value.
    proof fn of_value(self)
        ensures
            Self::of(self.value()) == self,
    ;

    /// Within the range, the scalar that stands for `v` has the value `v`.
    proof fn value_of(v: int)
        requires
            Self::least() <= v <= Self::greatest(),
        ensures
            Self::of(v).value() == v,
    ;

    /// The additive identity.
    fn zero() -> (r: Self)
        ensures
            r.value() == 0,
    ;

    /// Whether this scalar is the additive identity.
    fn is_zero(&self) -> (b: bool)
        ensures
            b == (self.value() == 0),
    ;

    /// Whether this scalar is strictly below `other`.
    fn less_than(&self, other: &Self) -> (b: bool)
        ensures
            b == (self.value() < other.value()),
    ;

    /// The sum of two scalars.
    fn plus(self, other: Self) -> (r: Self)
        requires
            Self::least() <= self.value() + other.value() <= Self::greatest(),
        ensures
            r.value() == self.value() + other.value(),
    ;

    /// The difference of two scalars.
    fn minus(self, other: Self) -> (r: Self)
        requires
            Self::least() <= self.value() - other.value() <= Self::greatest(),
        ensures
            r.value() == self.value() - other.value(),
    ;

    /// The product of two scalars.
    fn times(self, other: Self) -> (r: Self)
        requires
            Self::least() <= self.value() * other.value() <= Self::greatest(),
        ensures
            r.value() == self.value() * other.value(),
    ;

    /// The additive inverse of a scalar.
    fn negated(self) -> (r: Self)
        requires
            Self::least() <= -self.value() <= Self::greatest(),
        ensures
            r.value() == -self.value(),
    ;

    /// The decimal text of a scalar.
    fn text(&self) -> (s: String)
        ensures
            s@ == decimal(self.value()),
    ;
}

/// Whether the integer `v` lies within the range of `T`.
pub open spec fn fits<T: Scalar>(v: int) -> bool {
    T::least() <= v <= T::greatest()
}

} // verus!
