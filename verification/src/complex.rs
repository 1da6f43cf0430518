//! The complex number type and its arithmetic.

use vstd::prelude::*;
use vstd::string::*;
use vstd::std_specs::cmp::{PartialOrdSpec, PartialOrdSpecImpl};
use core::cmp::Ordering;
use crate::gaussian::Gaussian;
use crate::scalar::{fits, Scalar};

verus! {

/// A complex number `real + imaginary·i` over a scalar type.
///
/// Equality, order and hashing go by the two parts, the imaginary part
/// first.
#[derive(PartialEq, Eq, Structural, Copy, Clone, Hash, Debug)]
pub struct Complex<T> {
    pub imaginary: T,
    pub real: T,
}

impl<T> Complex<T> {
    /// Builds a complex number from its imaginary part and its real part,
    /// in that order.
    pub fn new(im: T, re: T) -> (r: Complex<T>)
        ensures
            r.imaginary == im,
            r.real == re,
    {
        Complex { real: re, imaginary: im }
    }
}

impl<T: PartialOrd> PartialOrd for Complex<T> {
    /// Compares the imaginary parts, and the real parts where those are
    /// equal.
    fn partial_cmp(&self, other: &Complex<T>) -> (r: Option<Ordering>) {
        match self.imaginary.partial_cmp(&other.imaginary) {
            Some(Ordering::Equal) => self.real.partial_cmp(&other.real),
            first => first,
        }
    }
}

impl<T: PartialOrd> PartialOrdSpecImpl for Complex<T> {
    open spec fn obeys_partial_cmp_spec() -> bool {
        T::obeys_partial_cmp_spec()
    }

    /// The order of the imaginary parts, or that of the real parts where
    /// the imaginary parts are equal.
    open spec fn partial_cmp_spec(&self, other: &Complex<T>) -> Option<Ordering> {
        match self.imaginary.partial_cmp_spec(&other.imaginary) {
            Some(Ordering::Equal) => self.real.partial_cmp_spec(&other.real),
            first => first,
        }
    }
}

impl<T: Scalar> View for Complex<T> {
    type V = Gaussian;

    open spec fn view(&self) -> Gaussian {
        Gaussian { imaginary: self.imaginary.value(), real: self.real.value() }
    }
}

impl<T: Scalar> Complex<T> {
    /// The complex number over `T` that stands for `g`, where both parts of
    /// `g` lie within the range of `T`.
    pub open spec fn of(g: Gaussian) -> Complex<T> {
        Complex { imaginary: T::of(g.imaginary), real: T::of(g.real) }
    }

    /// Whether both parts of `g` lie within the range of `T`.
    pub open spec fn holds(g: Gaussian) -> bool {
        fits::<T>(g.imaginary) && fits::<T>(g.real)
    }

    /// The number that `zero()` returns.
    pub open spec fn zero_spec() -> Complex<T> {
        Self::of(Gaussian::zero())
    }

    /// The number that `self.conjugate()` returns.
    pub open spec fn conjugate_spec(self) -> Complex<T> {
        Self::of(self@.conjugate())
    }

    /// The scalar that `self.dot_product(another)` returns.
    pub open spec fn dot_product_spec(self, another: Complex<T>) -> T {
        T::of(self@.dot(another@))
    }

    /// Whether `self.conjugate()` can be computed in `T`: the negated
    /// imaginary part lies within the range.
    pub open spec fn conjugate_req(self) -> bool {
        fits::<T>(-self@.imaginary)
    }

    /// Whether `self.dot_product(another)` can be computed in `T`: both
    /// products and their difference lie within the range.
    pub open spec fn dot_product_req(self, another: Complex<T>) -> bool {
        &&& fits::<T>(self@.real * another@.imaginary)
        &&& fits::<T>(self@.imaginary * another@.real)
        &&& fits::<T>(self@.dot(another@))
    }

    /// A complex number is the one that stands for its own view, and its
    /// view lies within the range of `T`.
    pub proof fn of_view(self)
        ensures
            Self::of(self@) == self,
            Self::holds(self@),
    {
        self.imaginary.of_value();
        self.real.of_value();
        self.imaginary.value_in_range();
        self.real.value_in_range();
    }

    /// Within the range, the complex number that stands for `g` has the
    /// view `g`.
    pub proof fn view_of(g: Gaussian)
        requires
            Self::holds(g),
        ensures
            Self::of(g)@ == g,
    {
        T::value_of(g.imaginary);
        T::value_of(g.real);
    }

    /// The antisymmetric form `real·another.imaginary − imaginary·another.real`
    /// of two complex numbers.
    pub fn dot_product(&self, another: Complex<T>) -> (r: T)
        requires
            self.dot_product_req(another),
        ensures
            r == self.dot_product_spec(another),
            r.value() == self@.dot(another@),
    {
        let r = self.real.times(another.imaginary).minus(self.imaginary.times(another.real));
        proof {
            r.of_value();
        }
        r
    }

    /// The same number with its imaginary part negated.
    pub fn conjugate(&self) -> (r: Complex<T>)
        requires
            self.conjugate_req(),
        ensures
            r == self.conjugate_spec(),
            r@ == self@.conjugate(),
    {
        let r = Complex { imaginary: self.imaginary.negated(), real: self.real };
        proof {
            r.of_view();
        }
        r
    }

    /// The additive identity, 0 + 0i.
    pub fn zero() -> (r: Complex<T>)
        ensures
            r == Self::zero_spec(),
            r@ == Gaussian::zero(),
    {
        let r = Complex::new(T::zero(), T::zero());
        proof {
            r.of_view();
        }
        r
    }

    /// Whether both parts are zero.
    pub fn is_zero(&self) -> (b: bool)
        ensures
            b == self@.is_zero(),
    {
        self.real.is_zero() && self.imaginary.is_zero()
    }

    /// The text of the number: `<imaginary>i` where only the real part is
    /// zero, `<real>` where only the imaginary part is zero, and otherwise
    /// both parts, joined by `+` unless the imaginary part brings its own
    /// minus sign.
    pub fn to_string(&self) -> (s: String)
        ensures
            s@ == self@.text(),
    {
        proof {
            reveal_strlit("i");
            reveal_strlit("+");
        }
        let zero = T::zero();
        let re_zero = self.real.is_zero();
        let im_zero = self.imaginary.is_zero();
        if re_zero && !im_zero {
            let s = self.imaginary.text().concat("i");
            assert(s@ =~= self@.text());
            s
        } else if !re_zero && im_zero {
            self.real.text()
        } else if self.imaginary.less_than(&zero) {
            let mut s = self.real.text();
            s.append(self.imaginary.text().as_str());
            s.append("i");
            assert(s@ =~= self@.text());
            s
        } else {
            let mut s = self.real.text();
            s.append("+");
            s.append(self.imaginary.text().as_str());
            s.append("i");
            assert(s@ =~= self@.text());
            s
        }
    }
}

impl<T: Scalar> vstd::std_specs::ops::AddSpecImpl<Complex<T>> for Complex<T> {
    open spec fn obeys_add_spec() -> bool {
        true
    }

    /// The sum can be computed in `T`: both of its parts lie within the
    /// range.
    open spec fn add_req(self, rhs: Complex<T>) -> bool {
        Self::holds(self@.plus(rhs@))
    }

    /// The number that `self + rhs` returns.
    open spec fn add_spec(self, rhs: Complex<T>) -> Complex<T> {
        Self::of(self@.plus(rhs@))
    }
}

impl<T: Scalar> core::ops::Add<Complex<T>> for Complex<T> {
    type Output = Complex<T>;

    /// The sum, taken part by part: `self.add_spec(another)`, for operands
    /// with `self.add_req(another)`.
    fn add(self, another: Complex<T>) -> (r: Complex<T>)
        ensures
            r@ == self@.plus(another@),
    {
        let r = Complex {
            imaginary: another.imaginary.plus(self.imaginary),
            real: another.real.plus(self.real),
        };
        proof {
            r.of_view();
        }
        r
    }
}

impl<T: Scalar> vstd::std_specs::ops::MulSpecImpl<Complex<T>> for Complex<T> {
    open spec fn obeys_mul_spec() -> bool {
        true
    }

    /// The product can be computed in `T`: the four products of parts and
    /// both parts of the result lie within the range.
    open spec fn mul_req(self, rhs: Complex<T>) -> bool {
        &&& fits::<T>(self@.real * rhs@.real)
        &&& fits::<T>(self@.imaginary * rhs@.imaginary)
        &&& fits::<T>(self@.real * rhs@.imaginary)
        &&& fits::<T>(self@.imaginary * rhs@.real)
        &&& Self::holds(self@.times(rhs@))
    }

    /// The number that `self * rhs` returns.
    open spec fn mul_spec(self, rhs: Complex<T>) -> Complex<T> {
        Self::of(self@.times(rhs@))
    }
}

impl<T: Scalar> core::ops::Mul<Complex<T>> for Complex<T> {
    type Output = Complex<T>;

    /// The product of two complex numbers: `self.mul_spec(another)`, for
    /// operands with `self.mul_req(another)`.
    fn mul(self, another: Complex<T>) -> (r: Complex<T>)
        ensures
            r@ == self@.times(another@),
    {
        let re = self.real.times(another.real).minus(self.imaginary.times(another.imaginary));
        let im = self.real.times(another.imaginary).plus(self.imaginary.times(another.real));
        let r = Complex { real: re, imaginary: im };
        proof {
            r.of_view();
        }
        r
    }
}

} // verus!
