//! The mathematical model of a complex number with integer parts.

use vstd::prelude::*;
use crate::decimal::decimal;

verus! {

/// A complex number `real + imaginary·i` whose parts are unbounded integers.
pub ghost struct Gaussian {
    pub imaginary: int,
    pub real: int,
}

impl Gaussian {
    /// The number 0 + 0i.
    pub open spec fn zero() -> Gaussian {
        Gaussian { imaginary: 0, real: 0 }
    }

    /// Whether both parts are 0.
    pub open spec fn is_zero(self) -> bool {
        self.real == 0 && self.imaginary == 0
    }

    /// The sum, taken part by part.
    pub open spec fn plus(self, other: Gaussian) -> Gaussian {
        Gaussian {
            imaginary: self.imaginary + other.imaginary,
            real: self.real + other.real,
        }
    }

    /// The product of two complex numbers.
    pub open spec fn times(self, other: Gaussian) -> Gaussian {
        Gaussian {
            imaginary: self.real * other.imaginary + self.imaginary * other.real,
            real: self.real * other.real - self.imaginary * other.imaginary,
        }
    }

    /// The same number with its imaginary part negated.
    pub open spec fn conjugate(self) -> Gaussian {
        Gaussian { imaginary: -self.imaginary, real: self.real }
    }

    /// The antisymmetric form `real·other.imaginary − imaginary·other.real`.
    pub open spec fn dot(self, other: Gaussian) -> int {
        self.real * other.imaginary - self.imaginary * other.real
    }

    /// The text of the number. A part that is zero is left out, unless both
    /// are; the imaginary part is followed by `i`, and a `+` joins the two
    /// parts where the imaginary part is not negative.
    pub open spec fn text(self) -> Seq<char> {
        if self.real == 0 && self.imaginary != 0 {
            decimal(self.imaginary) + seq!['i']
        } else if self.real != 0 && self.imaginary == 0 {
            decimal(self.real)
        } else if self.imaginary < 0 {
            decimal(self.real) + decimal(self.imaginary) + seq!['i']
        } else {
            decimal(self.real) + seq!['+'] + decimal(self.imaginary) + seq!['i']
        }
    }

    /// Addition is commutative.
    pub proof fn plus_commutative(a: Gaussian, b: Gaussian)
        ensures
            a.plus(b) == b.plus(a),
    {
    }

    /// Addition is associative.
    pub proof fn plus_associative(a: Gaussian, b: Gaussian, c: Gaussian)
        ensures
            a.plus(b).plus(c) == a.plus(b.plus(c)),
    {
    }

    /// Zero added to a number, on either side, leaves the number.
    pub proof fn zero_plus(a: Gaussian)
        ensures
            Gaussian::zero().plus(a) == a,
            a.plus(Gaussian::zero()) == a,
    {
    }

    /// Multiplication is commutative.
    pub proof fn times_commutative(a: Gaussian, b: Gaussian)
        ensures
            a.times(b) == b.times(a),
    {
    }

    /// The conjugate of the conjugate is the number itself.
    pub proof fn conjugate_involutive(a: Gaussian)
        ensures
            a.conjugate().conjugate() == a,
    {
    }
}

} // verus!
