//! Algebraic laws of complex arithmetic over a scalar type.
//!
//! Each law speaks of what the operations return: `add_spec`, `mul_spec`,
//! `conjugate_spec` and `zero_spec`, under the conditions `add_req`,
//! `mul_req` and `conjugate_req` on which they can be computed.

use vstd::prelude::*;
use vstd::std_specs::ops::{AddSpec, MulSpec};
use crate::complex::Complex;
use crate::gaussian::Gaussian;
use crate::scalar::Scalar;

verus! {

/// Addition is commutative: `a + b` can be computed exactly when `b + a`
/// can, and the two sums are equal.
pub proof fn add_commutative<T: Scalar>(a: Complex<T>, b: Complex<T>)
    ensures
        a.add_req(b) == b.add_req(a),
        a.add_spec(b) == b.add_spec(a),
{
    Gaussian::plus_commutative(a@, b@);
}

/// Addition is associative: where `a + b` and `b + c` can be computed,
/// `(a + b) + c` can be computed exactly when `a + (b + c)` can, and the
/// two sums are equal.
pub proof fn add_associative<T: Scalar>(a: Complex<T>, b: Complex<T>, c: Complex<T>)
    requires
        a.add_req(b),
        b.add_req(c),
    ensures
        a.add_spec(b).add_req(c) == a.add_req(b.add_spec(c)),
        a.add_spec(b).add_spec(c) == a.add_spec(b.add_spec(c)),
{
    Complex::<T>::view_of(a@.plus(b@));
    Complex::<T>::view_of(b@.plus(c@));
    Gaussian::plus_associative(a@, b@, c@);
}

/// Multiplication is commutative: `a * b` can be computed exactly when
/// `b * a` can, and the two products are equal.
pub proof fn mul_commutative<T: Scalar>(a: Complex<T>, b: Complex<T>)
    ensures
        a.mul_req(b) == b.mul_req(a),
        a.mul_spec(b) == b.mul_spec(a),
{
    Gaussian::times_commutative(a@, b@);
}

/// Conjugation is an involution: where the conjugate of `a` can be
/// computed, so can the conjugate of that, and it is `a` again.
pub proof fn conjugate_involutive<T: Scalar>(a: Complex<T>)
    requires
        a.conjugate_req(),
    ensures
        a.conjugate_spec().conjugate_req(),
        a.conjugate_spec().conjugate_spec() == a,
{
    a.of_view();
    Complex::<T>::view_of(a@.conjugate());
    Gaussian::conjugate_involutive(a@);
}

/// Zero is the additive identity: `zero() + a` can always be computed, and
/// is `a`.
pub proof fn zero_add<T: Scalar>(a: Complex<T>)
    ensures
        Complex::<T>::zero_spec().add_req(a),
        Complex::<T>::zero_spec().add_spec(a) == a,
{
    a.of_view();
    a.real.value_in_range();
    Complex::<T>::view_of(Gaussian::zero());
    Gaussian::zero_plus(a@);
}

/// A complex number is zero exactly when both of its parts are zero, and
/// then it is the number that `zero()` returns, built from two zero
/// scalars.
pub proof fn zero_unique<T: Scalar>(a: Complex<T>)
    ensures
        a@.is_zero() <==> a.real.value() == 0 && a.imaginary.value() == 0,
        a@.is_zero() <==> a == Complex::<T>::zero_spec(),
        Complex::<T>::zero_spec() == (Complex { imaginary: T::of(0), real: T::of(0) }),
        Complex::<T>::zero_spec()@.is_zero(),
{
    a.of_view();
    a.real.value_in_range();
    Complex::<T>::view_of(Gaussian::zero());
}

} // verus!
