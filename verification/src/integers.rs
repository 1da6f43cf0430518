//! The signed machine integers as scalars.

use vstd::prelude::*;
use crate::decimal::integer_text;
use crate::scalar::Scalar;

verus! {

/// `<i8 as num_traits::Zero>::zero`: the additive identity of `i8`,
/// which is the integer 0.
#[verifier::external_body]
fn zero_i8() -> (r: i8)
    ensures
        r == 0,
{
    <i8 as num_traits::Zero>::zero()
}

/// `<i8 as num_traits::Zero>::is_zero`: whether the value equals the
/// additive identity, the integer 0.
#[verifier::external_body]
fn is_zero_i8(x: &i8) -> (b: bool)
    ensures
        b == (*x == 0),
{
    num_traits::Zero::is_zero(x)
}

impl Scalar for i8 {
    open spec fn value(self) -> int {
        self as int
    }

    open spec fn least() -> int {
        i8::MIN as int
    }

    open spec fn greatest() -> int {
        i8::MAX as int
    }

    proof fn value_in_range(self) {
    }

    open spec fn of(v: int) -> Self {
        v as i8
    }

    proof fn of_value(self) {
    }

    proof fn value_of(v: int) {
    }

    fn zero() -> (r: Self) {
        zero_i8()
    }

    fn is_zero(&self) -> (b: bool) {
        is_zero_i8(self)
    }

    fn less_than(&self, other: &Self) -> (b: bool) {
        *self < *other
    }

    fn plus(self, other: Self) -> (r: Self) {
        self + other
    }

    fn minus(self, other: Self) -> (r: Self) {
        self - other
    }

    fn times(self, other: Self) -> (r: Self) {
        self * other
    }

    fn negated(self) -> (r: Self) {
        -self
    }

    fn text(&self) -> (s: String) {
        integer_text(*self as i128)
    }
}

/// `<i16 as num_traits::Zero>::zero`: the additive identity of `i16`,
/// which is the integer 0.
#[verifier::external_body]
fn zero_i16() -> (r: i16)
    ensures
        r == 0,
{
    <i16 as num_traits::Zero>::zero()
}

/// `<i16 as num_traits::Zero>::is_zero`: whether the value equals the
/// additive identity, the integer 0.
#[verifier::external_body]
fn is_zero_i16(x: &i16) -> (b: bool)
    ensures
        b == (*x == 0),
{
    num_traits::Zero::is_zero(x)
}

impl Scalar for i16 {
    open spec fn value(self) -> int {
        self as int
    }

    open spec fn least() -> int {
        i16::MIN as int
    }

    open spec fn greatest() -> int {
        i16::MAX as int
    }

    proof fn value_in_range(self) {
    }

    open spec fn of(v: int) -> Self {
        v as i16
    }

    proof fn of_value(self) {
    }

    proof fn value_of(v: int) {
    }

    fn zero() -> (r: Self) {
        zero_i16()
    }

    fn is_zero(&self) -> (b: bool) {
        is_zero_i16(self)
    }

    fn less_than(&self, other: &Self) -> (b: bool) {
        *self < *other
    }

    fn plus(self, other: Self) -> (r: Self) {
        self + other
    }

    fn minus(self, other: Self) -> (r: Self) {
        self - other
    }

    fn times(self, other: Self) -> (r: Self) {
        self * other
    }

    fn negated(self) -> (r: Self) {
        -self
    }

    fn text(&self) -> (s: String) {
        integer_text(*self as i128)
    }
}

/// `<i32 as num_traits::Zero>::zero`: the additive identity of `i32`,
/// which is the integer 0.
#[verifier::external_body]
fn zero_i32() -> (r: i32)
    ensures
        r == 0,
{
    <i32 as num_traits::Zero>::zero()
}

/// `<i32 as num_traits::Zero>::is_zero`: whether the value equals the
/// additive identity, the integer 0.
#[verifier::external_body]
fn is_zero_i32(x: &i32) -> (b: bool)
    ensures
        b == (*x == 0),
{
    num_traits::Zero::is_zero(x)
}

impl Scalar for i32 {
    open spec fn value(self) -> int {
        self as int
    }

    open spec fn least() -> int {
        i32::MIN as int
    }

    open spec fn greatest() -> int {
        i32::MAX as int
    }

    proof fn value_in_range(self) {
    }

    open spec fn of(v: int) -> Self {
        v as i32
    }

    proof fn of_value(self) {
    }

    proof fn value_of(v: int) {
    }

    fn zero() -> (r: Self) {
        zero_i32()
    }

    fn is_zero(&self) -> (b: bool) {
        is_zero_i32(self)
    }

    fn less_than(&self, other: &Self) -> (b: bool) {
        *self < *other
    }

    fn plus(self, other: Self) -> (r: Self) {
        self + other
    }

    fn minus(self, other: Self) -> (r: Self) {
        self - other
    }

    fn times(self, other: Self) -> (r: Self) {
        self * other
    }

    fn negated(self) -> (r: Self) {
        -self
    }

    fn text(&self) -> (s: String) {
        integer_text(*self as i128)
    }
}

/// `<i64 as num_traits::Zero>::zero`: the additive identity of `i64`,
/// which is the integer 0.
#[verifier::external_body]
fn zero_i64() -> (r: i64)
    ensures
        r == 0,
{
    <i64 as num_traits::Zero>::zero()
}

/// `<i64 as num_traits::Zero>::is_zero`: whether the value equals the
/// additive identity, the integer 0.
#[verifier::external_body]
fn is_zero_i64(x: &i64) -> (b: bool)
    ensures
        b == (*x == 0),
{
    num_traits::Zero::is_zero(x)
}

impl Scalar for i64 {
    open spec fn value(self) -> int {
        self as int
    }

    open spec fn least() -> int {
        i64::MIN as int
    }

    open spec fn greatest() -> int {
        i64::MAX as int
    }

    proof fn value_in_range(self) {
    }

    open spec fn of(v: int) -> Self {
        v as i64
    }

    proof fn of_value(self) {
    }

    proof fn value_of(v: int) {
    }

    fn zero() -> (r: Self) {
        zero_i64()
    }

    fn is_zero(&self) -> (b: bool) {
        is_zero_i64(self)
    }

    fn less_than(&self, other: &Self) -> (b: bool) {
        *self < *other
    }

    fn plus(self, other: Self) -> (r: Self) {
        self + other
    }

    fn minus(self, other: Self) -> (r: Self) {
        self - other
    }

    fn times(self, other: Self) -> (r: Self) {
        self * other
    }

    fn negated(self) -> (r: Self) {
        -self
    }

    fn text(&self) -> (s: String) {
        integer_text(*self as i128)
    }
}

/// `<i128 as num_traits::Zero>::zero`: the additive identity of `i128`,
/// which is the integer 0.
#[verifier::external_body]
fn zero_i128() -> (r: i128)
    ensures
        r == 0,
{
    <i128 as num_traits::Zero>::zero()
}

/// `<i128 as num_traits::Zero>::is_zero`: whether the value equals the
/// additive identity, the integer 0.
#[verifier::external_body]
fn is_zero_i128(x: &i128) -> (b: bool)
    ensures
        b == (*x == 0),
{
    num_traits::Zero::is_zero(x)
}

impl Scalar for i128 {
    open spec fn value(self) -> int {
        self as int
    }

    open spec fn least() -> int {
        i128::MIN as int
    }

    open spec fn greatest() -> int {
        i128::MAX as int
    }

    proof fn value_in_range(self) {
    }

    open spec fn of(v: int) -> Self {
        v as i128
    }

    proof fn of_value(self) {
    }

    proof fn value_of(v: int) {
    }

    fn zero() -> (r: Self) {
        zero_i128()
    }

    fn is_zero(&self) -> (b: bool) {
        is_zero_i128(self)
    }

    fn less_than(&self, other: &Self) -> (b: bool) {
        *self < *other
    }

    fn plus(self, other: Self) -> (r: Self) {
        self + other
    }

    fn minus(self, other: Self) -> (r: Self) {
        self - other
    }

    fn times(self, other: Self) -> (r: Self) {
        self * other
    }

    fn negated(self) -> (r: Self) {
        -self
    }

    fn text(&self) -> (s: String) {
        integer_text(*self)
    }
}

/// `<isize as num_traits::Zero>::zero`: the additive identity of `isize`,
/// which is the integer 0.
#[verifier::external_body]
fn zero_isize() -> (r: isize)
    ensures
        r == 0,
{
    <isize as num_traits::Zero>::zero()
}

/// `<isize as num_traits::Zero>::is_zero`: whether the value equals the
/// additive identity, the integer 0.
#[verifier::external_body]
fn is_zero_isize(x: &isize) -> (b: bool)
    ensures
        b == (*x == 0),
{
    num_traits::Zero::is_zero(x)
}

impl Scalar for isize {
    open spec fn value(self) -> int {
        self as int
    }

    open spec fn least() -> int {
        isize::MIN as int
    }

    open spec fn greatest() -> int {
        isize::MAX as int
    }

    proof fn value_in_range(self) {
    }

    open spec fn of(v: int) -> Self {
        v as isize
    }

    proof fn of_value(self) {
    }

    proof fn value_of(v: int) {
    }

    fn zero() -> (r: Self) {
        zero_isize()
    }

    fn is_zero(&self) -> (b: bool) {
        is_zero_isize(self)
    }

    fn less_than(&self, other: &Self) -> (b: bool) {
        *self < *other
    }

    fn plus(self, other: Self) -> (r: Self) {
        self + other
    }

    fn minus(self, other: Self) -> (r: Self) {
        self - other
    }

    fn times(self, other: Self) -> (r: Self) {
        self * other
    }

    fn negated(self) -> (r: Self) {
        -self
    }

    fn text(&self) -> (s: String) {
        integer_text(*self as i128)
    }
}

} // verus!
