//! Points of the complex plane, as the generators iterate them.
//!
//! A point is a `num_complex::Complex32` carried as an opaque value: the
//! arithmetic is num-complex's, and each operation's result has a name that
//! the contracts of this crate are stated over.

use glam::Vec2;
use num_complex::Complex;
use num_complex::Complex32;
use num_traits::NumCast;
use vstd::prelude::*;
use vstd::std_specs::cmp::PartialEqSpecImpl;

verus! {

/// num-complex's complex number, carried as an opaque value. Two such
/// values are equal here when their parts have the same bits, but that one
/// NaN is not told from another.
#[verifier::external_type_specification]
#[verifier::external_body]
#[verifier::reject_recursive_types(T)]
pub struct ExComplex<T>(num_complex::Complex<T>);

/// The complex number whose real part is the first component of `p` and
/// whose imaginary part is the second.
pub uninterp spec fn complex_of_vec2(p: Vec2) -> Complex32;

/// `z` raised to the power `exp`.
pub uninterp spec fn complex_power(z: Complex32, exp: u32) -> Complex32;

/// The sum of two complex numbers.
pub uninterp spec fn complex_sum(a: Complex32, b: Complex32) -> Complex32;

/// Whether both parts of `z` are finite: neither infinite nor NaN.
pub uninterp spec fn complex_finite(z: Complex32) -> bool;

/// Whether the two numbers compare equal part by part, as floating-point
/// numbers do: a NaN part equals nothing, and the two zeros are equal.
pub uninterp spec fn complex_same(a: Complex32, b: Complex32) -> bool;

/// Calls `Complex::new` on the two components of `p`, each passed through
/// `NumCast::from`, which between equal floating-point types hands the
/// number back and never fails. Trusted: the result is a function of `p`
/// alone.
#[verifier::external_body]
fn complex_from_vec2(p: Vec2) -> (z: Complex32)
    ensures
        z == complex_of_vec2(p),
{
    Complex::new(NumCast::from(p.x).unwrap(), NumCast::from(p.y).unwrap())
}

/// Calls `Complex::powu`, which raises `z` to the power `exp` by repeated
/// squaring and never panics. Trusted: the result is a function of `z` and
/// `exp` alone.
#[verifier::external_body]
fn complex_powu(z: &Complex32, exp: u32) -> (r: Complex32)
    ensures
        r == complex_power(*z, exp),
{
    z.powu(exp)
}

/// Calls num-complex's `Complex + Complex`, which adds part by part and
/// never panics. Trusted: the result is a function of the two numbers alone.
#[verifier::external_body]
fn complex_add(a: Complex32, b: Complex32) -> (r: Complex32)
    ensures
        r == complex_sum(a, b),
{
    a + b
}

/// Calls `Complex::is_finite`. Trusted: the answer is a function of `z`
/// alone.
#[verifier::external_body]
fn complex_is_finite(z: Complex32) -> (r: bool)
    ensures
        r == complex_finite(z),
{
    z.is_finite()
}

/// Calls the `==` that num-complex derives for `Complex`, which compares
/// the real parts and then the imaginary parts. Trusted: the answer is a
/// function of the two numbers alone.
#[verifier::external_body]
fn complex_eq(a: &Complex32, b: &Complex32) -> (r: bool)
    ensures
        r == complex_same(*a, *b),
{
    a == b
}

/// A point of the complex plane. Its `==` is that of the two numbers, not
/// that of their bits.
#[derive(Clone, Copy, Debug)]
pub struct Point {
    /// The number at this point.
    pub value: Complex32,
}

impl PartialEq for Point {
    fn eq(&self, other: &Self) -> (r: bool) {
        complex_eq(&self.value, &other.value)
    }
}

impl PartialEqSpecImpl for Point {
    open spec fn obeys_eq_spec() -> bool {
        true
    }

    open spec fn eq_spec(&self, other: &Self) -> bool {
        complex_same(self.value, other.value)
    }
}

impl Point {
    /// The point `z * z + c`.
    pub open spec fn spec_square_plus(self, c: Point) -> Point {
        Point { value: complex_sum(complex_power(self.value, 2), c.value) }
    }

    /// Whether `==` finds the two points equal.
    pub open spec fn spec_same(self, other: Point) -> bool {
        complex_same(self.value, other.value)
    }

    /// Whether both parts of the point are finite.
    pub open spec fn spec_is_finite(self) -> bool {
        complex_finite(self.value)
    }

    /// The point whose real part is the first component of `coordinate` and
    /// whose imaginary part is the second.
    pub open spec fn spec_at(coordinate: Vec2) -> Point {
        Point { value: complex_of_vec2(coordinate) }
    }

    /// The point at a coordinate of the plane.
    pub fn at(coordinate: Vec2) -> (p: Point)
        ensures
            p == Point::spec_at(coordinate),
    {
        Point { value: complex_from_vec2(coordinate) }
    }

    /// One step of the quadratic map: the square of this point, moved by `c`.
    pub fn square_plus(self, c: Point) -> (p: Point)
        ensures
            p == self.spec_square_plus(c),
    {
        Point { value: complex_add(complex_powu(&self.value, 2), c.value) }
    }

    /// Whether the point has not escaped: both of its parts are finite.
    pub fn is_finite(&self) -> (r: bool)
        ensures
            r == self.spec_is_finite(),
    {
        complex_is_finite(self.value)
    }
}

} // verus!
