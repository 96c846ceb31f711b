//! What the engine says of one pixel: the quadratic map `z -> z * z + c`
//! iterated from the point under the pixel (Julia) or with that point as
//! `c` (Mandelbrot).

use crate::complex::Point;
use crate::engine::escape_from;
use crate::engine::is_run;
use crate::engine::is_stable;
use crate::engine::lemma_run_is_determined;
use crate::plane::coordinate_of;
use crate::plane::from_screen_point_to_cartesian;
use crate::plane::pixel_count;
use crate::plane::valid_resolution;
use crate::plane::vec2_from_ints;
use crate::plane::vec2_of_ints;
use crate::plane::SpaceParams;
use glam::Vec2;
use vstd::prelude::*;

verus! {

/// The number of rounds after which a point that has not escaped counts as
/// stable.
pub const MAX_ITERATIONS: u64 = 1000;

/// The quadratic map with constant `c`.
pub open spec fn quadratic_step(c: Point) -> spec_fn(Point) -> Point {
    |z: Point| z.spec_square_plus(c)
}

/// The predicate that accepts the points whose parts are both finite.
pub open spec fn stays_finite() -> spec_fn(Point) -> bool {
    |z: Point| z.spec_is_finite()
}

/// Equality of points, as `==` decides it.
pub open spec fn same_point() -> spec_fn(Point, Point) -> bool {
    |a: Point, b: Point| a.spec_same(b)
}

/// Rounds completed and stability of the orbit of `start` under the
/// quadratic map with constant `c`.
pub open spec fn spec_escape_time(c: Point, start: Point) -> (u64, bool) {
    let outcome = escape_from(
        quadratic_step(c),
        stays_finite(),
        same_point(),
        start,
        0,
        MAX_ITERATIONS as nat,
    );
    (outcome.0 as u64, outcome.1)
}

/// The origin of the plane.
pub open spec fn origin() -> Point {
    Point::spec_at(vec2_of_ints(0, 0))
}

/// The Mandelbrot result of a coordinate: the orbit of the origin under the
/// quadratic map whose constant is the point at the coordinate.
pub open spec fn mandelbrot_at(coordinate: Vec2) -> (u64, bool) {
    spec_escape_time(Point::spec_at(coordinate), origin())
}

/// The Julia result of a coordinate for the constant `c`: the orbit of the
/// point at the coordinate under the quadratic map with that constant.
pub open spec fn julia_at(coordinate: Vec2, c: Vec2) -> (u64, bool) {
    spec_escape_time(Point::spec_at(c), Point::spec_at(coordinate))
}

/// Runs the engine on the quadratic map with constant `c` from `start`,
/// rejecting points with a part that is not finite, for at most
/// `MAX_ITERATIONS` rounds.
pub fn escape_time(c: Point, start: Point) -> (result: (u64, bool))
    ensures
        result == spec_escape_time(c, start),
        result.0 <= MAX_ITERATIONS,
{
    let transition = |z: Point| -> (next: Point)
        ensures
            next == z.spec_square_plus(c),
        { z.square_plus(c) };
    let bounded = |z: &Point| -> (finite: bool)
        ensures
            finite == z.spec_is_finite(),
        { z.is_finite() };
    let result = is_stable(transition, start, bounded, MAX_ITERATIONS);
    proof {
        let orbit = choose|orbit: Seq<Point>|
            is_run(transition, bounded, start, MAX_ITERATIONS, orbit, result);
        lemma_run_is_determined(
            transition,
            bounded,
            start,
            MAX_ITERATIONS,
            orbit,
            result,
            quadratic_step(c),
            stays_finite(),
            same_point(),
        );
    }
    result
}

/// The Mandelbrot result of the pixel at `index`.
pub fn from_screen_pixel_mandelbrot(index: i32, resolution: (i32, i32), sp: SpaceParams) -> (result:
    (u64, bool))
    requires
        valid_resolution(resolution),
        0 <= index < pixel_count(resolution),
    ensures
        result == mandelbrot_at(coordinate_of(index as int, resolution, sp)),
        result.0 <= MAX_ITERATIONS,
{
    let cart = from_screen_point_to_cartesian(index, resolution, sp);
    escape_time(Point::at(cart), Point::at(vec2_from_ints(0, 0)))
}

/// The Julia result of the pixel at `index` for the constant `c`.
pub fn from_screen_pixel_julia(index: i32, resolution: (i32, i32), sp: SpaceParams, c: Vec2) -> (result:
    (u64, bool))
    requires
        valid_resolution(resolution),
        0 <= index < pixel_count(resolution),
    ensures
        result == julia_at(coordinate_of(index as int, resolution, sp), c),
        result.0 <= MAX_ITERATIONS,
{
    let cart = from_screen_point_to_cartesian(index, resolution, sp);
    escape_time(Point::at(c), Point::at(cart))
}

} // verus!
