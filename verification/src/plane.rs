//! The mapping from the pixels of a raster to the points of a rectangle of
//! the parametric plane.
//!
//! Points are `glam::Vec2` values. Their components are never read here:
//! all arithmetic on them is glam's, and each operation's result has a name
//! that the contracts of this module are stated over.

use glam::IVec2;
use glam::Vec2;
use vstd::prelude::*;

verus! {

/// glam's two-component vector, carried as an opaque value. Two such values
/// are equal here when their components have the same bits, but that one
/// NaN is not told from another.
#[verifier::external_type_specification]
#[verifier::external_body]
pub struct ExVec2(glam::Vec2);

/// The vector whose components are `x` and `y` converted to floating point.
pub uninterp spec fn vec2_of_ints(x: i32, y: i32) -> Vec2;

/// The component-wise sum of two vectors.
pub uninterp spec fn vec2_sum(a: Vec2, b: Vec2) -> Vec2;

/// The component-wise difference `a - b`.
pub uninterp spec fn vec2_difference(a: Vec2, b: Vec2) -> Vec2;

/// The component-wise product of two vectors.
pub uninterp spec fn vec2_product(a: Vec2, b: Vec2) -> Vec2;

/// The component-wise quotient `a / b`.
pub uninterp spec fn vec2_quotient(a: Vec2, b: Vec2) -> Vec2;

/// Calls `IVec2::new` and `IVec2::as_vec2`: each integer is converted to
/// the nearest floating-point number. Trusted: the result is a function of
/// the two integers alone.
#[verifier::external_body]
pub(crate) fn vec2_from_ints(x: i32, y: i32) -> (r: Vec2)
    ensures
        r == vec2_of_ints(x, y),
{
    IVec2::new(x, y).as_vec2()
}

/// Calls glam's `Vec2 + Vec2`, which adds component by component and never
/// panics. Trusted: the result is a function of the two vectors alone.
#[verifier::external_body]
pub(crate) fn vec2_add(a: Vec2, b: Vec2) -> (r: Vec2)
    ensures
        r == vec2_sum(a, b),
{
    a + b
}

/// Calls glam's `Vec2 - Vec2`, which subtracts component by component and
/// never panics. Trusted: the result is a function of the two vectors alone.
#[verifier::external_body]
pub(crate) fn vec2_sub(a: Vec2, b: Vec2) -> (r: Vec2)
    ensures
        r == vec2_difference(a, b),
{
    a - b
}

/// Calls glam's `Vec2 * Vec2`, which multiplies component by component and
/// never panics. Trusted: the result is a function of the two vectors alone.
#[verifier::external_body]
pub(crate) fn vec2_mul(a: Vec2, b: Vec2) -> (r: Vec2)
    ensures
        r == vec2_product(a, b),
{
    a * b
}

/// Calls glam's `Vec2 / Vec2`, which divides component by component. A zero
/// divisor gives an infinity or a NaN, not a panic. Trusted: the result is a
/// function of the two vectors alone.
#[verifier::external_body]
pub(crate) fn vec2_div(a: Vec2, b: Vec2) -> (r: Vec2)
    ensures
        r == vec2_quotient(a, b),
{
    a / b
}

/// How a rectangle of the plane is laid over a raster.
#[derive(Clone, Copy, Debug)]
pub struct SpaceParams {
    /// Extent of the rectangle along each axis.
    pub scale: Vec2,
    /// Centre of the rectangle: the point under the raster's centre.
    pub offset: Vec2,
    /// Extent of one pixel along each axis.
    pub delta: Vec2,
}

/// A raster has at least one pixel along each axis, and its pixels can be
/// counted in an `i32`.
pub open spec fn valid_resolution(resolution: (i32, i32)) -> bool {
    &&& resolution.0 > 0
    &&& resolution.1 > 0
    &&& resolution.0 * resolution.1 <= i32::MAX
}

/// Number of pixels of a raster.
pub open spec fn pixel_count(resolution: (i32, i32)) -> int {
    resolution.0 * resolution.1
}

/// The parameters that lay the rectangle from `lower` to `upper` over a
/// raster of the given resolution.
pub open spec fn space_params_of(lower: Vec2, upper: Vec2, resolution: (i32, i32)) -> SpaceParams {
    let scale = vec2_difference(upper, lower);
    SpaceParams {
        scale,
        offset: vec2_quotient(vec2_sum(lower, upper), vec2_of_ints(2, 2)),
        delta: vec2_quotient(scale, vec2_of_ints(resolution.0, resolution.1)),
    }
}

/// Column and row of the pixel at `index` in row-major order, counted from
/// the raster's centre: columns grow to the right, rows grow upwards, so
/// that the first row of the raster is the topmost.
pub open spec fn centered_position(index: int, resolution: (i32, i32)) -> (int, int) {
    let width = resolution.0 as int;
    let height = resolution.1 as int;
    (index % width - width / 2, height / 2 - index / width)
}

/// The point of the plane under the pixel at `index`.
pub open spec fn coordinate_of(index: int, resolution: (i32, i32), sp: SpaceParams) -> Vec2 {
    let position = centered_position(index, resolution);
    vec2_sum(
        vec2_product(vec2_of_ints(position.0 as i32, position.1 as i32), sp.delta),
        sp.offset,
    )
}

/// The points under all pixels of a raster, in row-major order.
pub open spec fn coordinates_of(resolution: (i32, i32), sp: SpaceParams) -> Seq<Vec2> {
    Seq::new(pixel_count(resolution) as nat, |index: int| coordinate_of(index, resolution, sp))
}

/// Tells whether a resolution is one that the generators accept.
pub fn resolution_is_valid(resolution: (i32, i32)) -> (valid: bool)
    ensures
        valid == valid_resolution(resolution),
{
    if resolution.0 <= 0 || resolution.1 <= 0 {
        return false;
    }
    assert(resolution.0 * resolution.1 > 0) by (nonlinear_arith)
        requires
            resolution.0 > 0,
            resolution.1 > 0,
    ;
    resolution.0.checked_mul(resolution.1).is_some()
}

/// Number of pixels of a raster.
pub fn raster_len(resolution: (i32, i32)) -> (count: i32)
    requires
        valid_resolution(resolution),
    ensures
        count == pixel_count(resolution),
        count > 0,
{
    assert(resolution.0 * resolution.1 > 0) by (nonlinear_arith)
        requires
            resolution.0 > 0,
            resolution.1 > 0,
    ;
    resolution.0 * resolution.1
}

impl SpaceParams {
    /// Lays the rectangle from `lower` to `upper` over a raster of the given
    /// resolution: the extent is `upper - lower`, the centre is the midpoint
    /// of the two corners, and a pixel's extent is the rectangle's divided
    /// by the number of pixels along the axis.
    pub fn new(lower: Vec2, upper: Vec2, resolution: (i32, i32)) -> (sp: SpaceParams)
        ensures
            sp == space_params_of(lower, upper, resolution),
    {
        let scale = vec2_sub(upper, lower);
        let offset = vec2_div(vec2_add(lower, upper), vec2_from_ints(2, 2));
        let delta = vec2_div(scale, vec2_from_ints(resolution.0, resolution.1));
        SpaceParams { scale, offset, delta }
    }
}

/// Column and row of the pixel at `index`, counted from the raster's centre.
pub fn screen_position(index: i32, resolution: (i32, i32)) -> (position: (i32, i32))
    requires
        valid_resolution(resolution),
        0 <= index < pixel_count(resolution),
    ensures
        (position.0 as int, position.1 as int) == centered_position(index as int, resolution),
        -(resolution.0 / 2) <= position.0 < resolution.0 - resolution.0 / 2,
        resolution.1 / 2 - resolution.1 < position.1 <= resolution.1 / 2,
{
    let width = resolution.0;
    let height = resolution.1;
    let screen_x = index % width;
    let screen_y = index / width;
    proof {
        lemma_row_in_raster(index as int, width as int, height as int);
    }
    (screen_x - width / 2, -screen_y + height / 2)
}

/// The row of a pixel of a raster lies within the raster.
pub proof fn lemma_row_in_raster(index: int, width: int, height: int)
    requires
        width > 0,
        height > 0,
        0 <= index < width * height,
    ensures
        0 <= index / width < height,
        0 <= index % width < width,
        index == (index / width) * width + index % width,
{
    assert(0 <= index / width < height && index == (index / width) * width + index % width)
        by (nonlinear_arith)
        requires
            width > 0,
            height > 0,
            0 <= index < width * height,
    ;
}

/// The first pixel of a raster is its top-left one and the last is its
/// bottom-right one: counted from the centre, the first lies half the width
/// to the left and half the height up, the last in the opposite corner.
pub proof fn lemma_corner_positions(resolution: (i32, i32))
    requires
        valid_resolution(resolution),
    ensures
        centered_position(0, resolution) == (-(resolution.0 / 2), resolution.1 / 2),
        centered_position(pixel_count(resolution) - 1, resolution) == (
            resolution.0 - 1 - resolution.0 / 2,
            resolution.1 / 2 - (resolution.1 - 1),
        ),
{
    let width = resolution.0 as int;
    let height = resolution.1 as int;
    let last = width * height - 1;
    assert(last == (height - 1) * width + (width - 1)) by (nonlinear_arith)
        requires
            last == width * height - 1,
    ;
    vstd::arithmetic::div_mod::lemma_fundamental_div_mod_converse(
        last,
        width,
        height - 1,
        width - 1,
    );
}

/// Row-major order: a pixel's position tells its index, so no two pixels
/// of a raster share a position.
pub proof fn lemma_position_tells_index(first: int, second: int, resolution: (i32, i32))
    requires
        valid_resolution(resolution),
        0 <= first < pixel_count(resolution),
        0 <= second < pixel_count(resolution),
        centered_position(first, resolution) == centered_position(second, resolution),
    ensures
        first == second,
{
    let width = resolution.0 as int;
    let height = resolution.1 as int;
    lemma_row_in_raster(first, width, height);
    lemma_row_in_raster(second, width, height);
}

/// The point of the plane under the pixel at `index`: the pixel's position
/// from the raster's centre, scaled by a pixel's extent and moved to the
/// rectangle's centre.
pub fn from_screen_point_to_cartesian(index: i32, resolution: (i32, i32), sp: SpaceParams) -> (cart:
    Vec2)
    requires
        valid_resolution(resolution),
        0 <= index < pixel_count(resolution),
    ensures
        cart == coordinate_of(index as int, resolution, sp),
{
    let position = screen_position(index, resolution);
    let cart = vec2_from_ints(position.0, position.1);
    vec2_add(vec2_mul(cart, sp.delta), sp.offset)
}

/// The points under all pixels of a raster, in row-major order: what a
/// batch evaluation is handed.
pub fn screen_coordinates(resolution: (i32, i32), sp: SpaceParams) -> (batch: Vec<Vec2>)
    requires
        valid_resolution(resolution),
    ensures
        batch@ == coordinates_of(resolution, sp),
{
    let count = raster_len(resolution);
    let mut batch: Vec<Vec2> = Vec::new();
    let mut index: i32 = 0;
    while index < count
        invariant
            valid_resolution(resolution),
            count == pixel_count(resolution),
            0 <= index <= count,
            batch@.len() == index,
            forall|k: int| 0 <= k < index ==> batch@[k] == coordinate_of(k, resolution, sp),
        decreases count - index,
    {
        batch.push(from_screen_point_to_cartesian(index, resolution, sp));
        index += 1;
    }
    assert(batch@ =~= coordinates_of(resolution, sp));
    batch
}

} // verus!
