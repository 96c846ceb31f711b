//! The Julia set of a constant over a raster.

use crate::pixel::from_screen_pixel_julia;
use crate::pixel::julia_at;
use crate::pixel::MAX_ITERATIONS;
use crate::plane::coordinate_of;
use crate::plane::pixel_count;
use crate::plane::raster_len;
use crate::plane::space_params_of;
use crate::plane::valid_resolution;
use crate::plane::SpaceParams;
use glam::Vec2;
use vstd::prelude::*;

verus! {

/// The Julia results, for the constant `c`, of all pixels of the raster laid
/// over the rectangle from `lower` to `upper`, in row-major order.
pub open spec fn screen_space(lower: Vec2, upper: Vec2, resolution: (i32, i32), c: Vec2) -> Seq<
    (u64, bool),
> {
    let sp = space_params_of(lower, upper, resolution);
    Seq::new(
        pixel_count(resolution) as nat,
        |index: int| julia_at(coordinate_of(index, resolution, sp), c),
    )
}

/// The order in which the pixels are evaluated does not matter: a sequence
/// that holds at each index what `from_screen_pixel_julia` returns for that
/// index is the raster that `calc_screen_space` returns, whether its
/// elements were computed one after the other or side by side.
pub proof fn lemma_pixelwise_is_screen_space(
    lower: Vec2,
    upper: Vec2,
    resolution: (i32, i32),
    c: Vec2,
    pixels: Seq<(u64, bool)>,
)
    requires
        valid_resolution(resolution),
        pixels.len() == pixel_count(resolution),
        forall|index: int|
            0 <= index < pixels.len() ==> #[trigger] pixels[index] == julia_at(
                coordinate_of(index, resolution, space_params_of(lower, upper, resolution)),
                c,
            ),
    ensures
        pixels == screen_space(lower, upper, resolution, c),
{
    assert(pixels =~= screen_space(lower, upper, resolution, c));
}

/// Evaluates every pixel of the raster for the constant `c`, one after the
/// other in row-major order. The result depends on the four arguments
/// alone: two calls with the same arguments return the same sequence.
pub fn calc_screen_space(lower: Vec2, upper: Vec2, resolution: (i32, i32), c: Vec2) -> (pixels: Vec<
    (u64, bool),
>)
    requires
        valid_resolution(resolution),
    ensures
        pixels@ == screen_space(lower, upper, resolution, c),
        pixels@.len() == resolution.0 * resolution.1,
        forall|k: int| 0 <= k < pixels@.len() ==> (#[trigger] pixels@[k]).0 <= MAX_ITERATIONS,
{
    let sp = SpaceParams::new(lower, upper, resolution);
    let count = raster_len(resolution);
    let mut pixels: Vec<(u64, bool)> = Vec::new();
    let mut index: i32 = 0;
    while index < count
        invariant
            valid_resolution(resolution),
            count == pixel_count(resolution),
            0 <= index <= count,
            pixels@.len() == index,
            forall|k: int|
                0 <= k < index ==> #[trigger] pixels@[k] == julia_at(
                    coordinate_of(k, resolution, sp),
                    c,
                ),
            forall|k: int| 0 <= k < index ==> (#[trigger] pixels@[k]).0 <= MAX_ITERATIONS,
        decreases count - index,
    {
        pixels.push(from_screen_pixel_julia(index, resolution, sp, c));
        index += 1;
    }
    assert(pixels@ =~= screen_space(lower, upper, resolution, c));
    pixels
}

} // verus!
