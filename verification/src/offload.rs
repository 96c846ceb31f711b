//! Batch evaluation: all coordinates of a raster are handed to a backend in
//! one request, and the iteration counts that come back are read as
//! results.
//!
//! A backend decides stability by its count alone. It does not stop early
//! at a fixed point and applies no predicate of this crate, so its results
//! need not be those of the per-pixel generators.

use crate::pixel::MAX_ITERATIONS;
use crate::plane::coordinates_of;
use crate::plane::screen_coordinates;
use crate::plane::valid_resolution;
use crate::plane::SpaceParams;
use glam::Vec2;
use vstd::prelude::*;

verus! {

/// How one raw count is read: a count that reached the iteration cap means
/// stable, any other count means unstable after that many rounds.
pub open spec fn result_of_count(count: u32) -> (u64, bool) {
    (count as u64, count == MAX_ITERATIONS)
}

/// How a batch of raw counts is read, position by position.
pub open spec fn results_of_counts(raw: Seq<u32>) -> Seq<(u64, bool)> {
    Seq::new(raw.len(), |k: int| result_of_count(raw[k]))
}

/// `results` is what a batch evaluation returns when the backend answered
/// `answer`: nothing where the backend failed, else the reading of its
/// counts.
pub open spec fn reads_answer(answer: Option<Vec<u32>>, results: Option<Vec<(u64, bool)>>) -> bool {
    match answer {
        None => results is None,
        Some(raw) => results is Some && results->0@ == results_of_counts(raw@),
    }
}

/// Reads a batch of raw counts as results, in the order given.
pub fn results_from_counts(raw: &Vec<u32>) -> (results: Vec<(u64, bool)>)
    ensures
        results@ == results_of_counts(raw@),
        results@.len() == raw@.len(),
{
    let mut results: Vec<(u64, bool)> = Vec::new();
    let mut k: usize = 0;
    while k < raw.len()
        invariant
            0 <= k <= raw@.len(),
            results@.len() == k,
            forall|j: int| 0 <= j < k ==> #[trigger] results@[j] == result_of_count(raw@[j]),
        decreases raw@.len() - k,
    {
        let count: u32 = raw[k];
        let wide: u64 = count as u64;
        results.push((wide, wide == MAX_ITERATIONS));
        k += 1;
    }
    assert(results@ =~= results_of_counts(raw@));
    results
}

/// Evaluates a raster through `backend`: collects the coordinates of all
/// pixels in row-major order, hands them over in one call, and reads the
/// counts that come back. A backend that fails makes the evaluation fail;
/// nothing is evaluated in its place.
pub fn wgpu_from_screen_pixels_mandelbrot<B>(backend: B, resolution: (i32, i32), sp: SpaceParams) -> (results:
    Option<Vec<(u64, bool)>>)
    where
        B: Fn(&Vec<Vec2>) -> Option<Vec<u32>>,
    requires
        valid_resolution(resolution),
        forall|batch: Vec<Vec2>|
            batch@ == coordinates_of(resolution, sp) ==> #[trigger] backend.requires((&batch,)),
    ensures
        exists|batch: Vec<Vec2>, answer: Option<Vec<u32>>|
            {
                &&& batch@ == coordinates_of(resolution, sp)
                &&& #[trigger] backend.ensures((&batch,), answer)
                &&& reads_answer(answer, results)
            },
{
    let cart = screen_coordinates(resolution, sp);
    let answer = backend(&cart);
    let results = match &answer {
        Some(raw) => Some(results_from_counts(raw)),
        None => None,
    };
    proof {
        assert(reads_answer(answer, results));
        assert(backend.ensures((&cart,), answer));
    }
    results
}

} // verus!
