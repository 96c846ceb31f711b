use glam::Vec2;
use iterative_stability::offload::results_from_counts;
use iterative_stability::offload::wgpu_from_screen_pixels_mandelbrot;
use iterative_stability::plane::screen_coordinates;
use iterative_stability::plane::SpaceParams;

#[test]
fn count_at_the_cap_means_stable() {
    let raw: Vec<u32> = vec![1000, 999, 0, 500, 1001, u32::MAX];
    let expected: Vec<(u64, bool)> = vec![
        (1000, true),
        (999, false),
        (0, false),
        (500, false),
        (1001, false),
        (4294967295, false),
    ];
    assert_eq!(results_from_counts(&raw), expected);
    assert_eq!(results_from_counts(&Vec::new()), Vec::new());
}

#[test]
fn backend_gets_the_whole_raster_in_order() {
    let resolution = (4, 3);
    let sp = SpaceParams::new(Vec2::new(-2.0, -1.5), Vec2::new(2.0, 1.5), resolution);
    let seen: std::cell::RefCell<Vec<Vec<Vec2>>> = std::cell::RefCell::new(Vec::new());
    let results = wgpu_from_screen_pixels_mandelbrot(
        |batch: &Vec<Vec2>| {
            seen.borrow_mut().push(batch.clone());
            Some((0..batch.len()).map(|k| if k % 2 == 0 { 1000 } else { k as u32 }).collect())
        },
        resolution,
        sp,
    );
    let expected: Vec<(u64, bool)> = vec![
        (1000, true),
        (1, false),
        (1000, true),
        (3, false),
        (1000, true),
        (5, false),
        (1000, true),
        (7, false),
        (1000, true),
        (9, false),
        (1000, true),
        (11, false),
    ];
    assert_eq!(results, Some(expected));
    let seen = seen.into_inner();
    assert_eq!(seen.len(), 1);
    assert_eq!(seen[0], screen_coordinates(resolution, sp));
    assert_eq!(seen[0][0], Vec2::new(-2.0, 1.0));
}

#[test]
fn failing_backend_fails_the_evaluation() {
    let resolution = (2, 2);
    let sp = SpaceParams::new(Vec2::new(-2.0, -2.0), Vec2::new(2.0, 2.0), resolution);
    let results = wgpu_from_screen_pixels_mandelbrot(|_batch: &Vec<Vec2>| None, resolution, sp);
    assert_eq!(results, None);
}

#[test]
fn backend_counts_are_read_as_they_come() {
    let resolution = (2, 2);
    let sp = SpaceParams::new(Vec2::new(-2.0, -2.0), Vec2::new(2.0, 2.0), resolution);
    let results =
        wgpu_from_screen_pixels_mandelbrot(|_batch: &Vec<Vec2>| Some(vec![1000, 2]), resolution, sp);
    assert_eq!(results, Some(vec![(1000, true), (2, false)]));
}
