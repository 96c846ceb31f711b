use glam::Vec2;
use iterative_stability::plane::from_screen_point_to_cartesian;
use iterative_stability::plane::raster_len;
use iterative_stability::plane::resolution_is_valid;
use iterative_stability::plane::screen_coordinates;
use iterative_stability::plane::screen_position;
use iterative_stability::plane::SpaceParams;

#[test]
fn params_hold_extent_centre_and_pixel_size() {
    let sp = SpaceParams::new(Vec2::new(1.0, 2.0), Vec2::new(3.0, 6.0), (4, 2));
    assert_eq!(sp.scale, Vec2::new(2.0, 4.0));
    assert_eq!(sp.offset, Vec2::new(2.0, 4.0));
    assert_eq!(sp.delta, Vec2::new(0.5, 2.0));
}

#[test]
fn extent_is_upper_minus_lower() {
    let sp = SpaceParams::new(Vec2::new(3.0, 6.0), Vec2::new(1.0, 2.0), (2, 2));
    assert_eq!(sp.scale, Vec2::new(-2.0, -4.0));
    assert_eq!(sp.delta, Vec2::new(-1.0, -2.0));
    assert_eq!(sp.offset, Vec2::new(2.0, 4.0));
}

#[test]
fn positions_are_counted_from_the_centre() {
    assert_eq!(screen_position(0, (3, 3)), (-1, 1));
    assert_eq!(screen_position(4, (3, 3)), (0, 0));
    assert_eq!(screen_position(8, (3, 3)), (1, -1));
    assert_eq!(screen_position(0, (4, 2)), (-2, 1));
    assert_eq!(screen_position(3, (4, 2)), (1, 1));
    assert_eq!(screen_position(4, (4, 2)), (-2, 0));
    assert_eq!(screen_position(7, (4, 2)), (1, 0));
    assert_eq!(screen_position(0, (1, 1)), (0, 0));
}

#[test]
fn first_pixel_of_an_odd_raster_is_half_a_pixel_inside_the_corner() {
    let lower = Vec2::new(-3.0, -3.0);
    let upper = Vec2::new(3.0, 3.0);
    let sp = SpaceParams::new(lower, upper, (3, 3));
    assert_eq!(sp.delta, Vec2::new(2.0, 2.0));
    let first = from_screen_point_to_cartesian(0, (3, 3), sp);
    assert_eq!(first, Vec2::new(-2.0, 2.0));
    assert_eq!(first.x, lower.x + sp.delta.x / 2.0);
    assert_eq!(first.y, upper.y - sp.delta.y / 2.0);
    let last = from_screen_point_to_cartesian(8, (3, 3), sp);
    assert_eq!(last, Vec2::new(2.0, -2.0));
    assert_eq!(last.x, upper.x - sp.delta.x / 2.0);
    assert_eq!(last.y, lower.y + sp.delta.y / 2.0);
}

#[test]
fn centre_pixel_of_an_odd_raster_is_the_midpoint() {
    let sp = SpaceParams::new(Vec2::new(-2.0, -2.0), Vec2::new(2.0, 2.0), (5, 5));
    assert_eq!(from_screen_point_to_cartesian(12, (5, 5), sp), Vec2::new(0.0, 0.0));
    let moved = SpaceParams::new(Vec2::new(1.0, 10.0), Vec2::new(3.0, 20.0), (3, 5));
    assert_eq!(from_screen_point_to_cartesian(7, (3, 5), moved), Vec2::new(2.0, 15.0));
}

#[test]
fn even_raster_starts_on_the_corner() {
    let sp = SpaceParams::new(Vec2::new(-2.0, -2.0), Vec2::new(2.0, 2.0), (4, 4));
    assert_eq!(from_screen_point_to_cartesian(0, (4, 4), sp), Vec2::new(-2.0, 2.0));
    assert_eq!(from_screen_point_to_cartesian(15, (4, 4), sp), Vec2::new(1.0, -1.0));
    assert_eq!(from_screen_point_to_cartesian(10, (4, 4), sp), Vec2::new(0.0, 0.0));
}

#[test]
fn rows_run_from_top_to_bottom() {
    let sp = SpaceParams::new(Vec2::new(0.0, 0.0), Vec2::new(4.0, 6.0), (2, 3));
    let batch = screen_coordinates((2, 3), sp);
    let expected = vec![
        Vec2::new(0.0, 5.0),
        Vec2::new(2.0, 5.0),
        Vec2::new(0.0, 3.0),
        Vec2::new(2.0, 3.0),
        Vec2::new(0.0, 1.0),
        Vec2::new(2.0, 1.0),
    ];
    assert_eq!(batch, expected);
}

#[test]
fn coordinates_are_those_of_each_pixel() {
    let resolution = (7, 5);
    let sp = SpaceParams::new(Vec2::new(-2.5, -2.0), Vec2::new(1.5, 2.0), resolution);
    let batch = screen_coordinates(resolution, sp);
    assert_eq!(batch.len(), 35);
    for index in 0..35 {
        assert_eq!(batch[index as usize], from_screen_point_to_cartesian(index, resolution, sp));
    }
}

#[test]
fn resolutions_are_told_apart() {
    assert!(resolution_is_valid((1, 1)));
    assert!(resolution_is_valid((1200, 1200)));
    assert!(resolution_is_valid((46340, 46340)));
    assert!(resolution_is_valid((i32::MAX, 1)));
    assert!(!resolution_is_valid((65536, 32768)));
    assert!(!resolution_is_valid((0, 5)));
    assert!(!resolution_is_valid((5, 0)));
    assert!(!resolution_is_valid((-3, 4)));
    assert!(!resolution_is_valid((4, -3)));
    assert_eq!(raster_len((1200, 1000)), 1200000);
}

#[test]
fn degenerate_bounds_collapse_to_one_point() {
    let resolution = (3, 2);
    let sp = SpaceParams::new(Vec2::new(0.5, -1.0), Vec2::new(0.5, -1.0), resolution);
    assert_eq!(sp.scale, Vec2::new(0.0, 0.0));
    assert_eq!(sp.delta, Vec2::new(0.0, 0.0));
    let batch = screen_coordinates(resolution, sp);
    assert_eq!(batch.len(), 6);
    assert!(batch.iter().all(|point| *point == Vec2::new(0.5, -1.0)));
}
