use visualizer::camera::{
    is_visible, Camera, Direction, BP_SCALE, PAN_LIMIT, PIXEL, SCALE, SCALE_MAX, SCALE_MIN,
    TOP_OFFSET, ZOOM_IN, ZOOM_OUT,
};
use visualizer::{WINDOW_HEIGHT, WINDOW_WIDTH};

#[test]
fn constants() {
    assert_eq!(WINDOW_WIDTH, 800);
    assert_eq!(WINDOW_HEIGHT, 800);
    assert_eq!(PIXEL, 64);
    assert_eq!(SCALE, 20);
    assert_eq!(BP_SCALE, 50);
    assert_eq!(TOP_OFFSET, 6400);
    assert_eq!(ZOOM_IN, 10);
    assert_eq!(ZOOM_OUT, -5);
    assert_eq!(SCALE_MIN, 5);
    assert_eq!(SCALE_MAX, 1000);
}

#[test]
fn the_camera_starts_without_offset() {
    let camera = Camera::new();
    assert_eq!(camera.map_pos(), (0, 0));
    assert_eq!(camera.scale(), 20);
}

#[test]
fn one_zoom_in_keeps_the_focus() {
    let mut camera = Camera::new();
    camera.apply_zoom(ZOOM_IN);
    assert_eq!(camera.scale(), 30);
    assert_eq!(camera.map_pos(), (1280, 1280));
    assert_eq!(camera.scale() as f64 / 100.0, 0.3);
    assert_eq!(camera.map_pos().0 as f64 / 100.0, 64.0 * 0.2);
    assert_eq!(camera.map_pos().1 as f64 / 100.0, 64.0 * 0.2);
}

#[test]
fn one_zoom_out_is_finer() {
    let mut camera = Camera::new();
    camera.apply_zoom(ZOOM_OUT);
    assert_eq!(camera.scale(), 15);
    assert_eq!(camera.map_pos(), (1280, 1280));
}

#[test]
fn zooming_in_twice_moves_by_the_side_before_each_step() {
    let mut camera = Camera::new();
    camera.apply_zoom(10);
    camera.apply_zoom(10);
    assert_eq!(camera.scale(), 40);
    assert_eq!(camera.map_pos(), (1280 + 1920, 1280 + 1920));
}

#[test]
fn the_scale_stops_at_its_smallest() {
    let mut camera = Camera::new();
    camera.apply_zoom(-5);
    camera.apply_zoom(-5);
    camera.apply_zoom(-5);
    assert_eq!(camera.scale(), 5);
    assert_eq!(camera.map_pos(), (1280 + 960 + 640, 1280 + 960 + 640));
    camera.apply_zoom(-5);
    assert_eq!(camera.scale(), 5);
    assert_eq!(camera.map_pos(), (1280 + 960 + 640 + 320, 1280 + 960 + 640 + 320));
    camera.apply_zoom(i64::MIN);
    assert_eq!(camera.scale(), 5);
}

#[test]
fn the_scale_stops_at_its_largest() {
    let mut camera = Camera::new();
    camera.apply_zoom(975);
    assert_eq!(camera.scale(), 995);
    camera.apply_zoom(10);
    assert_eq!(camera.scale(), 1000);
    camera.apply_zoom(10);
    assert_eq!(camera.scale(), 1000);
    camera.apply_zoom(i64::MAX);
    assert_eq!(camera.scale(), 1000);
    assert_eq!(camera.map_pos().0, 1280 + 64 * 995 + 64 * 1000 + 64 * 1000);
}

#[test]
fn a_tap_moves_by_the_side_of_a_tile() {
    let mut camera = Camera::new();
    camera.apply_pan(Direction::Left, false);
    assert_eq!(camera.map_pos(), (1280, 0));
    camera.apply_pan(Direction::Up, false);
    assert_eq!(camera.map_pos(), (1280, 1280));
    camera.apply_pan(Direction::Right, false);
    camera.apply_pan(Direction::Right, false);
    assert_eq!(camera.map_pos(), (-1280, 1280));
    camera.apply_pan(Direction::Down, false);
    camera.apply_pan(Direction::Down, false);
    assert_eq!(camera.map_pos(), (-1280, -1280));
    assert_eq!(camera.scale(), 20);
}

#[test]
fn a_held_key_moves_by_a_quarter() {
    let mut camera = Camera::new();
    camera.apply_pan(Direction::Left, true);
    assert_eq!(camera.map_pos(), (320, 0));
    camera.apply_pan(Direction::Down, true);
    assert_eq!(camera.map_pos(), (320, -320));
    camera.apply_pan(Direction::Right, true);
    camera.apply_pan(Direction::Up, true);
    assert_eq!(camera.map_pos(), (0, 0));
    camera.apply_zoom(-5);
    camera.apply_pan(Direction::Up, true);
    assert_eq!(camera.map_pos(), (1280, 1280 + 240));
}

#[test]
fn a_step_of_any_length() {
    let mut camera = Camera::new();
    camera.pan_by(Direction::Left, 7);
    camera.pan_by(Direction::Up, -3);
    assert_eq!(camera.map_pos(), (7, -3));
    camera.pan_by(Direction::Right, 10);
    camera.pan_by(Direction::Down, 10);
    assert_eq!(camera.map_pos(), (-3, -13));
}

#[test]
fn the_offset_stops_at_its_limit() {
    let mut camera = Camera::new();
    camera.pan_by(Direction::Left, i64::MAX);
    assert_eq!(camera.map_pos(), (PAN_LIMIT, 0));
    camera.pan_by(Direction::Left, 1);
    assert_eq!(camera.map_pos(), (PAN_LIMIT, 0));
    camera.pan_by(Direction::Right, 1);
    assert_eq!(camera.map_pos(), (PAN_LIMIT - 1, 0));
    camera.pan_by(Direction::Right, i64::MAX);
    assert_eq!(camera.map_pos(), (-PAN_LIMIT, 0));
    camera.pan_by(Direction::Down, i64::MIN);
    assert_eq!(camera.map_pos(), (-PAN_LIMIT, PAN_LIMIT));
    camera.pan_by(Direction::Up, i64::MIN);
    assert_eq!(camera.map_pos(), (-PAN_LIMIT, -PAN_LIMIT));
    camera.apply_zoom(10);
    assert_eq!(camera.map_pos(), (-PAN_LIMIT + 1280, -PAN_LIMIT + 1280));
}

#[test]
fn cells_are_placed_by_column_and_row() {
    let camera = Camera::new();
    assert_eq!(camera.world_to_screen(0, 0), (0, 6400));
    assert_eq!(camera.world_to_screen(2, 3), (3 * 1280, 6400 + 2 * 1280));
    assert_eq!(camera.world_to_screen(3, 2), (2 * 1280, 6400 + 3 * 1280));

    let mut moved = Camera::new();
    moved.apply_zoom(10);
    moved.apply_pan(Direction::Right, false);
    moved.apply_pan(Direction::Down, true);
    assert_eq!(moved.map_pos(), (1280 - 1920, 1280 - 480));
    assert_eq!(moved.world_to_screen(1, 4), (-640 + 4 * 1920, 6400 + 800 + 1920));
}

#[test]
fn far_cells_are_placed_without_overflow() {
    let mut camera = Camera::new();
    camera.apply_zoom(i64::MAX);
    camera.pan_by(Direction::Left, i64::MAX);
    camera.pan_by(Direction::Up, i64::MAX);
    let far = camera.world_to_screen(usize::MAX, usize::MAX);
    let step = 64_000i128;
    assert_eq!(far.0, PAN_LIMIT as i128 + usize::MAX as i128 * step);
    assert_eq!(far.1, 6400 + PAN_LIMIT as i128 + usize::MAX as i128 * step);
}

#[test]
fn the_window_shows_what_lies_in_it() {
    assert!(is_visible(0, 1));
    assert!(!is_visible(0, 0));
    assert!(!is_visible(-1, 1));
    assert!(is_visible(79_999, 79_999));
    assert!(!is_visible(80_000, 1));
    assert!(!is_visible(0, 80_000));
    assert!(!is_visible(5, -5));
    assert!(is_visible(40_000, 6_400));
}
