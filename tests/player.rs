use slope::camera::{follow_player, CameraPose};
use slope::geometry::Point3;
use slope::input::{handle_input, toggle_window_mode, KeyState, WindowMode};

fn keys(left: bool, right: bool, fullscreen: bool) -> KeyState {
    KeyState { left_held: left, right_held: right, fullscreen_pressed: fullscreen }
}

#[test]
fn camera_trails_player_whatever_it_was() {
    let player = Point3::new(2000, -3000, -45500);
    let expected = CameraPose {
        eye: Point3::new(2000, 2000, -35500),
        target: player,
        up: Point3::new(0, 1000, 0),
    };
    let mut a = CameraPose {
        eye: Point3::new(0, 0, 0),
        target: Point3::new(0, 0, 0),
        up: Point3::new(0, 0, 0),
    };
    let mut b = CameraPose {
        eye: Point3::new(-9, 88, 7),
        target: Point3::new(1, 2, 3),
        up: Point3::new(1000, 0, 0),
    };
    follow_player(&mut a, player);
    follow_player(&mut b, player);
    assert_eq!(a, expected);
    assert_eq!(b, expected);
}

#[test]
fn held_key_accumulates_velocity() {
    let mut velocity = Point3::new(50, -7, 300);
    let mut mode = WindowMode::Windowed;
    for _ in 0..25 {
        handle_input(&mut velocity, &mut mode, keys(true, false, false));
    }
    assert_eq!(velocity, Point3::new(50 - 25 * 100, -7, 300));
    for _ in 0..40 {
        handle_input(&mut velocity, &mut mode, keys(false, true, false));
    }
    assert_eq!(velocity, Point3::new(50 + 15 * 100, -7, 300));
    assert_eq!(mode, WindowMode::Windowed);
}

#[test]
fn opposite_keys_cancel() {
    let mut velocity = Point3::new(1, 2, 3);
    let mut mode = WindowMode::Windowed;
    handle_input(&mut velocity, &mut mode, keys(true, true, false));
    assert_eq!(velocity, Point3::new(1, 2, 3));
}

#[test]
fn fullscreen_key_toggles_mode() {
    let mut velocity = Point3::new(0, 0, 0);
    let mut mode = WindowMode::Windowed;
    handle_input(&mut velocity, &mut mode, keys(false, false, true));
    assert_eq!(mode, WindowMode::BorderlessFullscreen);
    handle_input(&mut velocity, &mut mode, keys(false, false, true));
    assert_eq!(mode, WindowMode::Windowed);
    assert_eq!(toggle_window_mode(WindowMode::Fullscreen), WindowMode::BorderlessFullscreen);
    assert_eq!(toggle_window_mode(WindowMode::SizedFullscreen), WindowMode::BorderlessFullscreen);
}

#[test]
fn offset_moves_each_axis() {
    assert_eq!(Point3::new(1, 2, 3).offset(10, -20, 30), Point3::new(11, -18, 33));
}
