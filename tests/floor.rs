use slope::floor::{
    ceil_abs, check_distance, extend_floor, generate_floor, is_at_threshold, FloorSegment,
    GenerationState,
};
use slope::geometry::Point3;

fn run(zs: &[i64]) -> (GenerationState, usize) {
    let mut state = GenerationState::Idle;
    let mut requests = 0;
    for &z in zs {
        if check_distance(&mut state, z) {
            requests += 1;
        }
    }
    (state, requests)
}

#[test]
fn ceil_abs_rounds_away_from_zero() {
    assert_eq!(ceil_abs(0), 0);
    assert_eq!(ceil_abs(1), 1);
    assert_eq!(ceil_abs(1000), 1);
    assert_eq!(ceil_abs(1001), 2);
    assert_eq!(ceil_abs(-1001), 2);
    assert_eq!(ceil_abs(-9500), 10);
    assert_eq!(ceil_abs(i64::MAX), 9223372036854776);
    assert_eq!(ceil_abs(i64::MIN), 9223372036854776);
}

#[test]
fn threshold_follows_ceiling_of_distance() {
    assert!(is_at_threshold(0));
    assert!(is_at_threshold(10000));
    assert!(is_at_threshold(9001));
    assert!(!is_at_threshold(9000));
    assert!(!is_at_threshold(10001));
    assert!(is_at_threshold(-20000));
    assert!(is_at_threshold(-19500));
    assert!(!is_at_threshold(-10500));
}

#[test]
fn idle_on_threshold_requests_one_segment() {
    let mut state = GenerationState::Idle;
    assert!(check_distance(&mut state, 10000));
    assert_eq!(state, GenerationState::Generated);
}

#[test]
fn consecutive_threshold_ticks_request_once() {
    assert_eq!(run(&[10000, 9800, 9500, 9001]), (GenerationState::Generated, 1));
    let mut state = GenerationState::Generated;
    assert!(!check_distance(&mut state, 20000));
    assert_eq!(state, GenerationState::Generated);
}

#[test]
fn leaving_threshold_rearms_trigger() {
    let mut state = GenerationState::Generated;
    assert!(!check_distance(&mut state, 10500));
    assert_eq!(state, GenerationState::Idle);
    assert!(check_distance(&mut state, 20000));
    assert_eq!(run(&[10000, 10500, 19500, 25000, 30000]), (GenerationState::Generated, 3));
}

#[test]
fn fast_jump_over_threshold_leaves_gap() {
    assert_eq!(run(&[8900, 10100]), (GenerationState::Idle, 0));
}

#[test]
fn jump_from_nine_point_four_still_triggers_on_ceiling() {
    // ceil(9.4) is 10, so the tick at 9.4 is itself on the threshold.
    assert_eq!(run(&[9400, 10600]), (GenerationState::Idle, 1));
}

#[test]
fn segment_placed_below_player() {
    let seg = generate_floor(Point3::new(1500, 3000, -20000));
    assert_eq!(
        seg,
        FloorSegment {
            center: Point3::new(1500, 1000, -20000),
            half_extents: Point3::new(5000, 500, 25000),
            tilt_millidegrees: -22500,
        }
    );
}

#[test]
fn extend_floor_spawns_only_on_request() {
    let mut state = GenerationState::Idle;
    let player = Point3::new(-700, 250, 30000);
    assert_eq!(extend_floor(&mut state, player), Some(generate_floor(player)));
    assert_eq!(extend_floor(&mut state, player), None);
    assert_eq!(state, GenerationState::Generated);
    assert_eq!(extend_floor(&mut state, Point3::new(0, 0, 30500)), None);
    assert_eq!(state, GenerationState::Idle);
}
