use parallax::camera::{update_camera, Direction, Dolly};
use parallax::motion::{is_outside, step_coordinate, update_object, Movement, Position};

#[test]
fn sprite_moves_by_speed_times_elapsed() {
    let mut m = Movement::new(true, 16, 0);
    let mut p = Position::new(0, 0);
    update_object(&mut m, &mut p, 500_000);
    assert_eq!(p, Position::new(8_000_000, 0));
    assert!(m.toward);
}

#[test]
fn sprite_moves_backward_when_not_toward() {
    let mut m = Movement::new(false, -32, 32);
    let mut p = Position::new(0, 0);
    update_object(&mut m, &mut p, 1_000_000);
    assert_eq!(p, Position::new(32_000_000, -32_000_000));
}

#[test]
fn position_is_sum_of_signed_frames() {
    let mut m = Movement::new(true, 32, 16);
    let mut p = Position::new(190_000_000, 0);
    let dts: [u64; 4] = [250_000, 500_000, 1_000_000, 0];
    let mut expected_x: i64 = 190_000_000;
    let mut expected_y: i64 = 0;
    for dt in dts {
        let sign: i64 = if m.toward { 1 } else { -1 };
        expected_x += sign * 32 * dt as i64;
        expected_y += sign * 16 * dt as i64;
        update_object(&mut m, &mut p, dt);
    }
    assert_eq!(p, Position::new(expected_x, expected_y));
    assert_eq!(p, Position::new(182_000_000, -4_000_000));
}

#[test]
fn flip_happens_on_first_frame_outside_and_reverses_both_axes() {
    let mut m = Movement::new(true, 32, 32);
    let mut p = Position::new(199_000_000, 199_000_000);
    update_object(&mut m, &mut p, 1_000_000);
    assert_eq!(p, Position::new(231_000_000, 231_000_000));
    assert!(!m.toward);
    update_object(&mut m, &mut p, 1_000_000);
    assert_eq!(p, Position::new(199_000_000, 199_000_000));
    assert!(!m.toward);
}

#[test]
fn flip_on_one_axis_reverses_the_other_too() {
    let mut m = Movement::new(true, 0, 16);
    let mut p = Position::new(5_000_000, 195_000_000);
    update_object(&mut m, &mut p, 1_000_000);
    assert!(!m.toward);
    update_object(&mut m, &mut p, 1_000_000);
    assert_eq!(p, Position::new(5_000_000, 195_000_000));
}

#[test]
fn bound_itself_is_inside() {
    assert!(!is_outside(200_000_000, -200_000_000));
    assert!(is_outside(200_000_001, 0));
    assert!(is_outside(0, -200_000_001));
    let mut m = Movement::new(true, 16, 0);
    let mut p = Position::new(184_000_000, 0);
    update_object(&mut m, &mut p, 1_000_000);
    assert_eq!(p.x, 200_000_000);
    assert!(m.toward);
}

#[test]
fn zero_elapsed_time_keeps_position() {
    let mut m = Movement::new(true, 32, 32);
    let mut p = Position::new(10, -10);
    update_object(&mut m, &mut p, 0);
    assert_eq!(p, Position::new(10, -10));
    assert_eq!(step_coordinate(false, 7, 1_000, 0), 7);
}

#[test]
fn camera_reaches_500_after_100_seconds() {
    let mut d = Dolly::new();
    let mut p = Position::new(0, 0);
    for _ in 0..100 {
        update_camera(&mut d, &mut p, 1_000_000);
    }
    assert_eq!(p, Position::new(0, 500_000_000));
    assert_eq!(d.direction, Direction::North);
    update_camera(&mut d, &mut p, 1);
    assert_eq!(p.y, 500_000_005);
    assert_eq!(d.direction, Direction::East);
}

#[test]
fn camera_patrol_cycles_through_all_headings() {
    let mut d = Dolly::new();
    let mut p = Position::new(0, 0);
    let mut seen = vec![d.direction];
    for _ in 0..800 {
        update_camera(&mut d, &mut p, 1_000_000);
        if *seen.last().unwrap() != d.direction {
            seen.push(d.direction);
        }
    }
    assert_eq!(
        seen,
        vec![Direction::North, Direction::East, Direction::South, Direction::West, Direction::North]
    );
}

#[test]
fn camera_west_bound_is_minus_1000() {
    let mut d = Dolly { direction: Direction::West };
    let mut p = Position::new(-999_000_000, 0);
    update_camera(&mut d, &mut p, 200_000);
    assert_eq!(p.x, -1_000_000_000);
    assert_eq!(d.direction, Direction::West);
    update_camera(&mut d, &mut p, 200_000);
    assert_eq!(p.x, -1_001_000_000);
    assert_eq!(d.direction, Direction::North);
}

#[test]
fn camera_east_and_south_turns() {
    let mut d = Dolly { direction: Direction::East };
    let mut p = Position::new(499_000_000, 3);
    update_camera(&mut d, &mut p, 400_000);
    assert_eq!(p, Position::new(501_000_000, 3));
    assert_eq!(d.direction, Direction::South);
    let mut p = Position::new(0, -499_000_000);
    update_camera(&mut d, &mut p, 400_000);
    assert_eq!(p.y, -501_000_000);
    assert_eq!(d.direction, Direction::West);
}
