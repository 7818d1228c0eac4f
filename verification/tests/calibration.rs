//! Tests for the calibration-point solver.

use egalax_rs::calibration::{CalibrationState, OngoingState, Stage, TouchCloud};
use egalax_rs::geo::Point2D;
use egalax_rs::protocol::{TouchState, USBPacket};
use egalax_rs::units::udim;

fn point(x: i64, y: i64) -> Point2D {
    Point2D::new(udim::new(x), udim::new(y))
}

fn touch(x: i64, y: i64) -> USBPacket {
    USBPacket { touch_state: TouchState::IsTouching, position: point(x, y), resolution: 12 }
}

fn release(x: i64, y: i64) -> USBPacket {
    USBPacket { touch_state: TouchState::NotTouching, position: point(x, y), resolution: 12 }
}

/// Performs one capture: a few touches around `(x, y)`, then a release.
fn capture(state: &mut CalibrationState, x: i64, y: i64) {
    state.process_packet(&touch(x + 1, y));
    state.process_packet(&touch(x - 1, y + 2));
    state.process_packet(&touch(x, y - 2));
    state.process_packet(&release(x + 1, y));
}

#[test]
fn touch_cloud_midpoint_of_bounding_box() {
    let cloud = TouchCloud { v: vec![point(0, 0), point(10, 20), point(4, 6)] };
    assert_eq!(cloud.compute_touch_coord(), point(5, 10));

    let single = TouchCloud { v: vec![point(7, -3)] };
    assert_eq!(single.compute_touch_coord(), point(7, -3));
}

#[test]
fn touch_cloud_push_collects() {
    let mut cloud = TouchCloud { v: Vec::new() };
    cloud.push(point(1, 2));
    cloud.push(point(3, 4));
    assert_eq!(cloud.v, vec![point(1, 2), point(3, 4)]);
}

#[test]
fn stage_num_counts_captures() {
    assert_eq!(Stage::Stage0.num(), 0);
    assert_eq!(Stage::Stage1 { c0: point(0, 0) }.num(), 1);
    assert_eq!(Stage::Stage2 { c0: point(0, 0), c1: point(1, 1) }.num(), 2);
    assert_eq!(
        Stage::Stage3 { c0: point(0, 0), c1: point(1, 1), c2: point(2, 2) }.num(),
        3
    );
}

#[test]
fn advance_stores_coordinates_in_order() {
    let s0 = OngoingState::new(Stage::Stage0);
    let s1 = s0.advance(point(10, 11));
    let o1 = match s1 {
        CalibrationState::Ongoing(o) => o,
        CalibrationState::Finished { .. } => panic!("finished too early"),
    };
    assert_eq!(o1.stage, Stage::Stage1 { c0: point(10, 11) });
    assert_eq!(o1.touch_state, TouchState::NotTouching);
    assert!(o1.touch_cloud.v.is_empty());

    let s2 = o1.advance(point(20, 21));
    let o2 = match s2 {
        CalibrationState::Ongoing(o) => o,
        CalibrationState::Finished { .. } => panic!("finished too early"),
    };
    assert_eq!(
        o2.stage,
        Stage::Stage2 { c0: point(10, 11), c1: point(20, 21) }
    );
}

#[test]
fn solve_recovers_exact_range() {
    // Target range [1000, 3000] on both axes: length 2000 is divisible by
    // 20, so the captures at the fractions 3/20 and 17/20 are exact and the
    // solver recovers the range exactly.
    let t0 = 1000 + 3 * 2000 / 20; // 1300
    let t1 = 1000 + 17 * 2000 / 20; // 2700

    let mut state = CalibrationState::start();
    capture(&mut state, t0, t0); // top-left
    capture(&mut state, t0, t1); // bottom-left
    capture(&mut state, t1, t0); // top-right
    capture(&mut state, t1, t1); // bottom-right

    match state {
        CalibrationState::Finished { calibration_points } => {
            assert_eq!(calibration_points.xrange().min().value(), 1000);
            assert_eq!(calibration_points.xrange().max().value(), 3000);
            assert_eq!(calibration_points.yrange().min().value(), 1000);
            assert_eq!(calibration_points.yrange().max().value(), 3000);
        }
        CalibrationState::Ongoing(_) => panic!("four captures must finish the calibration"),
    }
}

#[test]
fn solve_with_rounding_is_off_by_at_most_the_rounding() {
    // Length 90 is not divisible by 20: the captures themselves round
    // (13.5 -> 13, 76.5 -> 76) and the solved minimum lands one unit below
    // the target range [0, 90].
    let mut state = CalibrationState::start();
    capture(&mut state, 13, 13);
    capture(&mut state, 13, 76);
    capture(&mut state, 76, 13);
    capture(&mut state, 76, 76);

    match state {
        CalibrationState::Finished { calibration_points } => {
            assert_eq!(calibration_points.xrange().min().value(), -1);
            assert_eq!(calibration_points.xrange().max().value(), 90);
            assert_eq!(calibration_points.yrange().min().value(), -1);
            assert_eq!(calibration_points.yrange().max().value(), 90);
        }
        CalibrationState::Ongoing(_) => panic!("four captures must finish the calibration"),
    }
}

#[test]
fn solved_calibration_feeds_the_driver() {
    // The solved rectangle becomes the mapping configuration's calibration
    // points; a touch in the middle of the calibrated range then lands in
    // the middle of the monitor.
    let mut state = CalibrationState::start();
    capture(&mut state, 1300, 1300);
    capture(&mut state, 1300, 2700);
    capture(&mut state, 2700, 1300);
    capture(&mut state, 2700, 2700);
    let calibration_points = match state {
        CalibrationState::Finished { calibration_points } => calibration_points,
        CalibrationState::Ongoing(_) => panic!("four captures must finish the calibration"),
    };

    let cfg = egalax_rs::config::Config {
        calibration_points,
        monitor_area: egalax_rs::geo::AABB::new(
            udim::new(0),
            udim::new(0),
            udim::new(2000),
            udim::new(1000),
        ),
        screen_space: egalax_rs::geo::AABB::new(
            udim::new(0),
            udim::new(0),
            udim::new(2000),
            udim::new(1000),
        ),
        ..egalax_rs::config::Config::default()
    };
    assert!(cfg.validate());

    let mut driver = egalax_rs::driver::Driver::new(cfg);
    let events = driver.update(release(2000, 2000).with_time(0));
    assert_eq!(
        events,
        vec![
            egalax_rs::driver::OutputEvent::MoveX { x: 1000 },
            egalax_rs::driver::OutputEvent::MoveY { y: 500 },
            egalax_rs::driver::OutputEvent::Syn,
        ]
    );
}

#[test]
fn release_without_prior_touch_is_collected_but_does_not_advance() {
    // The session starts in the not-touching state, so a stray release
    // sample is only collected; no stage advances.
    let mut state = CalibrationState::start();
    state.process_packet(&release(5, 5));
    match state {
        CalibrationState::Ongoing(o) => {
            assert_eq!(o.stage, Stage::Stage0);
            assert_eq!(o.touch_cloud.v, vec![point(5, 5)]);
            assert_eq!(o.touch_state, TouchState::NotTouching);
        }
        CalibrationState::Finished { .. } => panic!("must still be ongoing"),
    }
}

#[test]
fn finished_state_ignores_further_packets() {
    let mut state = CalibrationState::Finished {
        calibration_points: egalax_rs::geo::AABB::default(),
    };
    let before = state.clone();
    state.process_packet(&touch(1, 1));
    state.process_packet(&release(1, 1));
    assert_eq!(state, before);
}

#[test]
fn capture_uses_cloud_midpoint_not_last_sample() {
    // The representative coordinate is the midpoint of the bounding box of
    // all collected samples, release sample included.
    let mut state = CalibrationState::start();
    state.process_packet(&touch(0, 0));
    state.process_packet(&touch(10, 40));
    state.process_packet(&release(0, 0));
    match state {
        CalibrationState::Ongoing(o) => {
            assert_eq!(o.stage, Stage::Stage1 { c0: point(5, 20) });
        }
        CalibrationState::Finished { .. } => panic!("must still be ongoing"),
    }
}
