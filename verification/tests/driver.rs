//! Tests for the gesture state machine.

use egalax_rs::config::Config;
use egalax_rs::driver::{Driver, DriverTouchState, OutputEvent};
use egalax_rs::geo::{Point2D, AABB};
use egalax_rs::protocol::{TouchState, USBPacket};
use egalax_rs::units::udim;

fn point(x: i64, y: i64) -> Point2D {
    Point2D::new(udim::new(x), udim::new(y))
}

fn aabb(x1: i64, y1: i64, x2: i64, y2: i64) -> AABB {
    AABB::new(
        udim::new(x1),
        udim::new(y1),
        udim::new(x2),
        udim::new(y2),
    )
}

/// A 4000x4000 device mapped onto a 1920x1080 monitor at the origin.
fn test_config() -> Config {
    Config {
        calibration_points: aabb(0, 0, 4000, 4000),
        monitor_area: aabb(0, 0, 1920, 1080),
        screen_space: aabb(0, 0, 1920, 1080),
        right_click_wait_ms: 1500,
        has_moved_threshold: 30,
        ev_left_click: 272,
        ev_right_click: 273,
    }
}

fn touch(x: i64, y: i64) -> USBPacket {
    USBPacket { touch_state: TouchState::IsTouching, position: point(x, y), resolution: 12 }
}

fn release(x: i64, y: i64) -> USBPacket {
    USBPacket { touch_state: TouchState::NotTouching, position: point(x, y), resolution: 12 }
}

#[test]
fn touch_down_emits_left_press_and_mapped_moves() {
    let mut driver = Driver::new(test_config());
    let events = driver.update(touch(2000, 2000).with_time(0));
    assert_eq!(
        events,
        vec![
            OutputEvent::BtnPress { btn: 272 },
            OutputEvent::MoveX { x: 960 },
            OutputEvent::MoveY { y: 540 },
            OutputEvent::Syn,
        ]
    );
    assert!(matches!(
        driver.state.touch_state,
        DriverTouchState::IsTouching { .. }
    ));
}

#[test]
fn idle_samples_emit_only_moves() {
    let mut driver = Driver::new(test_config());
    let events = driver.update(release(1000, 3000).with_time(5));
    assert_eq!(
        events,
        vec![
            OutputEvent::MoveX { x: 480 },
            OutputEvent::MoveY { y: 810 },
            OutputEvent::Syn,
        ]
    );
}

#[test]
fn still_touch_past_wait_becomes_right_click() {
    let mut driver = Driver::new(test_config());
    driver.update(touch(2000, 2000).with_time(0));

    // Still within the wait: no button event.
    let events = driver.update(touch(2000, 2000).with_time(1500));
    assert_eq!(
        events,
        vec![
            OutputEvent::MoveX { x: 960 },
            OutputEvent::MoveY { y: 540 },
            OutputEvent::Syn,
        ]
    );
    assert!(!driver.state.is_right_click);

    // Strictly past the wait: exactly one right press, once.
    let events = driver.update(touch(2000, 2000).with_time(1501));
    assert_eq!(
        events,
        vec![
            OutputEvent::BtnPress { btn: 273 },
            OutputEvent::MoveX { x: 960 },
            OutputEvent::MoveY { y: 540 },
            OutputEvent::Syn,
        ]
    );
    assert!(driver.state.is_right_click);

    // No second right press on later samples.
    let events = driver.update(touch(2000, 2000).with_time(5000));
    assert_eq!(
        events,
        vec![
            OutputEvent::MoveX { x: 960 },
            OutputEvent::MoveY { y: 540 },
            OutputEvent::Syn,
        ]
    );

    // The release lets go of both buttons, left before right.
    let events = driver.update(release(2000, 2000).with_time(5100));
    assert_eq!(
        events,
        vec![
            OutputEvent::BtnRelease { btn: 272 },
            OutputEvent::BtnRelease { btn: 273 },
            OutputEvent::MoveX { x: 960 },
            OutputEvent::MoveY { y: 540 },
            OutputEvent::Syn,
        ]
    );
    assert!(matches!(
        driver.state.touch_state,
        DriverTouchState::NotTouching
    ));
    assert!(!driver.state.is_right_click);
    assert!(!driver.state.has_moved);
}

#[test]
fn drift_beyond_threshold_suppresses_right_click_permanently() {
    let mut driver = Driver::new(test_config());
    driver.update(touch(2000, 2000).with_time(0));

    // 31 device units from the origin: beyond the threshold of 30.
    let events = driver.update(touch(2031, 2000).with_time(100));
    assert!(!events.contains(&OutputEvent::BtnPress { btn: 273 }));
    assert!(driver.state.has_moved);

    // Back at the origin and far past the wait: still no right click.
    let events = driver.update(touch(2000, 2000).with_time(60000));
    assert!(!events.contains(&OutputEvent::BtnPress { btn: 273 }));
    assert!(!driver.state.is_right_click);

    // The release lets go of the left button only.
    let events = driver.update(release(2000, 2000).with_time(60100));
    assert_eq!(
        events,
        vec![
            OutputEvent::BtnRelease { btn: 272 },
            OutputEvent::MoveX { x: 960 },
            OutputEvent::MoveY { y: 540 },
            OutputEvent::Syn,
        ]
    );
}

#[test]
fn drift_exactly_at_threshold_keeps_right_click_eligible() {
    let mut driver = Driver::new(test_config());
    driver.update(touch(2000, 2000).with_time(0));

    // Exactly 30 device units away: not beyond the threshold.
    driver.update(touch(2030, 2000).with_time(100));
    assert!(!driver.state.has_moved);

    // So a later still sample can still fire the right click.
    let events = driver.update(touch(2030, 2000).with_time(1601));
    assert!(events.contains(&OutputEvent::BtnPress { btn: 273 }));
}

#[test]
fn new_touch_after_release_starts_fresh() {
    let mut driver = Driver::new(test_config());
    driver.update(touch(2000, 2000).with_time(0));
    driver.update(touch(2000, 2000).with_time(2000)); // right click fires
    driver.update(release(2000, 2000).with_time(2100));

    // A fresh touch presses left again and may right-click again later.
    let events = driver.update(touch(100, 100).with_time(3000));
    assert_eq!(events[0], OutputEvent::BtnPress { btn: 272 });
    let events = driver.update(touch(100, 100).with_time(4600));
    assert_eq!(events[0], OutputEvent::BtnPress { btn: 273 });
}

#[test]
fn mapping_is_not_clamped_to_monitor_area() {
    let mut driver = Driver::new(test_config());
    // 4100 is outside the calibrated range; the output exceeds the monitor.
    let events = driver.update(release(4100, 2000).with_time(0));
    assert_eq!(
        events,
        vec![
            OutputEvent::MoveX { x: 1968 },
            OutputEvent::MoveY { y: 540 },
            OutputEvent::Syn,
        ]
    );
}

#[test]
fn offset_monitor_area_shifts_the_mapping() {
    // A monitor sitting to the right of another one in screen space.
    let mut cfg = test_config();
    cfg.monitor_area = aabb(1920, 0, 3840, 1080);
    cfg.screen_space = aabb(0, 0, 3840, 1080);
    let mut driver = Driver::new(cfg);
    let events = driver.update(release(2000, 2000).with_time(0));
    assert_eq!(
        events,
        vec![
            OutputEvent::MoveX { x: 1920 + 960 },
            OutputEvent::MoveY { y: 540 },
            OutputEvent::Syn,
        ]
    );
}

#[test]
fn degenerate_calibration_range_maps_to_monitor_minimum() {
    // A zero-length calibration range must not panic; everything maps to
    // the monitor's minimum on that axis.
    let mut cfg = test_config();
    cfg.calibration_points = aabb(100, 0, 100, 4000);
    assert!(cfg.validate());
    let mut driver = Driver::new(cfg);
    let events = driver.update(release(3000, 1000).with_time(0));
    assert_eq!(
        events,
        vec![
            OutputEvent::MoveX { x: 0 },
            OutputEvent::MoveY { y: 270 },
            OutputEvent::Syn,
        ]
    );
}

#[test]
fn right_click_races_against_drift_check_order() {
    // A sample that is both beyond the threshold and past the wait sets
    // has_moved; the drift check comes first.
    let mut driver = Driver::new(test_config());
    driver.update(touch(2000, 2000).with_time(0));
    let events = driver.update(touch(2100, 2000).with_time(2000));
    assert!(!events.contains(&OutputEvent::BtnPress { btn: 273 }));
    assert!(driver.state.has_moved);
    assert!(!driver.state.is_right_click);
}
