//! Tests for the configuration, monitor selection, program arguments and
//! audio data.

use egalax_rs::audio::{Sound, SoundData};
use egalax_rs::cli::ProgramArgs;
use egalax_rs::config::{
    compute_screen_space, get_monitor_area, Config, MonitorDesignator, MonitorInfo,
    BTN_LEFT_CODE, BTN_RIGHT_CODE,
};
use egalax_rs::geo::AABB;
use egalax_rs::units::udim;

fn aabb(x1: i64, y1: i64, x2: i64, y2: i64) -> AABB {
    AABB::new(
        udim::new(x1),
        udim::new(y1),
        udim::new(x2),
        udim::new(y2),
    )
}

#[test]
fn default_config_values() {
    let cfg = Config::default();
    assert_eq!(cfg.calibration_points(), aabb(300, 300, 3800, 3800));
    assert_eq!(cfg.right_click_wait(), 1500);
    assert_eq!(cfg.has_moved_threshold(), 30);
    assert_eq!(cfg.ev_left_click(), BTN_LEFT_CODE);
    assert_eq!(cfg.ev_right_click(), BTN_RIGHT_CODE);
    assert_eq!(cfg.ev_left_click(), 0x110);
    assert_eq!(cfg.ev_right_click(), 0x111);
    assert!(cfg.validate());
}

#[test]
fn validate_rejects_out_of_bounds_values() {
    let mut cfg = Config::default();
    cfg.has_moved_threshold = -1;
    assert!(!cfg.validate());

    let mut cfg = Config::default();
    cfg.monitor_area = aabb(0, 0, 0x4000_0001, 100);
    assert!(!cfg.validate());
}

#[test]
fn screen_space_is_union_of_all_monitors() {
    let monitors = vec![
        MonitorInfo { name: String::from("DP-1"), is_primary: true, area: aabb(0, 0, 1920, 1080) },
        MonitorInfo {
            name: String::from("HDMI-A-0"),
            is_primary: false,
            area: aabb(1920, 0, 3840, 1200),
        },
    ];
    let total = compute_screen_space(&monitors);
    assert_eq!(total, aabb(0, 0, 3840, 1200));

    // No monitors: the single point at the origin.
    assert_eq!(compute_screen_space(&Vec::new()), aabb(0, 0, 0, 0));
}

#[test]
fn monitor_selection_by_name_and_primary() {
    let monitors = vec![
        MonitorInfo { name: String::from("DP-1"), is_primary: true, area: aabb(0, 0, 1920, 1080) },
        MonitorInfo {
            name: String::from("HDMI-A-0"),
            is_primary: false,
            area: aabb(1920, 0, 3840, 1200),
        },
    ];
    assert_eq!(
        get_monitor_area(&MonitorDesignator::Primary, &monitors),
        Some(aabb(0, 0, 1920, 1080))
    );
    assert_eq!(
        get_monitor_area(&MonitorDesignator::Named(String::from("HDMI-A-0")), &monitors),
        Some(aabb(1920, 0, 3840, 1200))
    );
    assert_eq!(
        get_monitor_area(&MonitorDesignator::Named(String::from("DVI-0")), &monitors),
        None
    );
}

#[test]
fn program_args_hold_their_paths() {
    let args = ProgramArgs::new(String::from("/dev/hidraw0"), Some(String::from("cfg.toml")));
    assert_eq!(args.device(), "/dev/hidraw0");
    assert_eq!(args.config(), Some(&String::from("cfg.toml")));

    let args = ProgramArgs::new(String::from("/dev/hidraw.egalax"), None);
    assert_eq!(args.device(), "/dev/hidraw.egalax");
    assert_eq!(args.config(), None);
}

#[test]
fn sound_data_keeps_its_bytes() {
    let clip = SoundData::new(b"not actually audio");
    assert_eq!(clip.data(), b"not actually audio");
    let wow = Sound::Wow;
    let shot = Sound::Shot;
    assert!(wow != shot);
}
