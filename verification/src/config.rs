//! The mapping configuration consumed by the driver core.
//!
//! A [`Config`] carries the calibration rectangle in device coordinates, the
//! target monitor's rectangle, the total screen space that contains it, the
//! two gesture thresholds and the identifiers of the two buttons.  It is
//! plain data: reading it from a file and querying the monitor layout happen
//! outside the library, which only computes with the resulting values.

use vstd::prelude::*;

use crate::geo::{max_int, min_int, AABB};
use crate::units::UDIM_BOUND;

verus! {

/// Linux input code for the left mouse button (`BTN_LEFT`).
pub const BTN_LEFT_CODE: u16 = 0x110;

/// Linux input code for the right mouse button (`BTN_RIGHT`).
pub const BTN_RIGHT_CODE: u16 = 0x111;

/// Parameters needed to translate the touch coordinates coming from the
/// monitor into coordinates in the total screen space.
///
/// The display server has a virtual total screen space consisting of all
/// connected displays, and the cursor is moved with absolute coordinates in
/// that space.  To compute the physical touch coordinates we need the
/// calibration points of the touchscreen, and to translate those into screen
/// space we need the monitor's area within the total screen space.
#[derive(Debug, Clone, Copy, PartialEq, Eq)]
pub struct Config {
    /// The coordinates of the calibration points in the coordinate system of
    /// the touch screen (physically in units of 0.1 mm).
    pub calibration_points: AABB,
    /// Screen space of the target monitor in absolute pixels.
    pub monitor_area: AABB,
    /// Total virtual screen space in pixels: the union of the screen spaces
    /// of all connected displays.
    pub screen_space: AABB,
    /// How long a press must be held, in milliseconds, to trigger a
    /// right-click.
    pub right_click_wait_ms: u64,
    /// Maximum drift from the touch origin, in device units, still eligible
    /// for a right-click.
    pub has_moved_threshold: i64,
    /// Key code for left-click.
    pub ev_left_click: u16,
    /// Key code for right-click.
    pub ev_right_click: u16,
}

impl Config {
    /// A configuration the driver can compute with: rectangles within the
    /// coordinate bound and a nonnegative drift threshold.
    pub open spec fn wf(self) -> bool {
        &&& self.calibration_points.bounded()
        &&& self.monitor_area.bounded()
        &&& self.screen_space.bounded()
        &&& 0 <= self.has_moved_threshold <= UDIM_BOUND
    }

    pub fn calibration_points(&self) -> (r: AABB)
        ensures
            r == self.calibration_points,
    {
        self.calibration_points
    }

    /// The right-click hold duration in milliseconds.
    pub fn right_click_wait(&self) -> (r: u64)
        ensures
            r == self.right_click_wait_ms,
    {
        self.right_click_wait_ms
    }

    pub fn has_moved_threshold(&self) -> (r: i64)
        ensures
            r == self.has_moved_threshold,
    {
        self.has_moved_threshold
    }

    pub fn ev_left_click(&self) -> (r: u16)
        ensures
            r == self.ev_left_click,
    {
        self.ev_left_click
    }

    pub fn ev_right_click(&self) -> (r: u16)
        ensures
            r == self.ev_right_click,
    {
        self.ev_right_click
    }

    /// Checks at run time that the configuration is one the driver can
    /// compute with, for callers that assemble it from unverified sources
    /// such as a configuration file.
    pub fn validate(&self) -> (r: bool)
        ensures
            r == self.wf(),
    {
        self.calibration_points.is_bounded() && self.monitor_area.is_bounded()
            && self.screen_space.is_bounded() && 0 <= self.has_moved_threshold
            && self.has_moved_threshold <= UDIM_BOUND
    }
}

impl Default for Config {
    /// The configuration used when no file is found: the device's nominal
    /// calibration rectangle, a 1.5 s right-click hold, a drift threshold of
    /// 30 device units (3 mm) and the standard mouse buttons.  The two screen
    /// rectangles default to a single point at the origin and must be
    /// replaced with the real monitor layout before the mapping is useful.
    fn default() -> (r: Self)
        ensures
            r.calibration_points.spec_x1() == 300,
            r.calibration_points.spec_y1() == 300,
            r.calibration_points.spec_x2() == 3800,
            r.calibration_points.spec_y2() == 3800,
            r.right_click_wait_ms == 1500,
            r.has_moved_threshold == 30,
            r.ev_left_click == BTN_LEFT_CODE,
            r.ev_right_click == BTN_RIGHT_CODE,
            r.monitor_area.spec_x1() == 0 && r.monitor_area.spec_y1() == 0
                && r.monitor_area.spec_x2() == 0 && r.monitor_area.spec_y2() == 0,
            r.screen_space.spec_x1() == 0 && r.screen_space.spec_y1() == 0
                && r.screen_space.spec_x2() == 0 && r.screen_space.spec_y2() == 0,
            r.wf(),
    {
        Config {
            calibration_points: AABB::new(
                crate::units::udim::new(300),
                crate::units::udim::new(300),
                crate::units::udim::new(3800),
                crate::units::udim::new(3800),
            ),
            monitor_area: AABB::default(),
            screen_space: AABB::default(),
            right_click_wait_ms: 1500,
            has_moved_threshold: 30,
            ev_left_click: BTN_LEFT_CODE,
            ev_right_click: BTN_RIGHT_CODE,
        }
    }
}

/// Which of the connected monitors the touchscreen is.
#[derive(Debug, Clone, PartialEq, Eq)]
pub enum MonitorDesignator {
    /// The monitor the display server reports as primary.
    Primary,
    /// The monitor with this output name.
    Named(String),
}

/// One connected monitor, as reported by the display server: its output
/// name, whether it is the primary monitor, and its rectangle within the
/// total screen space.
#[derive(Debug, Clone)]
pub struct MonitorInfo {
    pub name: String,
    pub is_primary: bool,
    pub area: AABB,
}

/// Whether a monitor is the one a designator asks for.
pub open spec fn spec_matches(d: MonitorDesignator, m: MonitorInfo) -> bool {
    match d {
        MonitorDesignator::Primary => m.is_primary,
        MonitorDesignator::Named(n) => m.name@ == n@,
    }
}

/// The corners `(x1, y1, x2, y2)` of the union of the monitors' rectangles,
/// starting from the single point at the origin, in the order the monitors
/// are listed.
pub open spec fn spec_screen_space(s: Seq<MonitorInfo>) -> (int, int, int, int)
    decreases s.len(),
{
    if s.len() == 0 {
        (0int, 0int, 0int, 0int)
    } else {
        let prev = spec_screen_space(s.drop_last());
        let b = s.last().area;
        (
            min_int(prev.0, b.spec_x1()),
            min_int(prev.1, b.spec_y1()),
            max_int(prev.2, b.spec_x2()),
            max_int(prev.3, b.spec_y2()),
        )
    }
}

/// Unions the screen spaces of all monitors to get the total screen space
/// used by the display server.
pub fn compute_screen_space(monitors: &Vec<MonitorInfo>) -> (r: AABB)
    ensures
        ({
            let c = spec_screen_space(monitors@);
            r.spec_x1() == c.0 && r.spec_y1() == c.1 && r.spec_x2() == c.2 && r.spec_y2() == c.3
        }),
{
    let mut acc = AABB::default();
    let mut i: usize = 0;
    while i < monitors.len()
        invariant
            0 <= i <= monitors@.len(),
            ({
                let c = spec_screen_space(monitors@.take(i as int));
                acc.spec_x1() == c.0 && acc.spec_y1() == c.1 && acc.spec_x2() == c.2
                    && acc.spec_y2() == c.3
            }),
        decreases monitors@.len() - i,
    {
        acc = acc.union(monitors[i].area);
        i = i + 1;
        proof {
            assert(monitors@.take(i as int).drop_last() =~= monitors@.take(i - 1));
            assert(monitors@.take(i as int).last() == monitors@[i - 1]);
        }
    }
    proof {
        assert(monitors@.take(monitors@.len() as int) =~= monitors@);
    }
    acc
}

/// Finds the screen space of the designated monitor: the first listed
/// monitor the designator matches, or `None` when no monitor matches.
pub fn get_monitor_area(designator: &MonitorDesignator, monitors: &Vec<MonitorInfo>) -> (r: Option<
    AABB,
>)
    ensures
        match r {
            Some(a) => exists|i: int|
                0 <= i < monitors@.len() && #[trigger] spec_matches(*designator, monitors@[i])
                    && a == monitors@[i].area && (forall|j: int|
                    0 <= j < i ==> !spec_matches(*designator, monitors@[j])),
            None => forall|i: int|
                0 <= i < monitors@.len() ==> !spec_matches(*designator, monitors@[i]),
        },
{
    let mut i: usize = 0;
    while i < monitors.len()
        invariant
            0 <= i <= monitors@.len(),
            forall|j: int| 0 <= j < i ==> !spec_matches(*designator, monitors@[j]),
        decreases monitors@.len() - i,
    {
        let m = &monitors[i];
        let matched = match designator {
            MonitorDesignator::Primary => m.is_primary,
            MonitorDesignator::Named(name) => m.name == *name,
        };
        if matched {
            proof {
                assert(spec_matches(*designator, monitors@[i as int]));
            }
            return Some(m.area);
        }
        i = i + 1;
    }
    None
}

} // verus!
