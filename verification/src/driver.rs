//! The gesture state machine at the heart of the driver.
//!
//! [`Driver::update`] consumes one timestamped, decoded touch sample at a
//! time and produces the ordered batch of output events the virtual input
//! device must write: at most one button press or release, then the mapped
//! absolute X and Y positions, then a sync marker.  A touch begins a left
//! click; a touch held still past the configured wait becomes a right click;
//! drifting beyond the configured threshold permanently disables the right
//! click for that touch.

use vstd::prelude::*;

use crate::config::Config;
use crate::geo::{spec_dist_squared, Point2D};
use crate::protocol::{TouchState, USBMessage, USBPacket};

verus! {

/// Touch state of the driver that also keeps track of when & where the
/// touch started.
#[derive(Debug, Clone, Copy, PartialEq, Eq)]
pub enum DriverTouchState {
    IsTouching {
        /// The start time of the current touch, in milliseconds.
        touch_start_time: u64,
        /// The initial touch point.
        touch_origin: Point2D,
    },
    NotTouching,
}

/// Internal state of the driver.
///
/// The two flags are only meaningful while in
/// [`DriverTouchState::IsTouching`]; both are cleared exactly when the state
/// returns to [`DriverTouchState::NotTouching`].
#[derive(Debug, Clone, Copy, PartialEq, Eq)]
pub struct DriverState {
    /// If someone is pressing on the touchscreen.
    pub touch_state: DriverTouchState,
    /// If we are emitting a right-click.
    pub is_right_click: bool,
    /// If true, the finger has moved too much, so we don't emit a
    /// right-click.
    pub has_moved: bool,
}

/// The state the driver starts in and returns to whenever the finger lifts:
/// not touching, both flags clear.
pub open spec fn spec_initial_state() -> DriverState {
    DriverState {
        touch_state: DriverTouchState::NotTouching,
        is_right_click: false,
        has_moved: false,
    }
}

impl DriverState {
    /// The touch origin the state holds, where there is one, stays within
    /// the coordinate bound.
    pub open spec fn wf(self) -> bool {
        match self.touch_state {
            DriverTouchState::IsTouching { touch_origin, .. } => touch_origin.bounded(),
            DriverTouchState::NotTouching => true,
        }
    }

    pub fn touch_state(&self) -> (r: DriverTouchState)
        ensures
            r == self.touch_state,
    {
        self.touch_state
    }
}

impl Default for DriverState {
    /// The initial state: not touching, both flags clear.
    fn default() -> (r: Self)
        ensures
            r == spec_initial_state(),
    {
        DriverState {
            touch_state: DriverTouchState::NotTouching,
            is_right_click: false,
            has_moved: false,
        }
    }
}

/// One event of the ordered batch the driver hands to the output sink.  The
/// sink must write a batch in order, without reordering or coalescing; a
/// [`OutputEvent::Syn`] marker ends each batch.
#[derive(Debug, Clone, Copy, PartialEq, Eq, Structural)]
pub enum OutputEvent {
    /// Press of the button with the given key code.
    BtnPress { btn: u16 },
    /// Release of the button with the given key code.
    BtnRelease { btn: u16 },
    /// Absolute move to this X coordinate in screen space.
    MoveX { x: i64 },
    /// Absolute move to this Y coordinate in screen space.
    MoveY { y: i64 },
    /// End-of-batch marker: the sink applies the preceding events atomically.
    Syn,
}

/// Whether a touch at `pos` has drifted beyond the configured threshold from
/// its origin.  Distances are compared squared; for a nonnegative threshold
/// that is the same comparison as on the Euclidean distances themselves.
pub open spec fn spec_moved_beyond(origin: Point2D, pos: Point2D, threshold: int) -> bool {
    spec_dist_squared(origin, pos) > threshold * threshold
}

/// Whether a touch that started at `start` has, at `now`, been held longer
/// than the configured right-click wait.
pub open spec fn spec_hold_elapsed(start: u64, now: u64, wait: u64) -> bool {
    now > start + wait
}

/// Whether a continued still touch turns into a right click at this sample:
/// neither flag set, the finger within the drift threshold, and the wait
/// exceeded.
pub open spec fn spec_right_click_fires(
    state: DriverState,
    pkt: USBPacket,
    now: u64,
    cfg: Config,
) -> bool {
    &&& state.touch_state matches DriverTouchState::IsTouching { touch_start_time, touch_origin }
    &&& !state.is_right_click
    &&& !state.has_moved
    &&& !spec_moved_beyond(touch_origin, pkt.position, cfg.has_moved_threshold as int)
    &&& spec_hold_elapsed(touch_start_time, now, cfg.right_click_wait_ms)
}

/// The driver's transition table: the state after feeding one sample.
pub open spec fn spec_next_state(
    state: DriverState,
    pkt: USBPacket,
    now: u64,
    cfg: Config,
) -> DriverState {
    match (state.touch_state, pkt.touch_state) {
        (DriverTouchState::NotTouching, TouchState::NotTouching) => state,
        (DriverTouchState::IsTouching { .. }, TouchState::NotTouching) => spec_initial_state(),
        (DriverTouchState::NotTouching, TouchState::IsTouching) => DriverState {
            touch_state: DriverTouchState::IsTouching {
                touch_start_time: now,
                touch_origin: pkt.position,
            },
            is_right_click: false,
            has_moved: false,
        },
        (
            DriverTouchState::IsTouching { touch_start_time, touch_origin },
            TouchState::IsTouching,
        ) => {
            if !state.is_right_click && !state.has_moved {
                if spec_moved_beyond(touch_origin, pkt.position, cfg.has_moved_threshold as int) {
                    DriverState {
                        touch_state: state.touch_state,
                        is_right_click: state.is_right_click,
                        has_moved: true,
                    }
                } else if spec_hold_elapsed(touch_start_time, now, cfg.right_click_wait_ms) {
                    DriverState {
                        touch_state: state.touch_state,
                        is_right_click: true,
                        has_moved: state.has_moved,
                    }
                } else {
                    state
                }
            } else {
                state
            }
        },
    }
}

/// The button events, zero, one or two of them, that feeding one sample
/// emits, in order.
pub open spec fn spec_button_events(
    state: DriverState,
    pkt: USBPacket,
    now: u64,
    cfg: Config,
) -> Seq<OutputEvent> {
    match (state.touch_state, pkt.touch_state) {
        (DriverTouchState::NotTouching, TouchState::NotTouching) => seq![],
        (DriverTouchState::IsTouching { .. }, TouchState::NotTouching) => {
            if state.is_right_click {
                seq![
                    OutputEvent::BtnRelease { btn: cfg.ev_left_click },
                    OutputEvent::BtnRelease { btn: cfg.ev_right_click },
                ]
            } else {
                seq![OutputEvent::BtnRelease { btn: cfg.ev_left_click }]
            }
        },
        (DriverTouchState::NotTouching, TouchState::IsTouching) => seq![
            OutputEvent::BtnPress { btn: cfg.ev_left_click },
        ],
        (DriverTouchState::IsTouching { .. }, TouchState::IsTouching) => {
            if spec_right_click_fires(state, pkt, now, cfg) {
                seq![OutputEvent::BtnPress { btn: cfg.ev_right_click }]
            } else {
                seq![]
            }
        },
    }
}

/// One coordinate mapped from the calibrated device range `[cal_lo, cal_hi]`
/// into the monitor range `[mon_lo, mon_hi]`, rounded towards negative
/// infinity.  A degenerate calibration range maps everything to `mon_lo`.
/// The result is deliberately not clamped to the monitor range: a touch
/// outside the calibrated rectangle yields a proportionally out-of-range
/// coordinate, which the output device's addressable range (the whole screen
/// space) still accommodates.
pub open spec fn spec_map_axis(cal_lo: int, cal_hi: int, mon_lo: int, mon_hi: int, v: int) -> int {
    if cal_hi == cal_lo {
        mon_lo
    } else {
        mon_lo + ((v - cal_lo) * (mon_hi - mon_lo)) / (cal_hi - cal_lo)
    }
}

/// The screen-space X coordinate the driver reports for a touch position.
pub open spec fn spec_output_x(cfg: Config, pos: Point2D) -> int {
    spec_map_axis(
        cfg.calibration_points.spec_x1(),
        cfg.calibration_points.spec_x2(),
        cfg.monitor_area.spec_x1(),
        cfg.monitor_area.spec_x2(),
        pos.x@,
    )
}

/// The screen-space Y coordinate the driver reports for a touch position.
pub open spec fn spec_output_y(cfg: Config, pos: Point2D) -> int {
    spec_map_axis(
        cfg.calibration_points.spec_y1(),
        cfg.calibration_points.spec_y2(),
        cfg.monitor_area.spec_y1(),
        cfg.monitor_area.spec_y2(),
        pos.y@,
    )
}

/// The tail every batch ends with: the mapped X and Y moves, then the sync
/// marker.
pub open spec fn spec_move_events(pkt: USBPacket, cfg: Config) -> Seq<OutputEvent> {
    seq![
        OutputEvent::MoveX { x: spec_output_x(cfg, pkt.position) as i64 },
        OutputEvent::MoveY { y: spec_output_y(cfg, pkt.position) as i64 },
        OutputEvent::Syn,
    ]
}

/// The whole ordered batch one sample produces: the button events, if any,
/// then the two moves, then the sync marker.
pub open spec fn spec_update_events(
    state: DriverState,
    pkt: USBPacket,
    now: u64,
    cfg: Config,
) -> Seq<OutputEvent> {
    spec_button_events(state, pkt, now, cfg) + spec_move_events(pkt, cfg)
}

/// Accumulates the ordered event batch of one update.
struct EventGen {
    events: Vec<OutputEvent>,
}

impl EventGen {
    fn new() -> (r: Self)
        ensures
            r.events@ == Seq::<OutputEvent>::empty(),
    {
        EventGen { events: Vec::new() }
    }

    fn add_btn_press(&mut self, btn: u16)
        ensures
            final(self).events@ == old(self).events@ + seq![OutputEvent::BtnPress { btn }],
    {
        self.events.push(OutputEvent::BtnPress { btn });
    }

    fn add_btn_release(&mut self, btn: u16)
        ensures
            final(self).events@ == old(self).events@ + seq![OutputEvent::BtnRelease { btn }],
    {
        self.events.push(OutputEvent::BtnRelease { btn });
    }

    /// Maps the touch position through the calibration and monitor
    /// rectangles and appends the two absolute move events.
    fn add_move_position(&mut self, position: Point2D, monitor_cfg: &Config)
        requires
            monitor_cfg.wf(),
            position.bounded(),
        ensures
            final(self).events@ == old(self).events@ + seq![
                OutputEvent::MoveX { x: spec_output_x(*monitor_cfg, position) as i64 },
                OutputEvent::MoveY { y: spec_output_y(*monitor_cfg, position) as i64 },
            ],
    {
        let x_scale = monitor_cfg.calibration_points().xrange().linear_factor(position.x);
        let x_monitor = monitor_cfg.monitor_area.xrange().lerp(x_scale);

        let y_scale = monitor_cfg.calibration_points().yrange().linear_factor(position.y);
        let y_monitor = monitor_cfg.monitor_area.yrange().lerp(y_scale);

        proof {
            let cal = monitor_cfg.calibration_points;
            let mon = monitor_cfg.monitor_area;
            vstd::arithmetic::div_mod::lemma_div_of0(1int);
            if cal.spec_x2() == cal.spec_x1() {
                assert(x_scale.num == 0 && x_scale.den == 1);
                assert(0int * (mon.spec_x2() - mon.spec_x1()) == 0);
            } else {
                assert(x_scale.num as int == position.x@ - cal.spec_x1());
                assert(x_scale.den as int == cal.spec_x2() - cal.spec_x1());
            }
            assert(x_monitor@ == spec_output_x(*monitor_cfg, position));
            if cal.spec_y2() == cal.spec_y1() {
                assert(y_scale.num == 0 && y_scale.den == 1);
                assert(0int * (mon.spec_y2() - mon.spec_y1()) == 0);
            } else {
                assert(y_scale.num as int == position.y@ - cal.spec_y1());
                assert(y_scale.den as int == cal.spec_y2() - cal.spec_y1());
            }
            assert(y_monitor@ == spec_output_y(*monitor_cfg, position));
        }
        self.events.push(OutputEvent::MoveX { x: x_monitor.value() });
        self.events.push(OutputEvent::MoveY { y: y_monitor.value() });
    }

    fn add_syn(&mut self)
        ensures
            final(self).events@ == old(self).events@ + seq![OutputEvent::Syn],
    {
        self.events.push(OutputEvent::Syn);
    }

    fn finish(self) -> (r: Vec<OutputEvent>)
        ensures
            r@ == self.events@ + seq![OutputEvent::Syn],
    {
        let mut gen = self;
        gen.add_syn();
        gen.events
    }
}

/// The driver: its current gesture state plus the mapping configuration used
/// for processing touchscreen packets.
#[derive(Debug, Clone, Copy)]
pub struct Driver {
    pub state: DriverState,
    pub config: Config,
}

impl Driver {
    /// A driver whose configuration is usable and whose remembered touch
    /// origin, if any, is in bounds.  [`Driver::update`] preserves this.
    pub open spec fn wf(self) -> bool {
        self.config.wf() && self.state.wf()
    }

    /// Creates a new driver with the default initial state from a config.
    pub fn new(monitor_cfg: Config) -> (r: Self)
        ensures
            r.config == monitor_cfg,
            r.state == spec_initial_state(),
    {
        Self { state: DriverState::default(), config: monitor_cfg }
    }

    /// Updates the internal state of the driver and returns the events that
    /// should be emitted, in order.
    ///
    /// This is a total function of the state and the sample: it never fails
    /// and never panics for any well-formed configuration and any in-bounds
    /// sample, including a degenerate calibration rectangle of zero width or
    /// height.  Duplicate moves are emitted on every call; filtering them is
    /// the output sink's business.
    pub fn update(&mut self, message: USBMessage) -> (r: Vec<OutputEvent>)
        requires
            old(self).wf(),
            message.packet.position.bounded(),
        ensures
            final(self).config == old(self).config,
            final(self).state == spec_next_state(
                old(self).state,
                message.packet,
                message.time,
                old(self).config,
            ),
            final(self).wf(),
            r@ == spec_update_events(
                old(self).state,
                message.packet,
                message.time,
                old(self).config,
            ),
    {
        let mut events = EventGen::new();
        let packet = *message.packet();

        match (self.state.touch_state(), packet.touch_state()) {
            (DriverTouchState::NotTouching, TouchState::NotTouching) => {
                // No touch previously and now.
            },
            (DriverTouchState::IsTouching { .. }, TouchState::NotTouching) => {
                // The user stopped touching, so we release any pressed
                // buttons and reset the state.
                events.add_btn_release(self.config.ev_left_click());
                if self.state.is_right_click {
                    events.add_btn_release(self.config.ev_right_click());
                }
                self.state = DriverState::default();
            },
            (DriverTouchState::NotTouching, TouchState::IsTouching) => {
                // The user started touching, so we start with a left-click.
                self.state = DriverState {
                    touch_state: DriverTouchState::IsTouching {
                        touch_start_time: message.time(),
                        touch_origin: packet.position(),
                    },
                    is_right_click: false,
                    has_moved: false,
                };
                events.add_btn_press(self.config.ev_left_click());
            },
            (
                DriverTouchState::IsTouching { touch_start_time, touch_origin },
                TouchState::IsTouching,
            ) => {
                // The user continues touching.  During a continued touch we
                // check whether the finger has moved too far, which disables
                // the right-click for this touch; otherwise we emit a
                // right-click once the press has lasted long enough.
                if !self.state.is_right_click && !self.state.has_moved {
                    let distance_sq = touch_origin.euclidean_distance_squared_to(
                        &packet.position(),
                    );
                    let threshold = self.config.has_moved_threshold();
                    proof {
                        assert(0 <= threshold * threshold <= 0x1000_0000_0000_0000)
                            by (nonlinear_arith)
                            requires
                                0 <= threshold <= 0x4000_0000,
                        ;
                    }
                    let threshold_sq = (threshold * threshold) as u64;
                    if distance_sq > threshold_sq {
                        self.state = DriverState {
                            touch_state: self.state.touch_state,
                            is_right_click: self.state.is_right_click,
                            has_moved: true,
                        };
                    } else {
                        let held_long_enough = match touch_start_time.checked_add(
                            self.config.right_click_wait(),
                        ) {
                            Some(deadline) => message.time() > deadline,
                            None => false,
                        };
                        if held_long_enough {
                            self.state = DriverState {
                                touch_state: self.state.touch_state,
                                is_right_click: true,
                                has_moved: self.state.has_moved,
                            };
                            events.add_btn_press(self.config.ev_right_click());
                        }
                    }
                }
            },
        }

        events.add_move_position(packet.position(), &self.config);
        let r = events.finish();
        proof {
            assert(r@ =~= spec_update_events(
                old(self).state,
                message.packet,
                message.time,
                old(self).config,
            ));
        }
        r
    }
}

/// A touch that stays at its starting point and is held past the right-click
/// wait emits the right-button press exactly once, and before any
/// left-button release: the touch-down sample emits only the left press; the
/// first still sample past the wait emits exactly the right press; every
/// further sample of that touch emits no button event at all; and the
/// eventual release emits the two releases, left before right.
pub proof fn lemma_right_click_emitted_once(
    cfg: Config,
    pkt: USBPacket,
    pkt_up: USBPacket,
    t0: u64,
    t1: u64,
    t2: u64,
)
    requires
        cfg.wf(),
        pkt.touch_state == TouchState::IsTouching,
        pkt.position.bounded(),
        pkt_up.touch_state == TouchState::NotTouching,
        spec_hold_elapsed(t0, t1, cfg.right_click_wait_ms),
    ensures
        ({
            let s0 = spec_initial_state();
            let s1 = spec_next_state(s0, pkt, t0, cfg);
            let s2 = spec_next_state(s1, pkt, t1, cfg);
            let s3 = spec_next_state(s2, pkt, t2, cfg);
            &&& spec_button_events(s0, pkt, t0, cfg) == seq![
                OutputEvent::BtnPress { btn: cfg.ev_left_click },
            ]
            &&& spec_button_events(s1, pkt, t1, cfg) == seq![
                OutputEvent::BtnPress { btn: cfg.ev_right_click },
            ]
            &&& s2.is_right_click
            &&& spec_button_events(s2, pkt, t2, cfg) == Seq::<OutputEvent>::empty()
            &&& s3 == s2
            &&& spec_button_events(s2, pkt_up, t2, cfg) == seq![
                OutputEvent::BtnRelease { btn: cfg.ev_left_click },
                OutputEvent::BtnRelease { btn: cfg.ev_right_click },
            ]
        }),
{
    let thr = cfg.has_moved_threshold as int;
    assert(thr * thr >= 0) by (nonlinear_arith)
        requires
            thr >= 0,
    ;
    assert(spec_dist_squared(pkt.position, pkt.position) == 0);
}

/// A sample that drifts past the threshold permanently suppresses the right
/// click for the remainder of that touch: no right press is emitted at the
/// drifting sample, none later even if the finger returns to the origin and
/// stays past the wait, and the eventual release releases only the left
/// button.  The drift check precedes the hold check, so this holds no matter
/// how much time has passed.
pub proof fn lemma_drift_suppresses_right_click(
    cfg: Config,
    pkt_down: USBPacket,
    pkt_far: USBPacket,
    pkt_back: USBPacket,
    pkt_up: USBPacket,
    t0: u64,
    t1: u64,
    t2: u64,
)
    requires
        cfg.wf(),
        pkt_down.touch_state == TouchState::IsTouching,
        pkt_far.touch_state == TouchState::IsTouching,
        pkt_back.touch_state == TouchState::IsTouching,
        pkt_up.touch_state == TouchState::NotTouching,
        pkt_down.position.bounded(),
        pkt_far.position.bounded(),
        pkt_back.position == pkt_down.position,
        spec_moved_beyond(pkt_down.position, pkt_far.position, cfg.has_moved_threshold as int),
    ensures
        ({
            let s0 = spec_initial_state();
            let s1 = spec_next_state(s0, pkt_down, t0, cfg);
            let s2 = spec_next_state(s1, pkt_far, t1, cfg);
            let s3 = spec_next_state(s2, pkt_back, t2, cfg);
            &&& spec_button_events(s1, pkt_far, t1, cfg) == Seq::<OutputEvent>::empty()
            &&& s2.has_moved && !s2.is_right_click
            &&& spec_button_events(s2, pkt_back, t2, cfg) == Seq::<OutputEvent>::empty()
            &&& s3.has_moved && !s3.is_right_click
            &&& spec_button_events(s3, pkt_up, t2, cfg) == seq![
                OutputEvent::BtnRelease { btn: cfg.ev_left_click },
            ]
        }),
{
}

} // verus!
