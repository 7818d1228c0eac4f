//! The calibration-point solver.
//!
//! The operator touches four on-screen targets placed at the screen
//! fractions `(o, o)`, `(o, 1-o)`, `(1-o, o)` and `(1-o, 1-o)` for the fixed
//! offset `o = 3/20`, in that order (top-left, bottom-left, top-right,
//! bottom-right).  While the finger is down, every decoded position is
//! collected into a [`TouchCloud`]; on release the stage's representative
//! coordinate is the midpoint of the smallest box containing the cloud, and
//! the stage advances.  The fourth capture solves for the calibration
//! rectangle: the box whose linear interpolation hits the captured averages
//! at the fractions `o` and `1 - o`.

use vstd::prelude::*;

use crate::geo::{max_int, min_int, Point2D, AABB};
use crate::protocol::{TouchState, USBPacket};
use crate::units::{div_floor, udim, Dim, UDIM_BOUND};

verus! {

/// Numerator of the screen fraction at which the calibration targets sit.
pub const CAL_OFFSET_NUM: i64 = 3;

/// Denominator of the screen fraction at which the calibration targets sit.
///
/// The fraction `3/20` (0.15) is a fixed design constant.  The solver divides
/// by `CAL_OFFSET_DEN - 2 * CAL_OFFSET_NUM`; a fraction of one half would
/// make that zero and is therefore forbidden at the constant level, not
/// checked at run time.
pub const CAL_OFFSET_DEN: i64 = 20;

/// `CAL_OFFSET_DEN - CAL_OFFSET_NUM`: the numerator weight of the near
/// average in the solve step.
pub const CAL_SOLVE_NUM: i64 = CAL_OFFSET_DEN - CAL_OFFSET_NUM;

/// `CAL_OFFSET_DEN - 2 * CAL_OFFSET_NUM`: the solve step's denominator,
/// positive because the offset is below one half.
pub const CAL_SOLVE_DEN: i64 = CAL_OFFSET_DEN - 2 * CAL_OFFSET_NUM;

/// The midpoint of two device coordinates, rounded towards negative
/// infinity.
pub open spec fn spec_average(a: int, b: int) -> int {
    (a + b) / 2
}

/// The minimum of the solved calibration range on one axis, given the
/// averaged near-column value `t0` (captured at fraction `o`) and far-column
/// value `t1` (captured at fraction `1 - o`).
///
/// The desired range satisfies `lerp(o) == t0` and `lerp(1 - o) == t1` where
/// `lerp(t) = (1 - t) * min + t * max`; solving the two equations gives
/// `min = (t0 * (1 - o) - t1 * o) / (1 - 2 o)`, which for `o = 3/20` is
/// `(17 t0 - 3 t1) / 14`.
pub open spec fn spec_cal_min(t0: int, t1: int) -> int {
    (17 * t0 - 3 * t1) / 14
}

/// The maximum of the solved calibration range on one axis: the two lerp
/// equations sum to `min + max == t0 + t1`.
pub open spec fn spec_cal_max(t0: int, t1: int) -> int {
    t0 + t1 - spec_cal_min(t0, t1)
}

/// The corners `(xmin, ymin, xmax, ymax)`, before normalization, solved from
/// the four captured coordinates: `c0` top-left, `c1` bottom-left, `c2`
/// top-right, and `(c3x, c3y)` bottom-right.  Columns are averaged for the X
/// solve and rows for the Y solve.
pub open spec fn spec_solved_corners(c0: Point2D, c1: Point2D, c2: Point2D, c3x: int, c3y: int) -> (
    int,
    int,
    int,
    int,
) {
    let x0 = spec_average(c0.x@, c1.x@);
    let x1 = spec_average(c2.x@, c3x);
    let y0 = spec_average(c0.y@, c2.y@);
    let y1 = spec_average(c1.y@, c3y);
    (spec_cal_min(x0, x1), spec_cal_min(y0, y1), spec_cal_max(x0, x1), spec_cal_max(y0, y1))
}

/// Solves one axis of the calibration range for its minimum; see
/// [`spec_cal_min`].
fn cal_min<D: Dim>(t0: udim<D>, t1: udim<D>) -> (r: udim<D>)
    requires
        t0.bounded(),
        t1.bounded(),
    ensures
        r@ == spec_cal_min(t0@, t1@),
{
    udim::new(div_floor(CAL_SOLVE_NUM * t0.value() - CAL_OFFSET_NUM * t1.value(), CAL_SOLVE_DEN))
}

/// Solves one axis of the calibration range for its maximum; see
/// [`spec_cal_max`].
fn cal_max<D: Dim>(t0: udim<D>, t1: udim<D>, min: udim<D>) -> (r: udim<D>)
    requires
        t0.bounded(),
        t1.bounded(),
        -0x2_0000_0000 <= min@ <= 0x2_0000_0000,
    ensures
        r@ == t0@ + t1@ - min@,
{
    t0.add(t1).sub(min)
}

/// A collection of touch coordinates that belong to a single calibration
/// point.  The final touch coordinate of that calibration point is computed
/// as the midpoint of the smallest box that contains the whole collection.
#[derive(Debug, Clone, PartialEq, Eq)]
pub struct TouchCloud {
    pub v: Vec<Point2D>,
}

/// The corners `(xmin, ymin, xmax, ymax)` of the smallest box containing
/// every point of a nonempty cloud, folded in order from the first point.
pub open spec fn spec_cloud_bounds(s: Seq<Point2D>) -> (int, int, int, int)
    recommends
        s.len() >= 1,
    decreases s.len(),
{
    if s.len() <= 1 {
        (s[0].x@, s[0].y@, s[0].x@, s[0].y@)
    } else {
        let prev = spec_cloud_bounds(s.drop_last());
        let p = s.last();
        (
            min_int(prev.0, p.x@),
            min_int(prev.1, p.y@),
            max_int(prev.2, p.x@),
            max_int(prev.3, p.y@),
        )
    }
}

/// The bounds of a cloud of in-bounds points are themselves in bounds, and
/// ordered on each axis.
pub proof fn lemma_cloud_bounds_bounded(s: Seq<Point2D>)
    requires
        s.len() >= 1,
        forall|i: int| 0 <= i < s.len() ==> (#[trigger] s[i]).bounded(),
    ensures
        ({
            let b = spec_cloud_bounds(s);
            &&& -UDIM_BOUND <= b.0 <= b.2 <= UDIM_BOUND
            &&& -UDIM_BOUND <= b.1 <= b.3 <= UDIM_BOUND
        }),
    decreases s.len(),
{
    if s.len() > 1 {
        lemma_cloud_bounds_bounded(s.drop_last());
    }
}

impl TouchCloud {
    /// Every collected point is within the coordinate bound.
    pub open spec fn wf(self) -> bool {
        forall|i: int| 0 <= i < self.v@.len() ==> (#[trigger] self.v@[i]).bounded()
    }

    /// Computes the smallest bounding box that contains all points and then
    /// returns its midpoint.
    pub fn compute_touch_coord(&self) -> (r: Point2D)
        requires
            self.wf(),
            self.v@.len() >= 1,
        ensures
            ({
                let b = spec_cloud_bounds(self.v@);
                &&& r.x@ == b.0 + (b.2 - b.0) / 2
                &&& r.y@ == b.1 + (b.3 - b.1) / 2
            }),
            r.bounded(),
    {
        let first = self.v[0];
        let mut abox = AABB::new(first.x, first.y, first.x, first.y);
        let mut i: usize = 1;
        while i < self.v.len()
            invariant
                self.wf(),
                1 <= i <= self.v@.len(),
                ({
                    let b = spec_cloud_bounds(self.v@.take(i as int));
                    abox.spec_x1() == b.0 && abox.spec_y1() == b.1 && abox.spec_x2() == b.2
                        && abox.spec_y2() == b.3
                }),
            decreases self.v@.len() - i,
        {
            abox = abox.grow_to_point(&self.v[i]);
            i = i + 1;
            proof {
                assert(self.v@.take(i as int).drop_last() =~= self.v@.take(i - 1));
                assert(self.v@.take(i as int).last() == self.v@[i - 1]);
            }
        }
        proof {
            assert(self.v@.take(self.v@.len() as int) =~= self.v@);
            lemma_cloud_bounds_bounded(self.v@);
            let b = spec_cloud_bounds(self.v@);
            vstd::arithmetic::div_mod::lemma_div_pos_is_pos(b.2 - b.0, 2);
            vstd::arithmetic::div_mod::lemma_div_nonincreasing(b.2 - b.0, 2);
            vstd::arithmetic::div_mod::lemma_div_pos_is_pos(b.3 - b.1, 2);
            vstd::arithmetic::div_mod::lemma_div_nonincreasing(b.3 - b.1, 2);
        }
        abox.midpoint()
    }

    /// Collects one decoded position.
    pub fn push(&mut self, p: Point2D)
        ensures
            final(self).v@ == old(self).v@.push(p),
    {
        self.v.push(p);
    }
}

/// A stage in the guided sequence: how many of the four target coordinates
/// have been captured so far, and their values.  The progression is linear;
/// there are no back-transitions.
#[derive(Debug, Clone, Copy, PartialEq, Eq)]
pub enum Stage {
    Stage0,
    Stage1 { c0: Point2D },
    Stage2 { c0: Point2D, c1: Point2D },
    Stage3 { c0: Point2D, c1: Point2D, c2: Point2D },
}

impl Stage {
    /// How many coordinates the stage has captured.
    pub open spec fn spec_num(self) -> int {
        match self {
            Stage::Stage0 => 0,
            Stage::Stage1 { .. } => 1,
            Stage::Stage2 { .. } => 2,
            Stage::Stage3 { .. } => 3,
        }
    }

    /// How many coordinates the stage has captured.
    pub fn num(&self) -> (r: usize)
        ensures
            r == self.spec_num(),
    {
        match self {
            Stage::Stage0 => 0,
            Stage::Stage1 { .. } => 1,
            Stage::Stage2 { .. } => 2,
            Stage::Stage3 { .. } => 3,
        }
    }

    /// Every captured coordinate is within the coordinate bound.
    pub open spec fn wf(self) -> bool {
        match self {
            Stage::Stage0 => true,
            Stage::Stage1 { c0 } => c0.bounded(),
            Stage::Stage2 { c0, c1 } => c0.bounded() && c1.bounded(),
            Stage::Stage3 { c0, c1, c2 } => c0.bounded() && c1.bounded() && c2.bounded(),
        }
    }
}

/// The state while the wizard is collecting samples for one target.
#[derive(Debug, Clone, PartialEq, Eq)]
pub struct OngoingState {
    pub stage: Stage,
    pub touch_cloud: TouchCloud,
    pub touch_state: TouchState,
}

/// A stage in the calibration process.
#[derive(Debug, Clone, PartialEq, Eq)]
pub enum CalibrationState {
    Ongoing(OngoingState),
    Finished {
        /// The solved calibration rectangle, to be fed back into the mapping
        /// configuration.
        calibration_points: AABB,
    },
}

/// What advancing from `stage` with the captured coordinate `(cx, cy)`
/// yields: the first three stages store the coordinate and start collecting
/// afresh; the fourth solves the calibration rectangle, whose corners are
/// the solved values normalized on each axis.
pub open spec fn spec_is_advance(stage: Stage, cx: int, cy: int, r: CalibrationState) -> bool {
    match stage {
        Stage::Stage0 => {
            &&& r matches CalibrationState::Ongoing(o)
            &&& o.stage matches Stage::Stage1 { c0 } && c0.x@ == cx && c0.y@ == cy
            &&& o.touch_cloud.v@ == Seq::<Point2D>::empty()
            &&& o.touch_state == TouchState::NotTouching
        },
        Stage::Stage1 { c0 } => {
            &&& r matches CalibrationState::Ongoing(o)
            &&& o.stage matches Stage::Stage2 { c0: d0, c1 } && d0 == c0 && c1.x@ == cx
                && c1.y@ == cy
            &&& o.touch_cloud.v@ == Seq::<Point2D>::empty()
            &&& o.touch_state == TouchState::NotTouching
        },
        Stage::Stage2 { c0, c1 } => {
            &&& r matches CalibrationState::Ongoing(o)
            &&& o.stage matches Stage::Stage3 { c0: d0, c1: d1, c2 } && d0 == c0 && d1 == c1
                && c2.x@ == cx && c2.y@ == cy
            &&& o.touch_cloud.v@ == Seq::<Point2D>::empty()
            &&& o.touch_state == TouchState::NotTouching
        },
        Stage::Stage3 { c0, c1, c2 } => {
            &&& r matches CalibrationState::Finished { calibration_points }
            &&& ({
                let sc = spec_solved_corners(c0, c1, c2, cx, cy);
                &&& calibration_points.spec_x1() == min_int(sc.0, sc.2)
                &&& calibration_points.spec_y1() == min_int(sc.1, sc.3)
                &&& calibration_points.spec_x2() == max_int(sc.0, sc.2)
                &&& calibration_points.spec_y2() == max_int(sc.1, sc.3)
            })
        },
    }
}

impl OngoingState {
    /// The stage's coordinates and the collected cloud are within the
    /// coordinate bound.
    pub open spec fn wf(self) -> bool {
        self.stage.wf() && self.touch_cloud.wf()
    }

    /// Starts collecting samples for the next target of `stage`.
    pub fn new(stage: Stage) -> (r: Self)
        ensures
            r.stage == stage,
            r.touch_cloud.v@ == Seq::<Point2D>::empty(),
            r.touch_state == TouchState::NotTouching,
    {
        Self { stage, touch_cloud: TouchCloud { v: Vec::new() }, touch_state: TouchState::NotTouching }
    }

    /// Stores the captured coordinate `c` and goes to the next stage.
    /// The first three stages just collect coordinates; with the fourth the
    /// calibration rectangle is solved and the state switches to
    /// [`CalibrationState::Finished`].
    pub fn advance(&self, c: Point2D) -> (r: CalibrationState)
        requires
            self.stage.wf(),
            c.bounded(),
        ensures
            spec_is_advance(self.stage, c.x@, c.y@, r),
            r.wf(),
    {
        match self.stage {
            Stage::Stage0 => CalibrationState::Ongoing(
                OngoingState::new(Stage::Stage1 { c0: c }),
            ),
            Stage::Stage1 { c0 } => CalibrationState::Ongoing(
                OngoingState::new(Stage::Stage2 { c0, c1: c }),
            ),
            Stage::Stage2 { c0, c1 } => CalibrationState::Ongoing(
                OngoingState::new(Stage::Stage3 { c0, c1, c2: c }),
            ),
            Stage::Stage3 { c0, c1, c2 } => {
                // The four captured coordinates are arranged like this on the
                // monitor:
                //   c0   c2
                //   c1   c
                // The left and right columns are averaged for the X solve,
                // the top and bottom rows for the Y solve.
                let x0 = udim::average(c0.x, c1.x);
                let x1 = udim::average(c2.x, c.x);
                let y0 = udim::average(c0.y, c2.y);
                let y1 = udim::average(c1.y, c.y);

                let xmin = cal_min(x0, x1);
                let xmax = cal_max(x0, x1, xmin);
                let ymin = cal_min(y0, y1);
                let ymax = cal_max(y0, y1, ymin);

                let calibration_points = AABB::new(xmin, ymin, xmax, ymax);
                CalibrationState::Finished { calibration_points }
            },
        }
    }

    /// Collects one decoded sample.  Every position is added to the cloud;
    /// when the finger lifts (the remembered touch state was touching and
    /// the sample is not), the cloud's representative coordinate is computed
    /// and the stage advances, which yields the successor state.
    ///
    /// The lifting sample's own position is collected before the release
    /// check, and a release edge presupposes an earlier touching sample in
    /// this stage, so the cloud is never empty when the coordinate is
    /// computed: the open case of a release over an empty cloud cannot
    /// arise here by construction.
    pub fn calibrate_with_packet(&mut self, packet: &USBPacket) -> (r: Option<CalibrationState>)
        requires
            old(self).wf(),
            packet.position.bounded(),
        ensures
            final(self).wf(),
            final(self).stage == old(self).stage,
            final(self).touch_cloud.v@ == old(self).touch_cloud.v@.push(packet.position),
            final(self).touch_state == packet.touch_state,
            ({
                let released = old(self).touch_state == TouchState::IsTouching
                    && packet.touch_state == TouchState::NotTouching;
                let b = spec_cloud_bounds(old(self).touch_cloud.v@.push(packet.position));
                match r {
                    Some(s) => released && s.wf() && spec_is_advance(
                        old(self).stage,
                        b.0 + (b.2 - b.0) / 2,
                        b.1 + (b.3 - b.1) / 2,
                        s,
                    ),
                    None => !released,
                }
            }),
    {
        let p = packet.position();
        self.touch_cloud.push(p);

        // When the finger is lifted, we take all the collected points and
        // advance to the next stage with their representative coordinate.
        let result = match (self.touch_state, packet.touch_state()) {
            (TouchState::IsTouching, TouchState::NotTouching) => {
                let coord = self.touch_cloud.compute_touch_coord();
                Some(self.advance(coord))
            },
            _ => None,
        };
        self.touch_state = packet.touch_state();
        result
    }
}

impl CalibrationState {
    /// Whatever the state holds is within the coordinate bound.
    pub open spec fn wf(self) -> bool {
        match self {
            CalibrationState::Ongoing(o) => o.wf(),
            CalibrationState::Finished { .. } => true,
        }
    }

    /// The state the wizard starts in: no coordinate captured, nothing
    /// collected.
    pub fn start() -> (r: Self)
        ensures
            r matches CalibrationState::Ongoing(o) && o.stage == Stage::Stage0
                && o.touch_cloud.v@ == Seq::<Point2D>::empty() && o.touch_state
                == TouchState::NotTouching,
            r.wf(),
    {
        Self::Ongoing(OngoingState::new(Stage::Stage0))
    }

    /// Feeds one decoded sample to the wizard.  While the calibration is
    /// ongoing the sample is collected, and a release advances the stage;
    /// once finished, further samples change nothing.
    pub fn process_packet(&mut self, packet: &USBPacket)
        requires
            old(self).wf(),
            packet.position.bounded(),
        ensures
            final(self).wf(),
            match *old(self) {
                CalibrationState::Finished { .. } => *final(self) == *old(self),
                CalibrationState::Ongoing(o) => ({
                    let released = o.touch_state == TouchState::IsTouching
                        && packet.touch_state == TouchState::NotTouching;
                    let b = spec_cloud_bounds(o.touch_cloud.v@.push(packet.position));
                    if released {
                        spec_is_advance(
                            o.stage,
                            b.0 + (b.2 - b.0) / 2,
                            b.1 + (b.3 - b.1) / 2,
                            *final(self),
                        )
                    } else {
                        *final(self) matches CalibrationState::Ongoing(o2) && o2.stage == o.stage
                            && o2.touch_cloud.v@ == o.touch_cloud.v@.push(packet.position)
                            && o2.touch_state == packet.touch_state
                    }
                }),
            },
    {
        let new_state = match self {
            CalibrationState::Ongoing(ongoing_state) => ongoing_state.calibrate_with_packet(
                packet,
            ),
            CalibrationState::Finished { .. } => None,
        };
        if let Some(s) = new_state {
            *self = s;
        }
    }
}

/// Calibration solve round trip: captured coordinates consistent with a
/// known range recover that range exactly.  If the target range `[lo, hi]`
/// has a length divisible by the offset denominator, so that the averaged
/// captures `t0 == lerp(3/20)` and `t1 == lerp(17/20)` involve no rounding,
/// then the solved range is exactly `[lo, hi]`, already normalized.  (For
/// other lengths the captures themselves round, and the solved corners can
/// be off by that rounding.)
pub proof fn lemma_solve_round_trip(lo: int, hi: int)
    requires
        lo <= hi,
        (hi - lo) % 20 == 0,
    ensures
        ({
            let d = hi - lo;
            let t0 = lo + (3 * d) / 20;
            let t1 = lo + (17 * d) / 20;
            &&& spec_cal_min(t0, t1) == lo
            &&& spec_cal_max(t0, t1) == hi
        }),
{
    let d = hi - lo;
    let k = d / 20;
    vstd::arithmetic::div_mod::lemma_fundamental_div_mod(d, 20);
    assert(d == 20 * k);
    assert(3 * d == 20 * (3 * k)) by (nonlinear_arith)
        requires
            d == 20 * k,
    ;
    assert((3 * d) / 20 == 3 * k) by {
        vstd::arithmetic::div_mod::lemma_div_multiples_vanish(3 * k, 20);
    }
    assert(17 * d == 20 * (17 * k)) by (nonlinear_arith)
        requires
            d == 20 * k,
    ;
    assert((17 * d) / 20 == 17 * k) by {
        vstd::arithmetic::div_mod::lemma_div_multiples_vanish(17 * k, 20);
    }
    let t0 = lo + 3 * k;
    let t1 = lo + 17 * k;
    assert(17 * t0 - 3 * t1 == 14 * lo) by (nonlinear_arith)
        requires
            t0 == lo + 3 * k,
            t1 == lo + 17 * k,
    ;
    assert((14 * lo) / 14 == lo) by {
        vstd::arithmetic::div_mod::lemma_div_multiples_vanish(lo, 14);
    }
    assert(t0 + t1 - lo == hi);
}

} // verus!
