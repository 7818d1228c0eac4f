//! Representation of screen geometry.
//!
//! A [`Range`] is an interval on one axis and an [`AABB`] is an axis-aligned
//! rectangle; both normalize their corners at construction so that the
//! minimum never exceeds the maximum.  Interpolation positions inside a
//! [`Range`] are carried by [`Factor`], an exact rational number, so that
//! mapping a coordinate from one range into another performs a single
//! rounded division at the very end.

use vstd::prelude::*;

use crate::units::{dimX, dimY, div_floor, udim, Dim, UDIM_BOUND, X, Y};

verus! {

/// The smaller of two mathematical integers.
pub open spec fn min_int(a: int, b: int) -> int {
    if a <= b {
        a
    } else {
        b
    }
}

/// The larger of two mathematical integers.
pub open spec fn max_int(a: int, b: int) -> int {
    if a <= b {
        b
    } else {
        a
    }
}

/// A point of two coordinates in X and Y dimensions.
#[derive(Debug, Clone, Copy, PartialEq, Eq)]
pub struct Point2D {
    pub x: dimX,
    pub y: dimY,
}

/// The squared Euclidean distance between two points.
pub open spec fn spec_dist_squared(a: Point2D, b: Point2D) -> int {
    (b.x@ - a.x@) * (b.x@ - a.x@) + (b.y@ - a.y@) * (b.y@ - a.y@)
}

impl Point2D {
    /// Whether both coordinates lie within the driver's coordinate bound.
    pub open spec fn bounded(self) -> bool {
        self.x.bounded() && self.y.bounded()
    }

    /// Checks at run time that both coordinates lie within the coordinate
    /// bound, for callers that receive points from unverified sources.
    pub fn is_bounded(&self) -> (r: bool)
        ensures
            r == self.bounded(),
    {
        -UDIM_BOUND <= self.x.value() && self.x.value() <= UDIM_BOUND && -UDIM_BOUND
            <= self.y.value() && self.y.value() <= UDIM_BOUND
    }

    /// Builds a point from its two coordinates.
    pub fn new(x: dimX, y: dimY) -> (r: Self)
        ensures
            r.x == x,
            r.y == y,
    {
        Point2D { x, y }
    }

    /// Computes the square of the Euclidean distance between two points.
    ///
    /// The driver only ever compares distances against a fixed threshold, so
    /// it compares squares and never needs the square root itself.
    pub fn euclidean_distance_squared_to(&self, other: &Self) -> (r: u64)
        requires
            self.bounded(),
            other.bounded(),
        ensures
            r == spec_dist_squared(*self, *other),
    {
        let dx = other.x.value() - self.x.value();
        let dy = other.y.value() - self.y.value();
        proof {
            assert(dx * dx <= 0x4000_0000_0000_0000 && dx * dx >= 0) by (nonlinear_arith)
                requires
                    -0x8000_0000 <= dx <= 0x8000_0000,
            ;
            assert(dy * dy <= 0x4000_0000_0000_0000 && dy * dy >= 0) by (nonlinear_arith)
                requires
                    -0x8000_0000 <= dy <= 0x8000_0000,
            ;
        }
        let dx2 = (dx * dx) as u64;
        let dy2 = (dy * dy) as u64;
        dx2 + dy2
    }

    /// Computes the Manhattan distance between two points.
    pub fn manhattan_distance_to(&self, other: &Self) -> (r: i64)
        requires
            self.bounded(),
            other.bounded(),
        ensures
            r == abs_int(other.x@ - self.x@) + abs_int(other.y@ - self.y@),
    {
        let dx = other.x.value() - self.x.value();
        let dy = other.y.value() - self.y.value();
        let ax = if dx >= 0 {
            dx
        } else {
            -dx
        };
        let ay = if dy >= 0 {
            dy
        } else {
            -dy
        };
        ax + ay
    }
}

/// The absolute value of a mathematical integer.
pub open spec fn abs_int(a: int) -> int {
    if a >= 0 {
        a
    } else {
        -a
    }
}

/// An exact interpolation factor: the rational number `num / den`.
///
/// The wire protocol and the screen work in integers, so a factor is kept as
/// an exact fraction rather than a floating-point number; [`Range::lerp`]
/// performs the one rounding division.
#[derive(Debug, Clone, Copy, PartialEq, Eq)]
pub struct Factor {
    pub num: i64,
    pub den: i64,
}

impl Factor {
    /// A factor the interpolation arithmetic can consume without overflow.
    pub open spec fn wf(self) -> bool {
        &&& 1 <= self.den <= 0x8000_0000
        &&& -0x8000_0000 <= self.num <= 0x8000_0000
    }

    /// Builds the factor `num / den`.
    pub fn new(num: i64, den: i64) -> (r: Self)
        requires
            1 <= den <= 0x8000_0000,
            -0x8000_0000 <= num <= 0x8000_0000,
        ensures
            r == (Factor { num, den }),
            r.wf(),
    {
        Factor { num, den }
    }

    /// The factor zero.
    pub fn zero() -> (r: Self)
        ensures
            r == (Factor { num: 0i64, den: 1i64 }),
            r.wf(),
    {
        Factor { num: 0, den: 1 }
    }

    /// The factor one half.
    pub fn half() -> (r: Self)
        ensures
            r == (Factor { num: 1i64, den: 2i64 }),
            r.wf(),
    {
        Factor { num: 1, den: 2 }
    }
}

/// A range of values between a minimum and maximum.
/// The fields are private to uphold the invariant that `min <= max`.
#[derive(Debug, PartialEq, Eq)]
pub struct Range<D: Dim> {
    min: udim<D>,
    max: udim<D>,
}

impl<D: Dim> Clone for Range<D> {
    fn clone(&self) -> (r: Self)
        ensures
            r == *self,
    {
        *self
    }
}

impl<D: Dim> Copy for Range<D> {

}

/// Linear interpolation of the factor `t` inside `[lo, hi]`, rounded towards
/// negative infinity: the mathematical value `lo + t * (hi - lo)`.
pub open spec fn spec_lerp(lo: int, hi: int, num: int, den: int) -> int {
    lo + (num * (hi - lo)) / den
}

impl<D: Dim> Range<D> {
    /// The invariant every range holds by construction.
    #[verifier::type_invariant]
    pub closed spec fn sorted(self) -> bool {
        self.min@ <= self.max@
    }

    /// The lower endpoint, as a mathematical integer.
    pub closed spec fn spec_min(self) -> int {
        self.min@
    }

    /// The upper endpoint, as a mathematical integer.
    pub closed spec fn spec_max(self) -> int {
        self.max@
    }

    /// Whether both endpoints lie within the driver's coordinate bound.
    pub open spec fn bounded(self) -> bool {
        -UDIM_BOUND <= self.spec_min() <= UDIM_BOUND && -UDIM_BOUND <= self.spec_max()
            <= UDIM_BOUND
    }

    /// Creates a new range between `x1` and `x2`, sorting the two inputs.
    pub fn new(x1: udim<D>, x2: udim<D>) -> (r: Self)
        ensures
            r.spec_min() == min_int(x1@, x2@),
            r.spec_max() == max_int(x1@, x2@),
            r.spec_min() <= r.spec_max(),
    {
        if x1.value() <= x2.value() {
            Range { min: x1, max: x2 }
        } else {
            Range { min: x2, max: x1 }
        }
    }

    /// Returns the minimum value of the range.
    pub fn min(&self) -> (r: udim<D>)
        ensures
            r@ == self.spec_min(),
    {
        proof {
            use_type_invariant(self);
        }
        self.min
    }

    /// Returns the maximum value of the range.
    pub fn max(&self) -> (r: udim<D>)
        ensures
            r@ == self.spec_max(),
    {
        proof {
            use_type_invariant(self);
        }
        self.max
    }

    /// Returns the length of the range.
    pub fn length(&self) -> (r: udim<D>)
        requires
            self.bounded(),
        ensures
            r@ == self.spec_max() - self.spec_min(),
            r@ >= 0,
    {
        proof {
            use_type_invariant(self);
        }
        self.max.sub(self.min)
    }

    /// Restricts a value to the range.
    pub fn clamp(&self, v: udim<D>) -> (r: udim<D>)
        ensures
            r@ == min_int(self.spec_max(), max_int(self.spec_min(), v@)),
    {
        proof {
            use_type_invariant(self);
        }
        if v.value() < self.min.value() {
            self.min
        } else if v.value() > self.max.value() {
            self.max
        } else {
            v
        }
    }

    /// The factor that [`Range::lerp`] maps back to `v`: zero when the range
    /// is degenerate, else the exact fraction `(v - min) / (max - min)`.
    pub open spec fn spec_linear_factor(self, v: int) -> Factor {
        if self.spec_max() == self.spec_min() {
            Factor { num: 0, den: 1 }
        } else {
            Factor { num: (v - self.spec_min()) as i64, den: (self.spec_max() - self.spec_min()) as i64 }
        }
    }

    /// Computes the linear factor of a value inside the range.
    ///
    /// A degenerate range of length zero yields the factor zero; there is no
    /// division by zero and no failure.
    pub fn linear_factor(&self, x: udim<D>) -> (r: Factor)
        requires
            self.bounded(),
            x.bounded(),
        ensures
            r == self.spec_linear_factor(x@),
            r.wf(),
    {
        proof {
            use_type_invariant(self);
        }
        if self.max.value() == self.min.value() {
            Factor::zero()
        } else {
            Factor::new(x.value() - self.min.value(), self.max.value() - self.min.value())
        }
    }

    /// Computes a linear interpolation in the range, rounding towards
    /// negative infinity.
    pub fn lerp(&self, t: Factor) -> (r: udim<D>)
        requires
            self.bounded(),
            t.wf(),
        ensures
            r@ == spec_lerp(self.spec_min(), self.spec_max(), t.num as int, t.den as int),
    {
        proof {
            use_type_invariant(self);
        }
        let len = self.max.value() - self.min.value();
        proof {
            assert(t.num * len <= 0x4000_0000_0000_0000 && t.num * len >= -0x4000_0000_0000_0000)
                by (nonlinear_arith)
                requires
                    -0x8000_0000 <= t.num <= 0x8000_0000,
                    0 <= len <= 0x8000_0000,
            ;
        }
        let q = div_floor(t.num * len, t.den);
        udim::new(self.min.value() + q)
    }

    /// Computes the midpoint of the range, rounding towards negative
    /// infinity.
    pub fn midpoint(&self) -> (r: udim<D>)
        requires
            self.bounded(),
        ensures
            r@ == self.spec_min() + (self.spec_max() - self.spec_min()) / 2,
    {
        let r = self.lerp(Factor::half());
        proof {
            assert(1 * (self.spec_max() - self.spec_min()) == self.spec_max() - self.spec_min());
        }
        r
    }
}

/// An axis-aligned bounding box consisting of an upper-left corner `(x1, y1)`
/// and a lower-right corner `(x2, y2)`.
/// This assumes that x coordinates grow to the right and y coordinates grow
/// downward.  The fields are private to uphold the invariant that
/// `x1 <= x2` and `y1 <= y2`, which every constructor and operation below
/// establishes by sorting the corners.
#[derive(Debug, Clone, Copy, PartialEq, Eq)]
pub struct AABB {
    x1: dimX,
    y1: dimY,
    x2: dimX,
    y2: dimY,
}

impl AABB {
    /// The invariant every box holds by construction: the corners are
    /// normalized on both axes.
    #[verifier::type_invariant]
    pub closed spec fn normalized(self) -> bool {
        self.x1@ <= self.x2@ && self.y1@ <= self.y2@
    }

    /// The left edge, as a mathematical integer.
    pub closed spec fn spec_x1(self) -> int {
        self.x1@
    }

    /// The top edge, as a mathematical integer.
    pub closed spec fn spec_y1(self) -> int {
        self.y1@
    }

    /// The right edge, as a mathematical integer.
    pub closed spec fn spec_x2(self) -> int {
        self.x2@
    }

    /// The bottom edge, as a mathematical integer.
    pub closed spec fn spec_y2(self) -> int {
        self.y2@
    }

    /// Whether all four corners lie within the driver's coordinate bound.
    pub open spec fn bounded(self) -> bool {
        &&& -UDIM_BOUND <= self.spec_x1() <= UDIM_BOUND
        &&& -UDIM_BOUND <= self.spec_y1() <= UDIM_BOUND
        &&& -UDIM_BOUND <= self.spec_x2() <= UDIM_BOUND
        &&& -UDIM_BOUND <= self.spec_y2() <= UDIM_BOUND
    }

    /// Checks at run time that all four corners lie within the coordinate
    /// bound, for callers that receive boxes from unverified sources.
    pub fn is_bounded(&self) -> (r: bool)
        ensures
            r == self.bounded(),
    {
        -UDIM_BOUND <= self.x1.value() && self.x1.value() <= UDIM_BOUND && -UDIM_BOUND
            <= self.y1.value() && self.y1.value() <= UDIM_BOUND && -UDIM_BOUND
            <= self.x2.value() && self.x2.value() <= UDIM_BOUND && -UDIM_BOUND
            <= self.y2.value() && self.y2.value() <= UDIM_BOUND
    }

    /// Creates a new box given the coordinates of two opposite corners, in
    /// any order on each axis.
    pub fn new(x1: dimX, y1: dimY, x2: dimX, y2: dimY) -> (r: Self)
        ensures
            r.spec_x1() == min_int(x1@, x2@),
            r.spec_y1() == min_int(y1@, y2@),
            r.spec_x2() == max_int(x1@, x2@),
            r.spec_y2() == max_int(y1@, y2@),
    {
        let (lx, hx) = if x1.value() <= x2.value() {
            (x1, x2)
        } else {
            (x2, x1)
        };
        let (ly, hy) = if y1.value() <= y2.value() {
            (y1, y2)
        } else {
            (y2, y1)
        };
        AABB { x1: lx, y1: ly, x2: hx, y2: hy }
    }

    /// Creates a new box from the upper-left corner and a width & height.
    pub fn new_wh(x: dimX, y: dimY, width: dimX, height: dimY) -> (r: Self)
        requires
            i64::MIN <= x@ + width@ <= i64::MAX,
            i64::MIN <= y@ + height@ <= i64::MAX,
        ensures
            r.spec_x1() == min_int(x@, x@ + width@),
            r.spec_y1() == min_int(y@, y@ + height@),
            r.spec_x2() == max_int(x@, x@ + width@),
            r.spec_y2() == max_int(y@, y@ + height@),
    {
        AABB::new(x, y, x.add(width), y.add(height))
    }

    /// Combines two boxes by creating the smallest box that contains both.
    pub fn union(self, rhs: Self) -> (r: Self)
        ensures
            r.spec_x1() == min_int(self.spec_x1(), rhs.spec_x1()),
            r.spec_y1() == min_int(self.spec_y1(), rhs.spec_y1()),
            r.spec_x2() == max_int(self.spec_x2(), rhs.spec_x2()),
            r.spec_y2() == max_int(self.spec_y2(), rhs.spec_y2()),
    {
        proof {
            use_type_invariant(&self);
            use_type_invariant(&rhs);
        }
        let x1 = if self.x1.value() <= rhs.x1.value() {
            self.x1
        } else {
            rhs.x1
        };
        let y1 = if self.y1.value() <= rhs.y1.value() {
            self.y1
        } else {
            rhs.y1
        };
        let x2 = if self.x2.value() >= rhs.x2.value() {
            self.x2
        } else {
            rhs.x2
        };
        let y2 = if self.y2.value() >= rhs.y2.value() {
            self.y2
        } else {
            rhs.y2
        };
        AABB { x1, y1, x2, y2 }
    }

    /// Grows the box just enough so that it also contains `point`.
    pub fn grow_to_point(self, point: &Point2D) -> (r: Self)
        ensures
            r.spec_x1() == min_int(self.spec_x1(), point.x@),
            r.spec_y1() == min_int(self.spec_y1(), point.y@),
            r.spec_x2() == max_int(self.spec_x2(), point.x@),
            r.spec_y2() == max_int(self.spec_y2(), point.y@),
    {
        proof {
            use_type_invariant(&self);
        }
        let x1 = if self.x1.value() <= point.x.value() {
            self.x1
        } else {
            point.x
        };
        let y1 = if self.y1.value() <= point.y.value() {
            self.y1
        } else {
            point.y
        };
        let x2 = if self.x2.value() >= point.x.value() {
            self.x2
        } else {
            point.x
        };
        let y2 = if self.y2.value() >= point.y.value() {
            self.y2
        } else {
            point.y
        };
        AABB { x1, y1, x2, y2 }
    }

    /// Shifts the box by `x` horizontally and by `y` vertically.
    pub fn translate(self, x: dimX, y: dimY) -> (r: Self)
        requires
            self.bounded(),
            x.bounded(),
            y.bounded(),
        ensures
            r.spec_x1() == self.spec_x1() + x@,
            r.spec_y1() == self.spec_y1() + y@,
            r.spec_x2() == self.spec_x2() + x@,
            r.spec_y2() == self.spec_y2() + y@,
    {
        proof {
            use_type_invariant(&self);
        }
        AABB { x1: self.x1.add(x), y1: self.y1.add(y), x2: self.x2.add(x), y2: self.y2.add(y) }
    }

    /// Returns the box's range in the X dimension.
    pub fn xrange(&self) -> (r: Range<X>)
        ensures
            r.spec_min() == self.spec_x1(),
            r.spec_max() == self.spec_x2(),
    {
        proof {
            use_type_invariant(self);
        }
        Range::new(self.x1, self.x2)
    }

    /// Returns the box's range in the Y dimension.
    pub fn yrange(&self) -> (r: Range<Y>)
        ensures
            r.spec_min() == self.spec_y1(),
            r.spec_max() == self.spec_y2(),
    {
        proof {
            use_type_invariant(self);
        }
        Range::new(self.y1, self.y2)
    }

    /// Restricts a point to the box.
    pub fn clamp(&self, p: Point2D) -> (r: Point2D)
        ensures
            r.x@ == min_int(self.spec_x2(), max_int(self.spec_x1(), p.x@)),
            r.y@ == min_int(self.spec_y2(), max_int(self.spec_y1(), p.y@)),
    {
        Point2D { x: self.xrange().clamp(p.x), y: self.yrange().clamp(p.y) }
    }

    /// Returns the box's width.
    pub fn width(&self) -> (r: dimX)
        requires
            self.bounded(),
        ensures
            r@ == self.spec_x2() - self.spec_x1(),
            r@ >= 0,
    {
        self.xrange().length()
    }

    /// Returns the box's height.
    pub fn height(&self) -> (r: dimY)
        requires
            self.bounded(),
        ensures
            r@ == self.spec_y2() - self.spec_y1(),
            r@ >= 0,
    {
        self.yrange().length()
    }

    /// Returns the box's midpoint, each coordinate rounded towards negative
    /// infinity.
    pub fn midpoint(&self) -> (r: Point2D)
        requires
            self.bounded(),
        ensures
            r.x@ == self.spec_x1() + (self.spec_x2() - self.spec_x1()) / 2,
            r.y@ == self.spec_y1() + (self.spec_y2() - self.spec_y1()) / 2,
    {
        Point2D { x: self.xrange().midpoint(), y: self.yrange().midpoint() }
    }
}

impl Default for AABB {
    /// The box whose four corners all sit at the origin.
    fn default() -> (r: Self)
        ensures
            r.spec_x1() == 0 && r.spec_y1() == 0 && r.spec_x2() == 0 && r.spec_y2() == 0,
    {
        AABB { x1: udim::new(0), y1: udim::new(0), x2: udim::new(0), y2: udim::new(0) }
    }
}

/// Interpolating the factor of a value inside a range returns that value
/// exactly: `lerp(linear_factor(v)) == v`, with no rounding error at all,
/// including for a degenerate range, where both sides equal the single
/// endpoint.
pub proof fn lemma_lerp_linear_factor_exact<D: Dim>(r: Range<D>, v: int)
    requires
        r.bounded(),
        r.spec_min() <= v <= r.spec_max(),
    ensures
        ({
            let t = r.spec_linear_factor(v);
            spec_lerp(r.spec_min(), r.spec_max(), t.num as int, t.den as int) == v
        }),
{
    let lo = r.spec_min();
    let hi = r.spec_max();
    if hi == lo {
        assert(v == lo);
        vstd::arithmetic::div_mod::lemma_div_of0(1);
    } else {
        let t = r.spec_linear_factor(v);
        let b = v - lo;
        let d = hi - lo;
        assert(t.num == b && t.den == d);
        assert((b * d) / d == b) by {
            vstd::arithmetic::div_mod::lemma_div_by_multiple(b, d);
        }
    }
}

} // verus!
