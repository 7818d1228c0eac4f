//! Axis-tagged scalar values.
//!
//! Screen geometry mixes two kinds of numbers, X coordinates and Y
//! coordinates, that must never be combined by accident.  [`udim`] wraps a
//! plain integer together with a phantom axis marker so that the type system
//! rejects cross-axis arithmetic at compile time.

use core::marker::PhantomData;
use vstd::prelude::*;

verus! {

/// X dimension marker.
#[derive(Debug, Clone, Copy, PartialEq, Eq)]
pub struct X;

/// Y dimension marker.
#[derive(Debug, Clone, Copy, PartialEq, Eq)]
pub struct Y;

/// Marker trait that represents a dimension.
/// Effectively, this declares a new kind with two type constructors.
pub trait Dim: Clone + Copy {}

impl Dim for X {}

impl Dim for Y {}

/// Integer type underlying a screen dimension.
pub type UdimRepr = i64;

/// Every coordinate handled by the driver is expected to stay within this
/// bound.  Device coordinates are at most 14-bit, and screen coordinates are
/// pixel counts, so the bound is generous; it exists so that the intermediate
/// products of the interpolation arithmetic provably fit in 64 bits.
pub const UDIM_BOUND: i64 = 0x4000_0000;

/// Wrapper which uses [`PhantomData`] to statically tell apart numbers of
/// different dimensions.
#[derive(Debug, PartialEq, Eq)]
pub struct udim<D: Dim>(PhantomData<D>, UdimRepr);

impl<D: Dim> Clone for udim<D> {
    fn clone(&self) -> (r: Self)
        ensures
            r == *self,
    {
        udim(PhantomData, self.1)
    }
}

impl<D: Dim> Copy for udim<D> {

}

/// Number in X dimension.
pub type dimX = udim<X>;

/// Number in Y dimension.
pub type dimY = udim<Y>;

impl<D: Dim> View for udim<D> {
    type V = int;

    closed spec fn view(&self) -> int {
        self.1 as int
    }
}

impl<D: Dim> udim<D> {
    /// Whether the value lies within the driver's coordinate bound.
    pub open spec fn bounded(self) -> bool {
        -UDIM_BOUND <= self@ <= UDIM_BOUND
    }

    /// Wraps a dimensionless value.
    pub fn new(v: UdimRepr) -> (r: Self)
        ensures
            r@ == v,
    {
        udim(PhantomData, v)
    }

    /// The underlying dimensionless value.
    pub fn value(self) -> (r: UdimRepr)
        ensures
            r == self@,
    {
        self.1
    }

    /// The underlying dimensionless value as an `i32`.
    pub fn to_i32(self) -> (r: i32)
        requires
            i32::MIN <= self@ <= i32::MAX,
        ensures
            r == self@,
    {
        self.1 as i32
    }

    /// Sum of two values on the same axis.
    pub fn add(self, rhs: Self) -> (r: Self)
        requires
            i64::MIN <= self@ + rhs@ <= i64::MAX,
        ensures
            r@ == self@ + rhs@,
    {
        udim(PhantomData, self.1 + rhs.1)
    }

    /// Difference of two values on the same axis.
    pub fn sub(self, rhs: Self) -> (r: Self)
        requires
            i64::MIN <= self@ - rhs@ <= i64::MAX,
        ensures
            r@ == self@ - rhs@,
    {
        udim(PhantomData, self.1 - rhs.1)
    }

    /// Midpoint of two values on the same axis, rounded towards negative
    /// infinity.
    pub fn average(a: Self, b: Self) -> (r: Self)
        requires
            -0x4000_0000_0000_0000 <= a@ + b@ <= 0x4000_0000_0000_0000,
        ensures
            r@ == (a@ + b@) / 2,
    {
        udim(PhantomData, div_floor(a.1 + b.1, 2))
    }
}

/// Floor division of `p` by a positive divisor `d`, matching mathematical
/// (Euclidean) division.  Rust's `/` on signed integers truncates towards
/// zero instead, so negative numerators are handled through unsigned
/// division.
pub fn div_floor(p: i64, d: i64) -> (r: i64)
    requires
        1 <= d,
        -0x4000_0000_0000_0000 <= p <= 0x4000_0000_0000_0000,
    ensures
        r == p as int / d as int,
        p >= 0 ==> 0 <= r <= p,
        p < 0 ==> p <= r <= 0,
{
    if p >= 0 {
        let q = (p as u64) / (d as u64);
        proof {
            lemma_floor_div_nonneg(p as int, d as int);
        }
        q as i64
    } else {
        let m = (-p) as u64;
        let du = d as u64;
        let q = (m + (du - 1)) / du;
        proof {
            lemma_floor_div_neg(p as int, d as int);
        }
        -(q as i64)
    }
}

/// For a nonnegative numerator, unsigned division agrees with Euclidean
/// division.
proof fn lemma_floor_div_nonneg(p: int, d: int)
    requires
        0 <= p,
        1 <= d,
    ensures
        0 <= p / d <= p,
{
    vstd::arithmetic::div_mod::lemma_div_pos_is_pos(p, d);
    vstd::arithmetic::div_mod::lemma_div_nonincreasing(p, d);
}

/// For a negative numerator and positive divisor, the Euclidean quotient is
/// the negated rounded-up quotient of the magnitudes.
proof fn lemma_floor_div_neg(p: int, d: int)
    requires
        p < 0,
        1 <= d,
    ensures
        p / d == -(((-p) + (d - 1)) / d),
        0 <= ((-p) + (d - 1)) / d <= -p,
{
    let m = -p;
    let k = m / d;
    let s = m % d;
    vstd::arithmetic::div_mod::lemma_fundamental_div_mod(m, d);
    vstd::arithmetic::div_mod::lemma_mod_bound(m, d);
    assert(m == d * k + s);
    assert(0 <= k) by {
        vstd::arithmetic::div_mod::lemma_div_pos_is_pos(m, d);
    }
    // Since d >= 1, the quotient is no larger than the dividend.
    assert(1 * k <= d * k) by {
        vstd::arithmetic::mul::lemma_mul_inequality(1, d, k);
    }
    if s == 0 {
        // m + d - 1 = d * k + (d - 1), so the rounded-up quotient is k,
        // and p = d * (-k) + 0 exactly.
        vstd::arithmetic::div_mod::lemma_fundamental_div_mod_converse(m + d - 1, d, k, d - 1);
        assert(d * (-k) == -(d * k)) by {
            vstd::arithmetic::mul::lemma_mul_unary_negation(d, k);
        }
        vstd::arithmetic::div_mod::lemma_fundamental_div_mod_converse(p, d, -k, 0);
    } else {
        // m + d - 1 = d * (k + 1) + (s - 1), so the rounded-up quotient is
        // k + 1, and p = d * (-(k + 1)) + (d - s) with 0 < d - s < d.
        assert(d * (k + 1) == d * k + d) by {
            vstd::arithmetic::mul::lemma_mul_is_distributive_add(d, k, 1);
        }
        vstd::arithmetic::div_mod::lemma_fundamental_div_mod_converse(m + d - 1, d, k + 1, s - 1);
        assert(d * (-(k + 1)) == -(d * (k + 1))) by {
            vstd::arithmetic::mul::lemma_mul_unary_negation(d, k + 1);
        }
        vstd::arithmetic::div_mod::lemma_fundamental_div_mod_converse(p, d, -(k + 1), d - s);
    }
}

/// A dimension as a run-time value, used to report on which axis a decoding
/// error happened.
#[derive(Debug, Clone, Copy, PartialEq, Eq, Structural)]
pub enum DimE {
    X,
    Y,
}

} // verus!
