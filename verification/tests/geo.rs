//! Tests for the geometry primitives.

use egalax_rs::geo::{Factor, Point2D, Range, AABB};
use egalax_rs::units::{dimX, dimY, div_floor, udim, X};

fn point(x: i64, y: i64) -> Point2D {
    Point2D::new(udim::new(x), udim::new(y))
}

fn xr(a: i64, b: i64) -> Range<X> {
    Range::new(udim::new(a), udim::new(b))
}

fn aabb(x1: i64, y1: i64, x2: i64, y2: i64) -> AABB {
    AABB::new(
        udim::new(x1),
        udim::new(y1),
        udim::new(x2),
        udim::new(y2),
    )
}

#[test]
fn udim_arithmetic() {
    let a: dimX = udim::new(40);
    let b: dimX = udim::new(-15);
    assert_eq!(a.add(b).value(), 25);
    assert_eq!(a.sub(b).value(), 55);
    assert_eq!(udim::average(a, b).value(), 12); // floor(12.5)
    assert_eq!(a.to_i32(), 40);
    let c: dimY = udim::new(7);
    assert_eq!(c.value(), 7);
}

#[test]
fn div_floor_rounds_towards_negative_infinity() {
    assert_eq!(div_floor(7, 2), 3);
    assert_eq!(div_floor(-7, 2), -4);
    assert_eq!(div_floor(-8, 2), -4);
    assert_eq!(div_floor(0, 5), 0);
    assert_eq!(div_floor(-1, 14), -1);
}

#[test]
fn range_sorts_its_inputs() {
    let r = xr(120, -5);
    assert_eq!(r.min().value(), -5);
    assert_eq!(r.max().value(), 120);
    assert_eq!(r.length().value(), 125);
}

#[test]
fn range_clamp() {
    let r = xr(10, 20);
    assert_eq!(r.clamp(udim::new(5)).value(), 10);
    assert_eq!(r.clamp(udim::new(15)).value(), 15);
    assert_eq!(r.clamp(udim::new(25)).value(), 20);
}

#[test]
fn linear_factor_and_lerp_round_trip() {
    let r = xr(0, 100);
    let t = r.linear_factor(udim::new(25));
    assert_eq!(t, Factor { num: 25, den: 100 });
    assert_eq!(r.lerp(t).value(), 25);

    // Every value inside the range comes back exactly.
    let r2 = xr(300, 3800);
    for v in [300i64, 301, 1000, 2050, 3799, 3800] {
        let t = r2.linear_factor(udim::new(v));
        assert_eq!(r2.lerp(t).value(), v);
    }
}

#[test]
fn linear_factor_of_degenerate_range_is_zero() {
    let r = xr(5, 5);
    let t = r.linear_factor(udim::new(1234));
    assert_eq!(t, Factor { num: 0, den: 1 });
    assert_eq!(r.lerp(t).value(), 5);
}

#[test]
fn range_midpoint() {
    assert_eq!(xr(10, 20).midpoint().value(), 15);
    assert_eq!(xr(10, 21).midpoint().value(), 15); // floor(15.5)
    assert_eq!(xr(-10, -21).midpoint().value(), -16); // floor(-15.5)
}

#[test]
fn aabb_normalizes_corners() {
    // Corners arrive in the wrong order on both axes and are sorted.
    let b = aabb(100, 200, -10, -20);
    assert_eq!(b.xrange().min().value(), -10);
    assert_eq!(b.xrange().max().value(), 100);
    assert_eq!(b.yrange().min().value(), -20);
    assert_eq!(b.yrange().max().value(), 200);
    assert_eq!(b.width().value(), 110);
    assert_eq!(b.height().value(), 220);
}

#[test]
fn aabb_union_and_grow() {
    let a = aabb(0, 0, 10, 10);
    let b = aabb(5, -5, 20, 8);
    let u = a.union(b);
    assert_eq!(u, aabb(0, -5, 20, 10));

    let g = a.grow_to_point(&point(15, -3));
    assert_eq!(g, aabb(0, -3, 15, 10));
    // A point already inside changes nothing.
    assert_eq!(a.grow_to_point(&point(5, 5)), a);
}

#[test]
fn aabb_translate_and_midpoint_and_clamp() {
    let a = aabb(0, 0, 10, 20);
    let t = a.translate(udim::new(3), udim::new(-4));
    assert_eq!(t, aabb(3, -4, 13, 16));
    assert_eq!(a.midpoint(), point(5, 10));
    assert_eq!(a.clamp(point(-5, 25)), point(0, 20));
    assert_eq!(a.clamp(point(4, 4)), point(4, 4));
    assert_eq!(AABB::default(), aabb(0, 0, 0, 0));
    assert!(a.is_bounded());
}

#[test]
fn aabb_new_wh() {
    let b = AABB::new_wh(udim::new(10), udim::new(20), udim::new(30), udim::new(40));
    assert_eq!(b, aabb(10, 20, 40, 60));
    // A negative width still yields normalized corners.
    let n = AABB::new_wh(udim::new(10), udim::new(20), udim::new(-5), udim::new(5));
    assert_eq!(n, aabb(5, 20, 10, 25));
}

#[test]
fn point_distances() {
    let a = point(0, 0);
    let b = point(3, 4);
    assert_eq!(a.euclidean_distance_squared_to(&b), 25);
    assert_eq!(b.euclidean_distance_squared_to(&a), 25);
    assert_eq!(a.manhattan_distance_to(&b), 7);
    let c = point(-3, -4);
    assert_eq!(a.euclidean_distance_squared_to(&c), 25);
    assert_eq!(a.manhattan_distance_to(&c), 7);
    assert!(b.is_bounded());
}
