//! Grid snapping: rounding a coordinate up to the nearest multiple of the
//! snap granularity.

use vstd::prelude::*;
use vstd::arithmetic::div_mod::{
    lemma_fundamental_div_mod, lemma_fundamental_div_mod_converse_mod,
    lemma_fundamental_div_mod_converse_div, lemma_mod_division_less_than_divisor,
};
use crate::geom::Point;

verus! {

/// The smallest multiple of `g` that is at least `v` (`%` is Euclidean).
pub open spec fn snap_up_spec(v: int, g: int) -> int
    recommends
        g >= 1,
{
    if v % g == 0 {
        v
    } else {
        v + g - v % g
    }
}

/// The snapped value is `ceil(v/g)*g`, is a multiple of `g`, and lies in
/// `[v, v + g)`.
pub proof fn lemma_snap_up_spec(v: int, g: int)
    requires
        g >= 1,
    ensures
        snap_up_spec(v, g) % g == 0,
        v <= snap_up_spec(v, g) < v + g,
        snap_up_spec(v, g) == ((v + g - 1) / g) * g,
{
    lemma_fundamental_div_mod(v, g);
    lemma_mod_division_less_than_divisor(v, g);
    let q = v / g;
    let m = v % g;
    let r = snap_up_spec(v, g);
    if m == 0 {
        assert(v + g - 1 == q * g + (g - 1) && v == q * g) by (nonlinear_arith)
            requires
                v == g * q + m,
                m == 0,
        {}
        lemma_fundamental_div_mod_converse_div(v + g - 1, g, q, g - 1);
        lemma_fundamental_div_mod_converse_mod(v, g, q, 0);
    } else {
        assert(v + g - 1 == (q + 1) * g + (m - 1) && r == (q + 1) * g) by (nonlinear_arith)
            requires
                v == g * q + m,
                r == v + g - m,
        {}
        lemma_fundamental_div_mod_converse_div(v + g - 1, g, q + 1, m - 1);
        lemma_fundamental_div_mod_converse_mod(r, g, q + 1, 0);
    }
}

/// Rounds `v` up to the nearest multiple of the granularity `g`.
pub fn snap_up(v: i64, g: i64) -> (r: i64)
    requires
        1 <= g,
        i64::MIN + g <= v,
        v <= i64::MAX - g,
    ensures
        r == snap_up_spec(v as int, g as int),
{
    proof {
        lemma_fundamental_div_mod(v as int, g as int);
        lemma_mod_division_less_than_divisor(v as int, g as int);
    }
    if v >= 0 {
        let rem = v % g;
        if rem == 0 {
            v
        } else {
            v - rem + g
        }
    } else {
        let m = -v;
        let rem = m % g;
        proof {
            lemma_fundamental_div_mod(m as int, g as int);
            lemma_mod_division_less_than_divisor(m as int, g as int);
            let q = m as int / g as int;
            if rem != 0 {
                assert(v as int == (-q - 1) * (g as int) + (g as int - rem as int))
                    by (nonlinear_arith)
                    requires
                        m as int == (g as int) * q + (rem as int),
                        v as int == -(m as int),
                {}
                lemma_fundamental_div_mod_converse_mod(
                    v as int, g as int, -q - 1, g as int - rem as int);
            } else {
                assert(v as int == (-q) * (g as int) + 0) by (nonlinear_arith)
                    requires
                        m as int == (g as int) * q + (rem as int),
                        rem as int == 0,
                        v as int == -(m as int),
                {}
                lemma_fundamental_div_mod_converse_mod(v as int, g as int, -q, 0);
            }
        }
        if rem == 0 {
            v
        } else {
            v + rem
        }
    }
}

/// Snaps every coordinate of a point up to the grid.
pub fn snap_point(p: Point, g: i64) -> (r: Point)
    requires
        1 <= g,
        i64::MIN + g <= p.x <= i64::MAX - g,
        i64::MIN + g <= p.y <= i64::MAX - g,
        i64::MIN + g <= p.z <= i64::MAX - g,
    ensures
        r == snap_point_spec(p, g as int),
{
    proof {
        lemma_snap_up_spec(p.x as int, g as int);
        lemma_snap_up_spec(p.y as int, g as int);
        lemma_snap_up_spec(p.z as int, g as int);
    }
    Point { x: snap_up(p.x, g), y: snap_up(p.y, g), z: snap_up(p.z, g) }
}

/// Every coordinate of `p` leaves room for one granularity step either way,
/// so snapping it cannot overflow.
pub open spec fn snap_range_ok(p: Point, g: int) -> bool {
    &&& i64::MIN + g <= p.x <= i64::MAX - g
    &&& i64::MIN + g <= p.y <= i64::MAX - g
    &&& i64::MIN + g <= p.z <= i64::MAX - g
}

/// Componentwise grid snapping.
pub open spec fn snap_point_spec(p: Point, g: int) -> Point {
    Point {
        x: snap_up_spec(p.x as int, g) as i64,
        y: snap_up_spec(p.y as int, g) as i64,
        z: snap_up_spec(p.z as int, g) as i64,
    }
}

} // verus!
