use vstd::prelude::*;
use crate::tan_table::{TAN_SCALE, lemma_tan_scaled_nonneg, spec_tan_scaled, tan_scaled};

verus! {

// Bearings are measured clockwise from "north" (the positive `y` axis), in
// `[0, 360)` degrees.  A non-zero integer vector `(x, y)` determines its
// bearing exactly; rather than evaluate the irrational angle, this module
// decides comparisons of the form `bearing (x, y) <= h` for whole-degree
// bounds `h`, by rotating the vector into the first quadrant (an exact
// operation, a quarter turn at a time) and comparing slopes against the
// tangent table.

/// Quadrant of the bearing of the non-zero vector `(x, y)`: quadrant `q`
/// holds the bearings in `[90 q, 90 (q + 1))` degrees.
pub open spec fn spec_quadrant(x: int, y: int) -> int {
    if x >= 0 && y > 0 {
        0
    } else if x > 0 && y <= 0 {
        1
    } else if x <= 0 && y < 0 {
        2
    } else {
        3
    }
}

/// `(x, y)` rotated counter-clockwise by a quarter turn per quadrant, which
/// lands every non-zero vector in quadrant `0`.  Its bearing there is the
/// bearing of `(x, y)` less `90 * spec_quadrant(x, y)` degrees.
pub open spec fn spec_rotated(x: int, y: int) -> (int, int) {
    let q = spec_quadrant(x, y);
    if q == 0 {
        (x, y)
    } else if q == 1 {
        (-y, x)
    } else if q == 2 {
        (-x, -y)
    } else {
        (y, -x)
    }
}

/// Does the bearing of the non-zero vector `(x, y)` lie at or below `h`
/// degrees?  Within the vector's quadrant the comparison reduces to a slope
/// comparison against the tangent table; the table entries at multiples of
/// 45 degrees are exact, so cardinal and diagonal bearings compare exactly.
pub open spec fn spec_bearing_le(x: int, y: int, h: int) -> bool {
    let q = spec_quadrant(x, y);
    let w = spec_rotated(x, y);
    h >= 90 * (q + 1) || (h >= 90 * q && w.0 * (TAN_SCALE as int) <= w.1 * spec_tan_scaled(
        h - 90 * q,
    ))
}

/// Decides `spec_bearing_le` executably.
pub fn bearing_le(x: i64, y: i64, h: u32) -> (r: bool)
    requires
        x != 0 || y != 0,
        x > i64::MIN,
        y > i64::MIN,
    ensures
        r == spec_bearing_le(x as int, y as int, h as int),
{
    let (q, wx, wy): (u32, i64, i64) = if x >= 0 && y > 0 {
        (0, x, y)
    } else if x > 0 && y <= 0 {
        (1, -y, x)
    } else if x <= 0 && y < 0 {
        (2, -x, -y)
    } else {
        (3, y, -x)
    };
    if h >= 90 * (q + 1) {
        true
    } else if h < 90 * q {
        false
    } else {
        let t: i64 = tan_scaled(h - 90 * q);
        proof {
            lemma_tan_scaled_nonneg((h - 90 * q) as int);
            assert((wy as i128) * (t as i128) < 0x4000_0000_0000_0000_0000_0000_0000_0000int)
                by (nonlinear_arith)
                requires
                    wy < 0x8000_0000_0000_0000,
                    t < 0x8000_0000_0000_0000,
                    wy > 0,
                    t >= 0,
            ;
        }
        (wx as i128) * TAN_SCALE <= (wy as i128) * (t as i128)
    }
}

/// Squared Euclidean distance between two coordinate pairs, as a
/// mathematical integer.
pub open spec fn spec_squared_distance(p1: (int, int), p2: (int, int)) -> int {
    let dx = p2.0 - p1.0;
    let dy = p2.1 - p1.1;
    dx * dx + dy * dy
}

/// Squared Euclidean distance between two coordinate pairs.  The square
/// avoids the irrational square root while ordering distances the same way,
/// so a strict radius bound `distance < radius` becomes
/// `squared_distance < radius * radius`.
pub fn squared_distance(point_1: (i32, i32), point_2: (i32, i32)) -> (d: u128)
    ensures
        d == spec_squared_distance(
            (point_1.0 as int, point_1.1 as int),
            (point_2.0 as int, point_2.1 as int),
        ),
{
    let dx: i128 = (point_2.0 as i128) - (point_1.0 as i128);
    let dy: i128 = (point_2.1 as i128) - (point_1.1 as i128);
    proof {
        assert(dx * dx >= 0 && dx * dx < 0x1_0000_0000_0000_0000int) by (nonlinear_arith)
            requires
                -0x1_0000_0000 < dx < 0x1_0000_0000,
        ;
        assert(dy * dy >= 0 && dy * dy < 0x1_0000_0000_0000_0000int) by (nonlinear_arith)
            requires
                -0x1_0000_0000 < dy < 0x1_0000_0000,
        ;
    }
    ((dx * dx) + (dy * dy)) as u128
}

/// Distance is symmetric, and zero from a point to itself.  The Euclidean
/// distance is the square root of this value, so it inherits both facts.
pub proof fn lemma_squared_distance_symmetric(p1: (int, int), p2: (int, int))
    ensures
        spec_squared_distance(p1, p2) == spec_squared_distance(p2, p1),
        spec_squared_distance(p1, p1) == 0,
{
    assert((p2.0 - p1.0) * (p2.0 - p1.0) == (p1.0 - p2.0) * (p1.0 - p2.0)) by (nonlinear_arith);
    assert((p2.1 - p1.1) * (p2.1 - p1.1) == (p1.1 - p2.1) * (p1.1 - p2.1)) by (nonlinear_arith);
}

} // verus!
