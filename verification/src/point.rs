use vstd::prelude::*;
use crate::geometry::{bearing_le, spec_bearing_le, spec_squared_distance, squared_distance};
use crate::tan_table::{lemma_tan_scaled_nonneg, spec_tan_scaled};

verus! {

/// Direction faced by a point.  Each direction is a cardinal bearing,
/// measured clockwise from "up": North is 0 degrees, East 90, South 180
/// and West 270.
#[derive(Copy, Clone, Debug, PartialEq)]
pub enum Direction {
    North,
    East,
    South,
    West,
}

/// A point as used internally: an integer coordinate pair, an identity
/// number (unique in practice, but not validated — under duplicates the
/// first match wins), and a facing direction.
#[derive(Copy, Clone, Debug, PartialEq)]
pub struct Point {
    /// x,y coordinates of the point
    pub coordinates: (i32, i32),
    pub number: u32,
    pub direction: Direction,
}

/// A point as found in structured input.
#[derive(Debug)]
pub struct InputPoint {
    pub x: i32,
    pub y: i32,
    pub number: u32,
    pub direction: Direction,
}

/// List of points as found in a structured points input.
#[derive(Debug)]
pub struct PointList {
    pub points: Vec<InputPoint>,
}

/// The internal point an input point stands for.
pub open spec fn spec_point_of_input(input: InputPoint) -> Point {
    Point { coordinates: (input.x, input.y), number: input.number, direction: input.direction }
}

/// Sector membership: does the bearing of the delta `(dx, dy)` lie within
/// `h` degrees of the cardinal bearing that `direction` faces, inclusive on
/// both edges and wrapping around the full circle?
///
/// The test is decided exactly on integers.  First the delta is rotated by
/// a quarter turn per cardinal step so that the facing direction becomes
/// North; the rotated delta `(ux, uy)` then has the candidate's bearing
/// *relative* to the sector centre.  A relative bearing `r` is in the
/// sector exactly when `r <= h` or `360 - r <= h`, and the mirrored delta
/// `(-ux, uy)` has relative bearing `360 - r` (or `0`, which is in every
/// sector anyway), so both checks are `spec_bearing_le` comparisons.
///
/// The zero delta has no bearing; it inherits the degenerate convention of
/// the horizontal-alignment case, where a candidate that is not strictly to
/// the right lies at bearing 270, so it is treated as the delta `(-1, 0)`.
pub open spec fn spec_in_sector(dx: int, dy: int, direction: Direction, h: int) -> bool {
    let ax = if dx == 0 && dy == 0 {
        -1int
    } else {
        dx
    };
    let ay = if dx == 0 && dy == 0 {
        0int
    } else {
        dy
    };
    let ux = match direction {
        Direction::North => ax,
        Direction::East => -ay,
        Direction::South => -ax,
        Direction::West => ay,
    };
    let uy = match direction {
        Direction::North => ay,
        Direction::East => ax,
        Direction::South => -ay,
        Direction::West => -ax,
    };
    spec_bearing_le(ux, uy, h) || spec_bearing_le(-ux, uy, h)
}

/// Is `candidate` visible from `point` under a half-angle of
/// `half_arc_central_angle` degrees and an exclusive `radius`?  Visibility
/// requires a different identity number, a squared distance strictly below
/// the squared radius, and a bearing inside the sector `point` faces.
pub open spec fn spec_visible(
    point: Point,
    candidate: Point,
    half_arc_central_angle: u32,
    radius: u32,
) -> bool {
    &&& candidate.number != point.number
    &&& spec_squared_distance(
        (point.coordinates.0 as int, point.coordinates.1 as int),
        (candidate.coordinates.0 as int, candidate.coordinates.1 as int),
    ) < (radius as int) * (radius as int)
    &&& spec_in_sector(
        candidate.coordinates.0 - point.coordinates.0,
        candidate.coordinates.1 - point.coordinates.1,
        point.direction,
        half_arc_central_angle as int,
    )
}

/// The subsequence of `neighbourhood`, in input order, visible from
/// `point`.
pub open spec fn visible_filter(
    point: Point,
    half_arc_central_angle: u32,
    radius: u32,
    neighbourhood: Seq<Point>,
) -> Seq<Point> {
    neighbourhood.filter(
        |candidate: Point| spec_visible(point, candidate, half_arc_central_angle, radius),
    )
}

/// The subsequence of `neighbourhood`, in input order, with a different
/// identity number and strictly within `radius` of `point` — no angular
/// condition at all.
pub open spec fn radius_filter(point: Point, radius: u32, neighbourhood: Seq<Point>) -> Seq<
    Point,
> {
    neighbourhood.filter(
        |candidate: Point|
            candidate.number != point.number && spec_squared_distance(
                (point.coordinates.0 as int, point.coordinates.1 as int),
                (candidate.coordinates.0 as int, candidate.coordinates.1 as int),
            ) < (radius as int) * (radius as int),
    )
}

/// The first point of `points` carrying `point_number`, if any.
pub open spec fn find_point(points: Seq<Point>, point_number: u32) -> Option<Point>
    decreases points.len(),
{
    if points.len() == 0 {
        None
    } else if points[0].number == point_number {
        Some(points[0])
    } else {
        find_point(points.drop_first(), point_number)
    }
}

/// Is the second point visible from the first, taking the first point's
/// facing direction into account?  True exactly when the second point's
/// bearing lies within `half_arc_central_angle` degrees, inclusive, of the
/// bearing the first point faces.  Distance plays no part here.
pub fn visible_neighbour(point: &Point, neighbour: &Point, half_arc_central_angle: u32) -> (r:
    bool)
    ensures
        r == spec_in_sector(
            neighbour.coordinates.0 - point.coordinates.0,
            neighbour.coordinates.1 - point.coordinates.1,
            point.direction,
            half_arc_central_angle as int,
        ),
{
    let dx: i64 = (neighbour.coordinates.0 as i64) - (point.coordinates.0 as i64);
    let dy: i64 = (neighbour.coordinates.1 as i64) - (point.coordinates.1 as i64);
    let (ax, ay): (i64, i64) = if dx == 0 && dy == 0 {
        (-1, 0)
    } else {
        (dx, dy)
    };
    let (ux, uy): (i64, i64) = match point.direction {
        Direction::North => (ax, ay),
        Direction::East => (-ay, ax),
        Direction::South => (-ax, -ay),
        Direction::West => (ay, -ax),
    };
    bearing_le(ux, uy, half_arc_central_angle) || bearing_le(-ux, uy, half_arc_central_angle)
}

/// All `neighbourhood` points, in input order, that are visible from
/// `point`: within a sector centred on `point`'s facing direction, spanning
/// `half_arc_central_angle` degrees to either side, and strictly closer
/// than `radius`.  `point` itself — any point with its identity number —
/// is never included.
pub fn close_neighbours(
    point: &Point,
    half_arc_central_angle: u32,
    radius: u32,
    neighbourhood: &Vec<Point>,
) -> (result: Vec<Point>)
    ensures
        result@ == visible_filter(*point, half_arc_central_angle, radius, neighbourhood@),
        forall|i: int|
            0 <= i < result@.len() ==> (#[trigger] result@[i]).number != point.number,
{
    let mut result: Vec<Point> = Vec::new();
    let mut index: usize = 0;
    proof {
        assert((radius as u128) * (radius as u128) < 0x1_0000_0000_0000_0000u128)
            by (nonlinear_arith)
            requires
                radius <= 0xFFFF_FFFFu32,
        ;
    }
    let radius_squared: u128 = (radius as u128) * (radius as u128);
    while index < neighbourhood.len()
        invariant
            index <= neighbourhood.len(),
            radius_squared == (radius as int) * (radius as int),
            result@ == visible_filter(
                *point,
                half_arc_central_angle,
                radius,
                neighbourhood@.take(index as int),
            ),
            forall|i: int|
                0 <= i < result@.len() ==> (#[trigger] result@[i]).number != point.number,
        decreases neighbourhood.len() - index,
    {
        let candidate: Point = neighbourhood[index];
        if point.number != candidate.number {
            let distance_squared: u128 = squared_distance(point.coordinates, candidate.coordinates);
            if distance_squared < radius_squared && visible_neighbour(
                point,
                &candidate,
                half_arc_central_angle,
            ) {
                result.push(candidate);
            }
        }
        proof {
            assert(neighbourhood@.take(index as int + 1) =~= neighbourhood@.take(
                index as int,
            ).push(neighbourhood@[index as int]));
            lemma_visible_filter_push(
                *point,
                half_arc_central_angle,
                radius,
                neighbourhood@.take(index as int),
                neighbourhood@[index as int],
            );
        }
        index += 1;
    }
    proof {
        assert(neighbourhood@.take(neighbourhood@.len() as int) =~= neighbourhood@);
    }
    result
}

/// All `neighbourhood` points visible from the point identified by
/// `point_number`, under `half_arc_central_angle` degrees of sweep to
/// either side of its facing direction and an exclusive radius of
/// `arc_radius` units.  The source point is located by the first match on
/// its identity number; if the number is absent the result is empty — a
/// defined outcome, not an error.  The source point is never included in
/// the result.
pub fn visible_points_from_neighbours(
    point_number: u32,
    half_arc_central_angle: u32,
    arc_radius: u32,
    neighbourhood: &Vec<Point>,
) -> (result: Vec<Point>)
    ensures
        (match find_point(neighbourhood@, point_number) {
            Some(source) => result@ == visible_filter(
                source,
                half_arc_central_angle,
                arc_radius,
                neighbourhood@,
            ),
            None => result@ == Seq::<Point>::empty(),
        }),
        forall|i: int|
            0 <= i < result@.len() ==> (#[trigger] result@[i]).number != point_number,
        neighbourhood@.len() == 0 ==> result@.len() == 0,
        (forall|i: int|
            0 <= i < neighbourhood@.len() ==> (#[trigger] neighbourhood@[i]).number
                != point_number) ==> result@.len() == 0,
{
    let mut index: usize = 0;
    while index < neighbourhood.len()
        invariant
            index <= neighbourhood.len(),
            forall|j: int|
                0 <= j < index ==> (#[trigger] neighbourhood@[j]).number != point_number,
        decreases neighbourhood.len() - index,
    {
        if neighbourhood[index].number == point_number {
            proof {
                lemma_find_point_at(neighbourhood@, point_number, index as int);
            }
            let source: Point = neighbourhood[index];
            return close_neighbours(&source, half_arc_central_angle, arc_radius, neighbourhood);
        }
        index += 1;
    }
    proof {
        lemma_find_point_none(neighbourhood@, point_number);
    }
    Vec::new()
}

/// The internal points that a parsed list of input points stands for, in
/// input order.
pub fn points_from_list(list: PointList) -> (result: Vec<Point>)
    ensures
        result@.len() == list.points@.len(),
        forall|i: int|
            0 <= i < result@.len() ==> result@[i] == spec_point_of_input(
                #[trigger] list.points@[i],
            ),
{
    let mut result: Vec<Point> = Vec::new();
    let mut index: usize = 0;
    while index < list.points.len()
        invariant
            index <= list.points.len(),
            result@.len() == index,
            forall|i: int|
                0 <= i < result@.len() ==> result@[i] == spec_point_of_input(
                    #[trigger] list.points@[i],
                ),
        decreases list.points.len() - index,
    {
        let input: &InputPoint = &list.points[index];
        result.push(
            Point {
                coordinates: (input.x, input.y),
                number: input.number,
                direction: input.direction,
            },
        );
        index += 1;
    }
    result
}

/// The direction facing the opposite way: a half turn of the bearing.
pub open spec fn spec_opposite(direction: Direction) -> Direction {
    match direction {
        Direction::North => Direction::South,
        Direction::East => Direction::West,
        Direction::South => Direction::North,
        Direction::West => Direction::East,
    }
}

/// Is `candidate` exactly on the bearing that `point` faces?
pub open spec fn spec_facing(point: Point, candidate: Point) -> bool {
    let dx = candidate.coordinates.0 - point.coordinates.0;
    let dy = candidate.coordinates.1 - point.coordinates.1;
    match point.direction {
        Direction::North => dx == 0 && dy > 0,
        Direction::East => dy == 0 && dx > 0,
        Direction::South => dx == 0 && dy < 0,
        Direction::West => dy == 0 && dx < 0,
    }
}

/// Appending one candidate to a neighbourhood appends it to the filtered
/// result exactly when it is visible.
proof fn lemma_visible_filter_push(
    point: Point,
    half_arc_central_angle: u32,
    radius: u32,
    neighbourhood: Seq<Point>,
    candidate: Point,
)
    ensures
        visible_filter(point, half_arc_central_angle, radius, neighbourhood.push(candidate)) == (
        if spec_visible(point, candidate, half_arc_central_angle, radius) {
            visible_filter(point, half_arc_central_angle, radius, neighbourhood).push(candidate)
        } else {
            visible_filter(point, half_arc_central_angle, radius, neighbourhood)
        }),
{
    reveal(Seq::filter);
    assert(neighbourhood.push(candidate).drop_last() =~= neighbourhood);
    assert(neighbourhood.push(candidate).last() == candidate);
}

/// `find_point` returns the entry at `index` when every earlier entry
/// carries another number.
proof fn lemma_find_point_at(points: Seq<Point>, point_number: u32, index: int)
    requires
        0 <= index < points.len(),
        forall|j: int| 0 <= j < index ==> (#[trigger] points[j]).number != point_number,
        points[index].number == point_number,
    ensures
        find_point(points, point_number) == Some(points[index]),
    decreases index,
{
    if index > 0 {
        assert(forall|j: int|
            0 <= j < index - 1 ==> (#[trigger] points.drop_first()[j]).number != point_number);
        assert(points.drop_first()[index - 1] == points[index]);
        lemma_find_point_at(points.drop_first(), point_number, index - 1);
    }
}

/// `find_point` finds nothing when no entry carries the number.
proof fn lemma_find_point_none(points: Seq<Point>, point_number: u32)
    requires
        forall|j: int| 0 <= j < points.len() ==> (#[trigger] points[j]).number != point_number,
    ensures
        find_point(points, point_number) is None,
    decreases points.len(),
{
    if points.len() > 0 {
        assert(forall|j: int|
            0 <= j < points.len() - 1 ==> (#[trigger] points.drop_first()[j]).number
                != point_number);
        lemma_find_point_none(points.drop_first(), point_number);
    }
}

/// A bearing due North — a rotated delta of the form `(0, uy)` with
/// `uy > 0` — lies at or below every non-negative degree bound.
proof fn lemma_bearing_le_north(uy: int, h: int)
    requires
        uy > 0,
        h >= 0,
    ensures
        spec_bearing_le(0, uy, h),
{
    if h < 90 {
        lemma_tan_scaled_nonneg(h);
        assert(uy * spec_tan_scaled(h) >= 0) by (nonlinear_arith)
            requires
                uy > 0,
                spec_tan_scaled(h) >= 0,
        ;
    }
}

/// At a bound of 180 degrees or more, every non-zero vector passes one of
/// the two half-sector checks.
proof fn lemma_bearing_le_full(ux: int, uy: int, h: int)
    requires
        ux != 0 || uy != 0,
        h >= 180,
    ensures
        spec_bearing_le(ux, uy, h) || spec_bearing_le(-ux, uy, h),
{
    if ux == 0 && uy < 0 {
        // bearing exactly 180: quadrant 2, rotated to (0, -uy)
        if h < 270 {
            lemma_tan_scaled_nonneg(h - 180);
            assert((-uy) * spec_tan_scaled(h - 180) >= 0) by (nonlinear_arith)
                requires
                    -uy > 0,
                    spec_tan_scaled(h - 180) >= 0,
            ;
        }
    }
}

/// A half-angle of 180 degrees or more performs no angular exclusion: the
/// sector covers the whole circle, every delta included.
pub proof fn lemma_in_sector_full(dx: int, dy: int, direction: Direction, h: int)
    requires
        h >= 180,
    ensures
        spec_in_sector(dx, dy, direction, h),
{
    let ax = if dx == 0 && dy == 0 {
        -1int
    } else {
        dx
    };
    let ay = if dx == 0 && dy == 0 {
        0int
    } else {
        dy
    };
    match direction {
        Direction::North => lemma_bearing_le_full(ax, ay, h),
        Direction::East => lemma_bearing_le_full(-ay, ax, h),
        Direction::South => lemma_bearing_le_full(-ax, -ay, h),
        Direction::West => lemma_bearing_le_full(ay, -ax, h),
    }
}

/// A half-angle of 180 degrees (or more) degenerates to a pure radius
/// filter: the visibility filter returns exactly the points with another
/// identity number strictly within the radius, angular position ignored.
pub proof fn lemma_full_half_angle_is_radius_filter(
    point: Point,
    half_arc_central_angle: u32,
    radius: u32,
    neighbourhood: Seq<Point>,
)
    requires
        half_arc_central_angle >= 180,
    ensures
        visible_filter(point, half_arc_central_angle, radius, neighbourhood) == radius_filter(
            point,
            radius,
            neighbourhood,
        ),
    decreases neighbourhood.len(),
{
    reveal(Seq::filter);
    if neighbourhood.len() == 0 {
        assert(visible_filter(point, half_arc_central_angle, radius, neighbourhood)
            =~= radius_filter(point, radius, neighbourhood));
    } else {
        let prefix = neighbourhood.drop_last();
        let last = neighbourhood.last();
        lemma_full_half_angle_is_radius_filter(point, half_arc_central_angle, radius, prefix);
        lemma_in_sector_full(
            last.coordinates.0 - point.coordinates.0,
            last.coordinates.1 - point.coordinates.1,
            point.direction,
            half_arc_central_angle as int,
        );
        assert(spec_visible(point, last, half_arc_central_angle, radius) == (last.number
            != point.number && spec_squared_distance(
            (point.coordinates.0 as int, point.coordinates.1 as int),
            (last.coordinates.0 as int, last.coordinates.1 as int),
        ) < (radius as int) * (radius as int)));
    }
}

/// The bearing from B back to A differs from the bearing from A to B by
/// exactly a half turn: for points at distinct coordinates, a sector
/// centred on any direction contains the forward delta exactly when the
/// sector centred on the opposite direction contains the reversed delta.
/// Coincident coordinates are excluded: both deltas then collapse to the
/// one degenerate bearing instead of opposite ones.
pub proof fn lemma_opposite_bearing(a: Point, b: Point, direction: Direction, half_angle: u32)
    requires
        a.coordinates != b.coordinates,
    ensures
        spec_in_sector(
            b.coordinates.0 - a.coordinates.0,
            b.coordinates.1 - a.coordinates.1,
            direction,
            half_angle as int,
        ) == spec_in_sector(
            a.coordinates.0 - b.coordinates.0,
            a.coordinates.1 - b.coordinates.1,
            spec_opposite(direction),
            half_angle as int,
        ),
{
}

/// A candidate at or beyond the radius — in particular exactly at it — is
/// never visible: the radius bound is strict.
pub proof fn lemma_radius_boundary_excluded(
    point: Point,
    candidate: Point,
    half_arc_central_angle: u32,
    radius: u32,
)
    requires
        spec_squared_distance(
            (point.coordinates.0 as int, point.coordinates.1 as int),
            (candidate.coordinates.0 as int, candidate.coordinates.1 as int),
        ) >= (radius as int) * (radius as int),
    ensures
        !spec_visible(point, candidate, half_arc_central_angle, radius),
{
}

/// A candidate exactly on the centre bearing of the sector is inside it at
/// every half-angle, zero included: the sector bounds are inclusive.
pub proof fn lemma_center_bearing_included(
    point: Point,
    candidate: Point,
    half_arc_central_angle: u32,
)
    requires
        spec_facing(point, candidate),
    ensures
        spec_in_sector(
            candidate.coordinates.0 - point.coordinates.0,
            candidate.coordinates.1 - point.coordinates.1,
            point.direction,
            half_arc_central_angle as int,
        ),
{
    let dx = candidate.coordinates.0 - point.coordinates.0;
    let dy = candidate.coordinates.1 - point.coordinates.1;
    match point.direction {
        Direction::North => lemma_bearing_le_north(dy, half_arc_central_angle as int),
        Direction::East => lemma_bearing_le_north(dx, half_arc_central_angle as int),
        Direction::South => lemma_bearing_le_north(-dy, half_arc_central_angle as int),
        Direction::West => lemma_bearing_le_north(-dx, half_arc_central_angle as int),
    }
}

/// Sector edge bearings are inclusive.  Stated at the exactly representable
/// edges of a North-facing sector: a delta at bearing 45 or 315 lies on an
/// edge of the 45-degree sector and is inside it, and a delta at bearing 90
/// or 270 lies on an edge of the 90-degree sector and is inside it.  The
/// same holds facing the other directions by a quarter-turn rotation of the
/// deltas.
pub proof fn lemma_sector_edge_included(d: int)
    requires
        d > 0,
    ensures
        spec_in_sector(d, d, Direction::North, 45),
        spec_in_sector(-d, d, Direction::North, 45),
        spec_in_sector(d, 0, Direction::North, 90),
        spec_in_sector(-d, 0, Direction::North, 90),
{
}

/// At half-angle zero the sector is exactly its centre bearing: a delta is
/// inside it precisely when the candidate sits dead ahead.
pub proof fn lemma_zero_half_angle_exact(point: Point, candidate: Point)
    requires
        point.coordinates != candidate.coordinates,
    ensures
        spec_in_sector(
            candidate.coordinates.0 - point.coordinates.0,
            candidate.coordinates.1 - point.coordinates.1,
            point.direction,
            0,
        ) == spec_facing(point, candidate),
{
}

} // verus!

