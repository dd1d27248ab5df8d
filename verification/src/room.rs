//! Rooms: axis-aligned box volumes, their corner geometry, containment and
//! intersection classification, and the status messages shown for a room
//! that another room fully engulfs.

use vstd::prelude::*;
use vstd::string::StringExecFns;
use crate::geom::{Point, UNIT};
use crate::ident::EntityId;

verus! {

/// A placed room volume. `min` and `max` are opposite corners; rooms
/// committed through the tool always have `min.le(max)`.
pub struct Room {
    pub min: Point,
    pub max: Point,
    /// Set when this room lies completely inside another room.
    pub engulfing: Option<EntityId>,
}

/// How two rooms' volumes relate, judged by corner containment.
#[derive(Clone, Copy, PartialEq, Eq, Structural, Debug)]
pub enum IntersectionResult {
    Disjoint,
    LeftEngulfsRight,
    RightEngulfsLeft,
    Identical,
    Intersection,
}

/// Whether `p` lies inside `r` (bounds included).
pub open spec fn point_inside_spec(r: Room, p: Point) -> bool {
    &&& r.min.x <= p.x <= r.max.x
    &&& r.min.y <= p.y <= r.max.y
    &&& r.min.z <= p.z <= r.max.z
}

/// Corner `i` of a room, in the order its geometry lists them: the four
/// corners of the `z == min.z` face counter-clockwise, then the same four
/// at `z == max.z`.
pub open spec fn corner(r: Room, i: int) -> Point
    recommends
        0 <= i < 8,
{
    let x = if i == 0 || i == 3 || i == 4 || i == 7 {
        r.min.x
    } else {
        r.max.x
    };
    let y = if i == 0 || i == 1 || i == 4 || i == 5 {
        r.min.y
    } else {
        r.max.y
    };
    let z = if i < 4 {
        r.min.z
    } else {
        r.max.z
    };
    Point { x, y, z }
}

/// All eight corners of a room.
pub open spec fn corners_seq(r: Room) -> Seq<Point> {
    Seq::new(8, |i: int| corner(r, i))
}

/// How many of the points are inside `r`.
pub open spec fn count_inside_spec(r: Room, pts: Seq<Point>) -> int
    decreases pts.len(),
{
    if pts.len() == 0 {
        0
    } else {
        count_inside_spec(r, pts.drop_last()) + if point_inside_spec(r, pts.last()) {
            1int
        } else {
            0
        }
    }
}

/// How many of `inner`'s corners are inside `outer`.
pub open spec fn corners_in_count(outer: Room, inner: Room) -> int {
    count_inside_spec(outer, corners_seq(inner))
}

/// The classification `test_intersection` returns: eight corners contained
/// both ways is `Identical`; eight one way is engulfment; no corner
/// contained either way is `Disjoint`; anything else is a partial
/// `Intersection`.
pub open spec fn intersection_spec(left: Room, right: Room) -> IntersectionResult {
    let right_in_left = corners_in_count(left, right);
    let left_in_right = corners_in_count(right, left);
    if right_in_left == 8 && left_in_right == 8 {
        IntersectionResult::Identical
    } else if right_in_left == 8 {
        IntersectionResult::LeftEngulfsRight
    } else if left_in_right == 8 {
        IntersectionResult::RightEngulfsLeft
    } else if right_in_left == 0 && left_in_right == 0 {
        IntersectionResult::Disjoint
    } else {
        IntersectionResult::Intersection
    }
}

/// The message shown for a room that sits fully inside `other`.
pub open spec fn ghost_message_spec(me: EntityId, other: EntityId) -> Seq<char> {
    "Room "@ + me.name_spec() + " is fully inside "@ + other.name_spec()
        + " and will not appear!"@
}

impl Room {
    pub fn new(min: Point, max: Point) -> (r: Room)
        ensures
            r.min == min,
            r.max == max,
            r.engulfing is None,
    {
        Room { min, max, engulfing: None }
    }

    /// Whether `point` lies inside this room (bounds included).
    pub fn point_inside(&self, point: Point) -> (r: bool)
        ensures
            r == point_inside_spec(*self, point),
    {
        point.x >= self.min.x && point.x <= self.max.x
            && point.y >= self.min.y && point.y <= self.max.y
            && point.z >= self.min.z && point.z <= self.max.z
    }

    /// The eight corners of this room.
    pub fn extremes(&self) -> (r: Vec<Point>)
        ensures
            r@ == corners_seq(*self),
    {
        let mut extremes: Vec<Point> = Vec::new();

        extremes.push(Point { x: self.min.x, y: self.min.y, z: self.min.z });
        extremes.push(Point { x: self.max.x, y: self.min.y, z: self.min.z });
        extremes.push(Point { x: self.max.x, y: self.max.y, z: self.min.z });
        extremes.push(Point { x: self.min.x, y: self.max.y, z: self.min.z });

        extremes.push(Point { x: self.min.x, y: self.min.y, z: self.max.z });
        extremes.push(Point { x: self.max.x, y: self.min.y, z: self.max.z });
        extremes.push(Point { x: self.max.x, y: self.max.y, z: self.max.z });
        extremes.push(Point { x: self.min.x, y: self.max.y, z: self.max.z });

        proof {
            assert(extremes@ =~= corners_seq(*self));
        }
        extremes
    }

    /// How many of the given points are inside this room.
    pub fn count_points_inside(&self, points: &Vec<Point>) -> (r: usize)
        ensures
            r == count_inside_spec(*self, points@),
            r <= points@.len(),
    {
        let mut count: usize = 0;
        let mut i: usize = 0;
        while i < points.len()
            invariant
                i <= points@.len(),
                count <= i,
                count == count_inside_spec(*self, points@.subrange(0, i as int)),
            decreases points@.len() - i,
        {
            let inside = self.point_inside(points[i]);
            proof {
                assert(points@.subrange(0, i + 1 as int).drop_last()
                    =~= points@.subrange(0, i as int));
                assert(points@.subrange(0, i + 1 as int).last() == points@[i as int]);
            }
            if inside {
                count = count + 1;
            }
            i = i + 1;
        }
        proof {
            assert(points@.subrange(0, points@.len() as int) =~= points@);
        }
        count
    }

    /// Classifies how the volumes of two rooms relate, by counting each
    /// room's corners inside the other. Engulfment is judged first, so a
    /// room all of whose corners lie in the other classifies as engulfed
    /// even when none of the other's corners lies in it.
    pub fn test_intersection(left: &Room, right: &Room) -> (r: IntersectionResult)
        ensures
            r == intersection_spec(*left, *right),
    {
        let engulfed_right_points = left.count_points_inside(&right.extremes());
        let engulfed_left_points = right.count_points_inside(&left.extremes());
        if engulfed_right_points == 8 && engulfed_left_points == 8 {
            return IntersectionResult::Identical;
        }
        if engulfed_right_points == 8 {
            return IntersectionResult::LeftEngulfsRight;
        }
        if engulfed_left_points == 8 {
            return IntersectionResult::RightEngulfsLeft;
        }
        if engulfed_right_points == 0 && engulfed_left_points == 0 {
            return IntersectionResult::Disjoint;
        }
        IntersectionResult::Intersection
    }

    /// The status messages for this room: exactly one, naming this room and
    /// the room engulfing it, when an engulfing reference is set; none
    /// otherwise.
    pub fn messages(&self, my_entity: EntityId) -> (r: Vec<String>)
        ensures
            self.engulfing is None ==> r@.len() == 0,
            self.engulfing matches Some(other) ==> {
                &&& r@.len() == 1
                &&& r@[0]@ == ghost_message_spec(my_entity, other)
            },
    {
        let mut messages: Vec<String> = Vec::new();
        match self.engulfing {
            Some(other) => {
                let mut m = String::new();
                m.append("Room ");
                let me_name = my_entity.name();
                m.append(me_name.as_str());
                m.append(" is fully inside ");
                let other_name = other.name();
                m.append(other_name.as_str());
                m.append(" and will not appear!");
                proof {
                    assert(m@ =~= ghost_message_spec(my_entity, other));
                }
                messages.push(m);
            }
            None => {}
        }
        messages
    }
}

/// The triangle list of a room's box mesh: twelve triangles, three corner
/// indices each, wound counter-clockwise when viewed from inside so the
/// faces point inward.
pub open spec fn mesh_indices_spec() -> Seq<u32> {
    seq![
        0u32, 1, 2, 0, 2, 3,
        4, 6, 5, 4, 7, 6,
        4, 0, 3, 4, 3, 7,
        1, 5, 2, 5, 6, 2,
        4, 1, 0, 4, 5, 1,
        3, 2, 6, 3, 6, 7,
    ]
}

/// The inward normal of corner `i`'s face pair: `+z` on the `z == min.z`
/// face, `-z` on the `z == max.z` face, in whole units.
pub open spec fn mesh_normal(i: int) -> Point
    recommends
        0 <= i < 8,
{
    if i < 4 {
        Point { x: 0i64, y: 0i64, z: 1i64 }
    } else {
        Point { x: 0i64, y: 0i64, z: -1i64 }
    }
}

/// The texture coordinate of corner `i`, in whole units.
pub open spec fn mesh_uv(i: int) -> (i64, i64)
    recommends
        0 <= i < 8,
{
    let j = if i < 4 {
        i
    } else {
        i - 4
    };
    if j == 0 {
        (0i64, 0i64)
    } else if j == 1 {
        (1i64, 0i64)
    } else if j == 2 {
        (1i64, 1i64)
    } else {
        (0i64, 1i64)
    }
}

impl Room {
    /// The corner indices of the twelve triangles of this room's mesh. The
    /// triangles index into `extremes`; every index is below eight.
    pub fn mesh_indices() -> (r: Vec<u32>)
        ensures
            r@ == mesh_indices_spec(),
            r@.len() == 36,
            forall|i: int| 0 <= i < r@.len() ==> r@[i] < 8,
    {
        let r: Vec<u32> = vec![
            0, 1, 2, 0, 2, 3,
            4, 6, 5, 4, 7, 6,
            4, 0, 3, 4, 3, 7,
            1, 5, 2, 5, 6, 2,
            4, 1, 0, 4, 5, 1,
            3, 2, 6, 3, 6, 7,
        ];
        proof {
            assert(r@ =~= mesh_indices_spec());
        }
        r
    }

    /// The per-corner inward normals of this room's mesh.
    pub fn mesh_normals() -> (r: Vec<Point>)
        ensures
            r@.len() == 8,
            forall|i: int| 0 <= i < 8 ==> r@[i] == mesh_normal(i),
    {
        let mut r: Vec<Point> = Vec::new();
        let mut i: usize = 0;
        while i < 8
            invariant
                i <= 8,
                r@.len() == i,
                forall|j: int| 0 <= j < i ==> r@[j] == mesh_normal(j),
            decreases 8 - i,
        {
            if i < 4 {
                r.push(Point { x: 0, y: 0, z: 1 });
            } else {
                r.push(Point { x: 0, y: 0, z: -1 });
            }
            i = i + 1;
        }
        r
    }

    /// The per-corner texture coordinates of this room's mesh.
    pub fn mesh_uvs() -> (r: Vec<(i64, i64)>)
        ensures
            r@.len() == 8,
            forall|i: int| 0 <= i < 8 ==> r@[i] == mesh_uv(i),
    {
        let r: Vec<(i64, i64)> = vec![
            (0, 0), (1, 0), (1, 1), (0, 1),
            (0, 0), (1, 0), (1, 1), (0, 1),
        ];
        proof {
            assert(forall|i: int| 0 <= i < 8 ==> r@[i] == mesh_uv(i));
        }
        r
    }
}

/// The twelve edges of a box, as pairs of corner indices: the four edges of
/// the `z == min.z` face, the four of the `z == max.z` face, then the four
/// vertical edges joining them.
pub open spec fn box_edges_spec() -> Seq<(usize, usize)> {
    seq![
        (0usize, 1usize), (1usize, 2usize), (2usize, 3usize), (3usize, 0usize),
        (4usize, 5usize), (5usize, 6usize), (6usize, 7usize), (7usize, 4usize),
        (0usize, 4usize), (1usize, 5usize), (2usize, 6usize), (3usize, 7usize),
    ]
}

/// The corner-index pairs of a box's twelve edges, for drawing its outline;
/// every index is below eight, so the pairs index into `extremes`.
pub fn box_edges() -> (r: Vec<(usize, usize)>)
    ensures
        r@ == box_edges_spec(),
        r@.len() == 12,
        forall|i: int| 0 <= i < r@.len() ==> (#[trigger] r@[i]).0 < 8 && r@[i].1 < 8,
{
    let r: Vec<(usize, usize)> = vec![
        (0, 1), (1, 2), (2, 3), (3, 0),
        (4, 5), (5, 6), (6, 7), (7, 4),
        (0, 4), (1, 5), (2, 6), (3, 7),
    ];
    proof {
        assert(r@ =~= box_edges_spec());
    }
    r
}

/// Every corner of a room with ordered bounds lies inside the room itself.
pub proof fn lemma_corners_inside(r: Room)
    requires
        r.min.le(r.max),
    ensures
        forall|i: int| 0 <= i < 8 ==> point_inside_spec(r, corner(r, i)),
{
}

/// A count of points inside never exceeds the number of points.
pub proof fn lemma_count_le_len(r: Room, s: Seq<Point>)
    ensures
        0 <= count_inside_spec(r, s) <= s.len(),
    decreases s.len(),
{
    if s.len() > 0 {
        lemma_count_le_len(r, s.drop_last());
    }
}

/// When every point is inside, the count is the number of points.
pub proof fn lemma_count_all_inside(r: Room, s: Seq<Point>)
    requires
        forall|i: int| 0 <= i < s.len() ==> point_inside_spec(r, s[i]),
    ensures
        count_inside_spec(r, s) == s.len(),
    decreases s.len(),
{
    if s.len() > 0 {
        lemma_count_all_inside(r, s.drop_last());
    }
}

/// A point outside keeps the count below the number of points.
pub proof fn lemma_count_lt_if_missing(r: Room, s: Seq<Point>, j: int)
    requires
        0 <= j < s.len(),
        !point_inside_spec(r, s[j]),
    ensures
        count_inside_spec(r, s) < s.len(),
    decreases s.len(),
{
    lemma_count_le_len(r, s.drop_last());
    if j < s.len() - 1 {
        lemma_count_lt_if_missing(r, s.drop_last(), j);
    }
}

/// A point inside makes the count positive.
pub proof fn lemma_count_pos_if_present(r: Room, s: Seq<Point>, j: int)
    requires
        0 <= j < s.len(),
        point_inside_spec(r, s[j]),
    ensures
        count_inside_spec(r, s) >= 1,
    decreases s.len(),
{
    lemma_count_le_len(r, s.drop_last());
    if j < s.len() - 1 {
        lemma_count_pos_if_present(r, s.drop_last(), j);
    }
}

/// Two rooms with the same ordered bounds classify as `Identical`.
pub proof fn lemma_intersection_identical(left: Room, right: Room)
    requires
        left.min == right.min,
        left.max == right.max,
        left.min.le(left.max),
    ensures
        intersection_spec(left, right) == IntersectionResult::Identical,
{
    lemma_corners_inside(left);
    assert(corners_seq(right) =~= corners_seq(left));
    lemma_count_all_inside(left, corners_seq(right));
    lemma_count_all_inside(right, corners_seq(left));
}

/// When all of the right room's corners lie in the left room and at least
/// one of the left room's corners does not lie in the right room, the rooms
/// classify as `LeftEngulfsRight`.
pub proof fn lemma_intersection_left_engulfs(left: Room, right: Room, outside: int)
    requires
        forall|i: int| 0 <= i < 8 ==> point_inside_spec(left, corner(right, i)),
        0 <= outside < 8,
        !point_inside_spec(right, corner(left, outside)),
    ensures
        intersection_spec(left, right) == IntersectionResult::LeftEngulfsRight,
{
    lemma_count_all_inside(left, corners_seq(right));
    lemma_count_lt_if_missing(right, corners_seq(left), outside);
}

/// Rooms with ordered bounds separated along some axis classify as
/// `Disjoint`: no corner of either lies in the other.
pub proof fn lemma_intersection_separated(left: Room, right: Room)
    requires
        left.min.le(left.max),
        right.min.le(right.max),
        left.max.x < right.min.x || right.max.x < left.min.x
            || left.max.y < right.min.y || right.max.y < left.min.y
            || left.max.z < right.min.z || right.max.z < left.min.z,
    ensures
        intersection_spec(left, right) == IntersectionResult::Disjoint,
{
    assert forall|i: int| 0 <= i < 8 implies !point_inside_spec(
        left, corners_seq(right)[i]) by {
        assert(corners_seq(right)[i] == corner(right, i));
    }
    assert forall|i: int| 0 <= i < 8 implies !point_inside_spec(
        right, corners_seq(left)[i]) by {
        assert(corners_seq(left)[i] == corner(left, i));
    }
    lemma_count_none_inside(left, corners_seq(right));
    lemma_count_none_inside(right, corners_seq(left));
}

/// When no point is inside, the count is zero.
pub proof fn lemma_count_none_inside(r: Room, s: Seq<Point>)
    requires
        forall|i: int| 0 <= i < s.len() ==> !point_inside_spec(r, s[i]),
    ensures
        count_inside_spec(r, s) == 0,
    decreases s.len(),
{
    if s.len() > 0 {
        lemma_count_none_inside(r, s.drop_last());
    }
}

impl Default for Room {
    /// A unit-cube room at the origin.
    fn default() -> (r: Room)
        ensures
            r.min == (Point { x: 0i64, y: 0i64, z: 0i64 }),
            r.max == (Point { x: UNIT, y: UNIT, z: UNIT }),
            r.engulfing is None,
    {
        Room::new(Point { x: 0, y: 0, z: 0 }, Point { x: UNIT, y: UNIT, z: UNIT })
    }
}

} // verus!
