use vstd::arithmetic::div_mod::{
    lemma_div_is_ordered, lemma_div_multiples_vanish, lemma_fundamental_div_mod,
    lemma_mod_bound,
};
use vstd::prelude::*;

verus! {

/// Fixed-point subunits per world unit. A world coordinate of one unit is
/// stored as the integer `SCALE`; a quarter unit as `SCALE / 4`, and so on.
pub const SCALE: i64 = 10_000;

/// Largest coordinate magnitude (in subunits) of a stored box, such as a
/// level collider or an entity hitbox at its current position.
pub const COORD_LIMIT: i64 = 100_000_000_000_000;

/// Largest coordinate magnitude (in subunits) accepted by the contact test.
/// It is four times `COORD_LIMIT` so that a box that was pushed out of a
/// collider during resolution can be tested again without leaving the range.
pub const CONTACT_LIMIT: i64 = 400_000_000_000_000;

/// A 2D vector or point in fixed-point world coordinates.
#[derive(Clone, Copy, PartialEq, Eq, Structural, Debug)]
pub struct Vec2 {
    pub x: i64,
    pub y: i64,
}

/// An axis-aligned bounding box given by its minimum and maximum corners.
#[derive(Clone, Copy, PartialEq, Eq, Structural, Debug)]
pub struct Aabb {
    pub min: Vec2,
    pub max: Vec2,
}

/// Result of a contact test: whether the boxes overlap and, if so, the
/// minimum-translation vector split into a unit axis direction (`min_trans`)
/// and a scalar depth (`penetration`).
#[derive(Clone, Copy, PartialEq, Eq, Structural, Debug)]
pub struct AabbContact {
    pub intersects: bool,
    pub penetration: i64,
    pub min_trans: Vec2,
}

pub open spec fn abs_i(v: int) -> int {
    if v >= 0 {
        v
    } else {
        -v
    }
}

pub open spec fn sign_i(v: int) -> int {
    if v >= 0 {
        1int
    } else {
        -1int
    }
}

pub open spec fn in_range(v: int, limit: int) -> bool {
    -limit <= v <= limit
}

impl Vec2 {
    pub open spec fn in_limit(self, limit: int) -> bool {
        in_range(self.x as int, limit) && in_range(self.y as int, limit)
    }
}

impl Aabb {
    pub open spec fn in_limit(self, limit: int) -> bool {
        self.min.in_limit(limit) && self.max.in_limit(limit)
    }

    /// The minimum corner lies at or below the maximum corner on both axes.
    pub open spec fn ordered(self) -> bool {
        self.min.x <= self.max.x && self.min.y <= self.max.y
    }
}

// ------------------------------------------------------------------
// Separating-axis model, one axis at a time.
//
// On one axis the boxes span [min_a, max_a] and [min_b, max_b]. The two
// one-sided overlaps are d0 = max_b - min_a and d1 = max_a - min_b; the
// intervals are separated exactly when one of them is not positive.
// ------------------------------------------------------------------

pub open spec fn axis_separated(min_a: int, max_a: int, min_b: int, max_b: int) -> bool {
    max_b - min_a <= 0 || max_a - min_b <= 0
}

/// Signed overlap on one axis: the smaller one-sided overlap, negated when the
/// push has to go toward positive coordinates. Meaningful only when the axis
/// is not separated, in which case it is never zero.
pub open spec fn axis_overlap(min_a: int, max_a: int, min_b: int, max_b: int) -> int {
    let d0 = max_b - min_a;
    let d1 = max_a - min_b;
    if d0 < d1 {
        d0
    } else {
        -d1
    }
}

/// Penetration depth reported for an overlap of magnitude `o`: the depth is
/// inflated by a thousandth so that applying the correction leaves the boxes
/// separated rather than exactly touching.
pub open spec fn inflate(o: int) -> int {
    o * 1001 / 1000
}

// ------------------------------------------------------------------
// Box-level model. The second box is considered translated by (dx, dy),
// which lets the same functions describe a box that moved during
// collision resolution without rebuilding it.
// ------------------------------------------------------------------

pub open spec fn overlap_x_at(a: Aabb, b: Aabb, dx: int) -> int {
    axis_overlap(a.min.x as int, a.max.x as int, b.min.x + dx, b.max.x + dx)
}

pub open spec fn overlap_y_at(a: Aabb, b: Aabb, dy: int) -> int {
    axis_overlap(a.min.y as int, a.max.y as int, b.min.y + dy, b.max.y + dy)
}

pub open spec fn separated_at(a: Aabb, b: Aabb, dx: int, dy: int) -> bool {
    axis_separated(a.min.x as int, a.max.x as int, b.min.x + dx, b.max.x + dx)
        || axis_separated(a.min.y as int, a.max.y as int, b.min.y + dy, b.max.y + dy)
}

pub open spec fn separated(a: Aabb, b: Aabb) -> bool {
    separated_at(a, b, 0, 0)
}

/// The minimum-translation axis is the x axis exactly when the x overlap is
/// no larger in magnitude than the y overlap (ties keep the x axis).
pub open spec fn picks_x_at(a: Aabb, b: Aabb, dx: int, dy: int) -> bool {
    abs_i(overlap_x_at(a, b, dx)) <= abs_i(overlap_y_at(a, b, dy))
}

pub open spec fn penetration_at(a: Aabb, b: Aabb, dx: int, dy: int) -> int {
    if picks_x_at(a, b, dx, dy) {
        inflate(abs_i(overlap_x_at(a, b, dx)))
    } else {
        inflate(abs_i(overlap_y_at(a, b, dy)))
    }
}

pub open spec fn normal_x_at(a: Aabb, b: Aabb, dx: int, dy: int) -> int {
    if picks_x_at(a, b, dx, dy) {
        sign_i(overlap_x_at(a, b, dx))
    } else {
        0int
    }
}

pub open spec fn normal_y_at(a: Aabb, b: Aabb, dx: int, dy: int) -> int {
    if picks_x_at(a, b, dx, dy) {
        0int
    } else {
        sign_i(overlap_y_at(a, b, dy))
    }
}

pub open spec fn min_i(a: int, b: int) -> int {
    if a < b {
        a
    } else {
        b
    }
}

pub open spec fn max_i(a: int, b: int) -> int {
    if a < b {
        b
    } else {
        a
    }
}

/// Overlap with every interval boundary taken exclusively: one interval's
/// lower bound has to lie strictly inside the other interval, on both axes.
/// The corners of each box may come in either order.
pub open spec fn intersects_strictly(a: Aabb, b: Aabb) -> bool {
    let s_min_x = min_i(a.min.x as int, a.max.x as int);
    let s_max_x = max_i(a.min.x as int, a.max.x as int);
    let o_min_x = min_i(b.min.x as int, b.max.x as int);
    let o_max_x = max_i(b.min.x as int, b.max.x as int);
    let s_min_y = min_i(a.min.y as int, a.max.y as int);
    let s_max_y = max_i(a.min.y as int, a.max.y as int);
    let o_min_y = min_i(b.min.y as int, b.max.y as int);
    let o_max_y = max_i(b.min.y as int, b.max.y as int);
    ((s_min_x < o_min_x && o_min_x < s_max_x) || (o_min_x < s_min_x && s_min_x < o_max_x))
        && ((s_min_y < o_min_y && o_min_y < s_max_y) || (o_min_y < s_min_y && s_min_y < o_max_y))
}

/// The contact reported for a pair of boxes that do not overlap.
pub open spec fn empty_contact() -> AabbContact {
    AabbContact { intersects: false, penetration: 0, min_trans: Vec2 { x: 0, y: 0 } }
}

impl AabbContact {
    /// Contact of two boxes that do not overlap.
    pub fn empty() -> (r: AabbContact)
        ensures
            r == empty_contact(),
    {
        AabbContact { intersects: false, penetration: 0, min_trans: Vec2 { x: 0, y: 0 } }
    }

    /// Contact of two overlapping boxes.
    pub fn new(penetration: i64, min_trans: Vec2) -> (r: AabbContact)
        ensures
            r.intersects == true,
            r.penetration == penetration,
            r.min_trans == min_trans,
    {
        AabbContact { intersects: true, penetration, min_trans }
    }
}

impl Aabb {
    pub fn new(min: Vec2, max: Vec2) -> (r: Aabb)
        ensures
            r.min == min,
            r.max == max,
    {
        Aabb { min, max }
    }

    /// Separating-axis contact test between two axis-aligned boxes.
    ///
    /// The boxes overlap exactly when both axes have positive overlap in both
    /// directions; the reported minimum-translation vector lies along the axis
    /// of smaller overlap (the x axis on a tie), points from this box toward
    /// the side on which `other` sticks out, and its depth is the overlap
    /// inflated by a thousandth.
    pub fn check_contact(&self, other: &Aabb) -> (r: AabbContact)
        requires
            self.in_limit(CONTACT_LIMIT as int),
            other.in_limit(CONTACT_LIMIT as int),
        ensures
            r.intersects == !separated(*self, *other),
            r.penetration >= 0,
            separated(*self, *other) ==> r == empty_contact(),
            !separated(*self, *other) ==> r.penetration as int == penetration_at(
                *self,
                *other,
                0,
                0,
            ),
            !separated(*self, *other) ==> r.min_trans.x as int == normal_x_at(*self, *other, 0, 0)
                && r.min_trans.y as int == normal_y_at(*self, *other, 0, 0),
    {
        let ox = match Self::check_sat_axis(self.min.x, self.max.x, other.min.x, other.max.x) {
            Some(o) => o,
            None => {
                return AabbContact::empty();
            },
        };
        let oy = match Self::check_sat_axis(self.min.y, self.max.y, other.min.y, other.max.y) {
            Some(o) => o,
            None => {
                return AabbContact::empty();
            },
        };
        let ax = if ox >= 0 {
            ox
        } else {
            -ox
        };
        let ay = if oy >= 0 {
            oy
        } else {
            -oy
        };
        if ax <= ay {
            let nx: i64 = if ox >= 0 {
                1
            } else {
                -1
            };
            AabbContact::new(ax * 1001 / 1000, Vec2 { x: nx, y: 0 })
        } else {
            let ny: i64 = if oy >= 0 {
                1
            } else {
                -1
            };
            AabbContact::new(ay * 1001 / 1000, Vec2 { x: 0, y: ny })
        }
    }

    /// Boundary-exclusive overlap test between two boxes whose corners may be
    /// given in either order; each pair of corners is sorted first. Boxes that
    /// merely share an edge, or whose minima coincide on an axis, do not count
    /// as intersecting.
    pub fn intersects(&self, other: &Aabb) -> (r: bool)
        ensures
            r == intersects_strictly(*self, *other),
    {
        let (s_min_x, s_max_x) = if self.min.x < self.max.x {
            (self.min.x, self.max.x)
        } else {
            (self.max.x, self.min.x)
        };
        let (o_min_x, o_max_x) = if other.min.x < other.max.x {
            (other.min.x, other.max.x)
        } else {
            (other.max.x, other.min.x)
        };
        let (s_min_y, s_max_y) = if self.min.y < self.max.y {
            (self.min.y, self.max.y)
        } else {
            (self.max.y, self.min.y)
        };
        let (o_min_y, o_max_y) = if other.min.y < other.max.y {
            (other.min.y, other.max.y)
        } else {
            (other.max.y, other.min.y)
        };

        let intersect_x0 = s_min_x < o_min_x && o_min_x < s_max_x;
        let intersect_x1 = o_min_x < s_min_x && s_min_x < o_max_x;

        let intersect_y0 = s_min_y < o_min_y && o_min_y < s_max_y;
        let intersect_y1 = o_min_y < s_min_y && s_min_y < o_max_y;

        (intersect_x0 || intersect_x1) && (intersect_y0 || intersect_y1)
    }

    /// One axis of the separating-axis test: `None` when the projections onto
    /// the axis are separated, otherwise the signed overlap.
    fn check_sat_axis(min_a: i64, max_a: i64, min_b: i64, max_b: i64) -> (r: Option<i64>)
        requires
            in_range(min_a as int, CONTACT_LIMIT as int),
            in_range(max_a as int, CONTACT_LIMIT as int),
            in_range(min_b as int, CONTACT_LIMIT as int),
            in_range(max_b as int, CONTACT_LIMIT as int),
        ensures
            r is None <==> axis_separated(min_a as int, max_a as int, min_b as int, max_b as int),
            r matches Some(o) ==> o as int == axis_overlap(
                min_a as int,
                max_a as int,
                min_b as int,
                max_b as int,
            ),
    {
        let d0 = max_b - min_a;
        let d1 = max_a - min_b;
        if d0 <= 0 || d1 <= 0 {
            return None;
        }
        if d0 < d1 {
            Some(d0)
        } else {
            Some(-d1)
        }
    }
}

// ------------------------------------------------------------------
// Facing direction of a moving entity.
// ------------------------------------------------------------------

/// Velocity magnitude (in subunits) below which sideways movement does not
/// change the facing direction.
pub const VEL_THRESHOLD: i64 = 1;

#[derive(Clone, Copy, PartialEq, Eq, Structural, Debug)]
pub enum Direction {
    Up,
    Down,
    Left,
    Right,
}

/// Facing direction for a velocity: sideways when the horizontal component
/// clears the threshold and dominates, otherwise up for upward motion past
/// the threshold and down for everything else.
pub open spec fn direction_of(v: Vec2) -> Direction {
    if v.x < -VEL_THRESHOLD && abs_i(v.x as int) > abs_i(v.y as int) {
        Direction::Left
    } else if v.x > VEL_THRESHOLD && abs_i(v.x as int) > abs_i(v.y as int) {
        Direction::Right
    } else if v.y < -VEL_THRESHOLD {
        Direction::Up
    } else {
        Direction::Down
    }
}

impl Direction {
    pub fn from_velocity(v: Vec2) -> (r: Direction)
        requires
            v.in_limit(COORD_LIMIT as int),
        ensures
            r == direction_of(v),
    {
        let ax = if v.x >= 0 {
            v.x
        } else {
            -v.x
        };
        let ay = if v.y >= 0 {
            v.y
        } else {
            -v.y
        };
        if v.x < -VEL_THRESHOLD && ax > ay {
            return Direction::Left;
        }
        if v.x > VEL_THRESHOLD && ax > ay {
            return Direction::Right;
        }
        if v.y < -VEL_THRESHOLD {
            Direction::Up
        } else {
            Direction::Down
        }
    }
}

// ------------------------------------------------------------------
// Laws of the contact test.
// ------------------------------------------------------------------

/// The inflated penetration never falls below the overlap it comes from.
pub proof fn lemma_inflate_ge(o: int)
    requires
        o >= 0,
    ensures
        inflate(o) >= o,
{
    lemma_div_is_ordered(o * 1000, o * 1001, 1000);
    lemma_div_multiples_vanish(o, 1000);
}

/// The inflated penetration exceeds the overlap by at most a thousandth.
pub proof fn lemma_inflate_le(o: int)
    requires
        o >= 0,
    ensures
        inflate(o) <= o + o / 1000,
{
    lemma_fundamental_div_mod(o * 1001, 1000);
    lemma_mod_bound(o * 1001, 1000);
    lemma_fundamental_div_mod(o, 1000);
    lemma_mod_bound(o, 1000);
}

/// Swapping the boxes swaps the roles of the two one-sided overlaps on each
/// axis, so the overlap magnitudes agree and the same axis is picked.
pub proof fn lemma_overlap_swap(a: Aabb, b: Aabb)
    requires
        !separated(a, b),
    ensures
        !separated(b, a),
        abs_i(overlap_x_at(b, a, 0)) == abs_i(overlap_x_at(a, b, 0)),
        abs_i(overlap_y_at(b, a, 0)) == abs_i(overlap_y_at(a, b, 0)),
        picks_x_at(b, a, 0, 0) == picks_x_at(a, b, 0, 0),
{
}

/// Law: the contact test is symmetric in its penetration depth. For boxes
/// that overlap, testing them in either order reports the same depth.
pub proof fn lemma_contact_penetration_symmetric(a: Aabb, b: Aabb)
    requires
        !separated(a, b),
    ensures
        !separated(b, a),
        penetration_at(b, a, 0, 0) == penetration_at(a, b, 0, 0),
{
    lemma_overlap_swap(a, b);
}

/// Law: for overlapping boxes the reported normals are antiparallel, as long
/// as the two one-sided overlaps on the picked axis differ (when they are
/// equal, both orders push toward negative coordinates on that axis).
pub proof fn lemma_contact_normals_antiparallel(a: Aabb, b: Aabb)
    requires
        !separated(a, b),
        picks_x_at(a, b, 0, 0) ==> b.max.x - a.min.x != a.max.x - b.min.x,
        !picks_x_at(a, b, 0, 0) ==> b.max.y - a.min.y != a.max.y - b.min.y,
    ensures
        !separated(b, a),
        normal_x_at(b, a, 0, 0) == -normal_x_at(a, b, 0, 0),
        normal_y_at(b, a, 0, 0) == -normal_y_at(a, b, 0, 0),
{
    lemma_overlap_swap(a, b);
}

/// Law: applying the reported correction separates the boxes. If `b2` is `b`
/// translated by `-normal * penetration` (the correction that collision
/// resolution subtracts from the entity position), then `b2` no longer
/// overlaps `a`.
pub proof fn lemma_separation_guarantee(a: Aabb, b: Aabb, b2: Aabb)
    requires
        !separated(a, b),
        b2.min.x as int == b.min.x - normal_x_at(a, b, 0, 0) * penetration_at(a, b, 0, 0),
        b2.max.x as int == b.max.x - normal_x_at(a, b, 0, 0) * penetration_at(a, b, 0, 0),
        b2.min.y as int == b.min.y - normal_y_at(a, b, 0, 0) * penetration_at(a, b, 0, 0),
        b2.max.y as int == b.max.y - normal_y_at(a, b, 0, 0) * penetration_at(a, b, 0, 0),
    ensures
        separated(a, b2),
{
    if picks_x_at(a, b, 0, 0) {
        lemma_inflate_ge(abs_i(overlap_x_at(a, b, 0)));
    } else {
        lemma_inflate_ge(abs_i(overlap_y_at(a, b, 0)));
    }
}

} // verus!
