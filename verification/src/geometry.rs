use vstd::prelude::*;
use crate::params::CHAR_HALF_EXTENT;
use crate::params::POS_LIMIT;
use crate::params::POS_TICK_STEP;

verus! {

/// A planar quantity in fixed-point: positions in micro-units,
/// velocities in milli-units per second.
#[derive(Clone, Copy, Debug, PartialEq, Eq, Structural)]
pub struct Vec2Fix {
    pub x: i64,
    pub y: i64,
}

/// The edge of a collider box through which the character is judged to
/// be touching it.
#[derive(Clone, Copy, Debug, PartialEq, Eq, Structural)]
pub enum Side {
    Left,
    Right,
    Top,
    Bottom,
}

/// An axis-aligned box given by its center and half-extent, both in
/// micro-units.
#[derive(Clone, Copy, Debug, PartialEq, Eq, Structural)]
pub struct Aabb {
    pub center: Vec2Fix,
    pub half: Vec2Fix,
}

pub open spec fn clamp_spec(v: int, lo: int, hi: int) -> int {
    if v < lo {
        lo
    } else if v > hi {
        hi
    } else {
        v
    }
}

pub open spec fn abs_spec(v: int) -> int {
    if v < 0 {
        -v
    } else {
        v
    }
}

impl Aabb {
    /// Centers stay within `POS_LIMIT` and half-extents are nonnegative
    /// and bounded, so that every edge coordinate fits in `i64`.
    pub open spec fn wf(self) -> bool {
        &&& -POS_LIMIT <= self.center.x <= POS_LIMIT
        &&& -POS_LIMIT <= self.center.y <= POS_LIMIT
        &&& 0 <= self.half.x <= POS_LIMIT
        &&& 0 <= self.half.y <= POS_LIMIT
    }

    pub open spec fn min_x(self) -> int {
        self.center.x - self.half.x
    }

    pub open spec fn max_x(self) -> int {
        self.center.x + self.half.x
    }

    pub open spec fn min_y(self) -> int {
        self.center.y - self.half.y
    }

    pub open spec fn max_y(self) -> int {
        self.center.y + self.half.y
    }

    pub fn new(cx: i64, cy: i64, hx: i64, hy: i64) -> (b: Aabb)
        requires
            -POS_LIMIT <= cx <= POS_LIMIT,
            -POS_LIMIT <= cy <= POS_LIMIT,
            0 <= hx <= POS_LIMIT,
            0 <= hy <= POS_LIMIT,
        ensures
            b.center.x == cx,
            b.center.y == cy,
            b.half.x == hx,
            b.half.y == hy,
            b.wf(),
    {
        Aabb { center: Vec2Fix { x: cx, y: cy }, half: Vec2Fix { x: hx, y: hy } }
    }
}

/// Whether the character's square box centered at `(px, py)` overlaps
/// the collider box `b`; touching edges count as an overlap.
pub open spec fn char_intersects(px: int, py: int, b: Aabb) -> bool {
    &&& px - CHAR_HALF_EXTENT <= b.max_x()
    &&& px + CHAR_HALF_EXTENT >= b.min_x()
    &&& py - CHAR_HALF_EXTENT <= b.max_y()
    &&& py + CHAR_HALF_EXTENT >= b.min_y()
}

/// The point of `b` nearest to `(px, py)`, one coordinate at a time.
pub open spec fn closest_x_spec(b: Aabb, px: int) -> int {
    clamp_spec(px, b.min_x(), b.max_x())
}

pub open spec fn closest_y_spec(b: Aabb, py: int) -> int {
    clamp_spec(py, b.min_y(), b.max_y())
}

/// Classifies a contact from the offset between the character's center
/// and the nearest point of the collider: the axis with the larger
/// offset magnitude decides, ties going to the vertical sides.
pub open spec fn side_of_spec(ox: int, oy: int) -> Side {
    if abs_spec(ox) > abs_spec(oy) {
        if ox < 0 {
            Side::Left
        } else {
            Side::Right
        }
    } else if oy > 0 {
        Side::Top
    } else {
        Side::Bottom
    }
}

/// The contact between the character's box centered at `(px, py)` and
/// the collider `b`: the touched side if the boxes overlap, nothing
/// otherwise.
pub open spec fn contact_spec(px: int, py: int, b: Aabb) -> Option<Side> {
    if char_intersects(px, py, b) {
        Option::Some(
            side_of_spec(px - closest_x_spec(b, px), py - closest_y_spec(b, py)),
        )
    } else {
        Option::None
    }
}

pub fn clamp_i64(v: i64, lo: i64, hi: i64) -> (r: i64)
    requires
        lo <= hi,
    ensures
        r == clamp_spec(v as int, lo as int, hi as int),
{
    if v < lo {
        lo
    } else if v > hi {
        hi
    } else {
        v
    }
}

/// Tests the character's box centered at `(px, py)` against the
/// collider `b` and classifies the side of an overlap.
pub fn contact(px: i64, py: i64, b: &Aabb) -> (r: Option<Side>)
    requires
        b.wf(),
        -POS_LIMIT - POS_TICK_STEP <= px <= POS_LIMIT + POS_TICK_STEP,
        -POS_LIMIT - POS_TICK_STEP <= py <= POS_LIMIT + POS_TICK_STEP,
    ensures
        r == contact_spec(px as int, py as int, *b),
{
    let b_min_x: i64 = b.center.x - b.half.x;
    let b_max_x: i64 = b.center.x + b.half.x;
    let b_min_y: i64 = b.center.y - b.half.y;
    let b_max_y: i64 = b.center.y + b.half.y;
    let overlap: bool = px - CHAR_HALF_EXTENT <= b_max_x && px + CHAR_HALF_EXTENT >= b_min_x
        && py - CHAR_HALF_EXTENT <= b_max_y && py + CHAR_HALF_EXTENT >= b_min_y;
    if !overlap {
        return Option::None;
    }
    let ox: i64 = px - clamp_i64(px, b_min_x, b_max_x);
    let oy: i64 = py - clamp_i64(py, b_min_y, b_max_y);
    let ox_abs: i64 = if ox < 0 { -ox } else { ox };
    let oy_abs: i64 = if oy < 0 { -oy } else { oy };
    let side: Side = if ox_abs > oy_abs {
        if ox < 0 {
            Side::Left
        } else {
            Side::Right
        }
    } else if oy > 0 {
        Side::Top
    } else {
        Side::Bottom
    };
    Option::Some(side)
}

/// Law: a pure approach touches the matching side.  When the
/// character's center lies straight out from one face of an
/// overlapping collider — beside it at a height within the box, or
/// above or below it at a width within the box — the contact is
/// classified as that face.
pub proof fn lemma_pure_approach(px: int, py: int, b: Aabb)
    requires
        b.wf(),
        char_intersects(px, py, b),
    ensures
        px < b.min_x() && b.min_y() <= py <= b.max_y() ==> contact_spec(px, py, b)
            == Option::Some(Side::Left),
        px > b.max_x() && b.min_y() <= py <= b.max_y() ==> contact_spec(px, py, b)
            == Option::Some(Side::Right),
        py > b.max_y() && b.min_x() <= px <= b.max_x() ==> contact_spec(px, py, b)
            == Option::Some(Side::Top),
        py < b.min_y() && b.min_x() <= px <= b.max_x() ==> contact_spec(px, py, b)
            == Option::Some(Side::Bottom),
{
    if px > b.max_x() && b.min_y() <= py <= b.max_y() {
        assert(px - closest_x_spec(b, px) == px - b.max_x());
        assert(py - closest_y_spec(b, py) == 0);
    }
    if py > b.max_y() && b.min_x() <= px <= b.max_x() {
        assert(px - closest_x_spec(b, px) == 0);
        assert(py - closest_y_spec(b, py) == py - b.max_y());
    }
}

/// Law: side classification is symmetric and decided by the dominant
/// axis.  An approach whose offset is larger in magnitude along the
/// horizontal axis yields Left or Right by the sign of that offset; one
/// larger or equal along the vertical axis yields Top or Bottom by the
/// sign of that offset; and mirroring the offset along an axis mirrors
/// the side chosen on that axis.
pub proof fn lemma_side_classification(ox: int, oy: int)
    ensures
        abs_spec(ox) > abs_spec(oy) && ox < 0 ==> side_of_spec(ox, oy) is Left,
        abs_spec(ox) > abs_spec(oy) && ox >= 0 ==> side_of_spec(ox, oy) is Right,
        abs_spec(ox) <= abs_spec(oy) && oy > 0 ==> side_of_spec(ox, oy) is Top,
        abs_spec(ox) <= abs_spec(oy) && oy <= 0 ==> side_of_spec(ox, oy) is Bottom,
        side_of_spec(ox, oy) is Left <==> side_of_spec(-ox, oy) is Right,
        oy != 0 ==> (side_of_spec(ox, oy) is Top <==> side_of_spec(ox, -oy) is Bottom),
{
}

} // verus!
