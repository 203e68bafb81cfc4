//! Integer 2-D geometry: vectors, viewport, percentage helpers, and the
//! axis-aligned bounding-box overlap test the collision resolver is built on.

use vstd::prelude::*;

verus! {

/// Largest viewport dimension the library accepts.
pub const MAX_DIM: i64 = 0x4000_0000;

/// Largest coordinate magnitude the simulation works with. Positions and
/// velocities are kept within this band so that one tick of arithmetic can
/// never overflow an `i64`.
pub const MAX_COORD: i64 = 0x1_0000_0000_0000;

/// A point or displacement on the integer grid. The origin is the center of
/// the screen, `x` grows to the right and `y` grows upward.
#[derive(Clone, Copy, Debug, PartialEq, Eq, Structural)]
pub struct Vec2i {
    pub x: i64,
    pub y: i64,
}

impl Vec2i {
    /// Both coordinates lie within the band the simulation works in.
    pub open spec fn in_range(self) -> bool {
        -MAX_COORD <= self.x <= MAX_COORD && -MAX_COORD <= self.y <= MAX_COORD
    }

    /// A well-formed extent: non-negative and no larger than a viewport.
    pub open spec fn is_size(self) -> bool {
        0 <= self.x <= MAX_DIM && 0 <= self.y <= MAX_DIM
    }
}

/// An axis-aligned rectangle, stored as its center and its full extent.
#[derive(Clone, Copy, Debug, PartialEq, Eq, Structural)]
pub struct Aabb {
    pub center: Vec2i,
    pub size: Vec2i,
}

/// The size of the playfield. Every spatial constant of the game is a fixed
/// percentage of one of these two dimensions.
#[derive(Clone, Copy, Debug, PartialEq, Eq, Structural)]
pub struct Viewport {
    pub width: i64,
    pub height: i64,
}

impl Viewport {
    pub open spec fn wf(self) -> bool {
        0 < self.width <= MAX_DIM && 0 < self.height <= MAX_DIM
    }
}

/// `pct` percent of `dim`, rounded toward zero.
pub open spec fn percent_of(dim: int, pct: int) -> int {
    dim * pct / 100
}

/// Computes `percent_of` on machine integers.
pub fn percent(dim: i64, pct: i64) -> (r: i64)
    requires
        0 <= dim <= MAX_DIM,
        0 <= pct <= 100,
    ensures
        r == percent_of(dim as int, pct as int),
        0 <= r <= dim,
{
    proof {
        assert(0 <= dim * pct <= MAX_DIM * 100) by (nonlinear_arith)
            requires
                0 <= dim <= MAX_DIM,
                0 <= pct <= 100,
        ;
        assert(0 <= dim * pct / 100 <= dim) by (nonlinear_arith)
            requires
                0 <= dim,
                0 <= pct <= 100,
        ;
    }
    dim * pct / 100
}

/// `v` forced into the closed interval `[lo, hi]`.
pub open spec fn clamped(v: int, lo: int, hi: int) -> int {
    if v < lo {
        lo
    } else if v > hi {
        hi
    } else {
        v
    }
}

/// Which face of box `b` the moving box `a` ran into, or `Inside` when the
/// overlap pins down no single face.
#[derive(Clone, Copy, Debug, PartialEq, Eq, Structural)]
pub enum Collision {
    Left,
    Right,
    Top,
    Bottom,
    Inside,
}

pub open spec fn min_x(pos: Vec2i, size: Vec2i) -> int {
    pos.x - size.x / 2
}

pub open spec fn max_x(pos: Vec2i, size: Vec2i) -> int {
    pos.x + size.x / 2
}

pub open spec fn min_y(pos: Vec2i, size: Vec2i) -> int {
    pos.y - size.y / 2
}

pub open spec fn max_y(pos: Vec2i, size: Vec2i) -> int {
    pos.y + size.y / 2
}

/// The two boxes overlap with positive area.
pub open spec fn aabbs_overlap(a_pos: Vec2i, a_size: Vec2i, b_pos: Vec2i, b_size: Vec2i) -> bool {
    &&& min_x(a_pos, a_size) < max_x(b_pos, b_size)
    &&& max_x(a_pos, a_size) > min_x(b_pos, b_size)
    &&& min_y(a_pos, a_size) < max_y(b_pos, b_size)
    &&& max_y(a_pos, a_size) > min_y(b_pos, b_size)
}

/// The horizontal face of `b` that `a` penetrates, with the penetration
/// depth, when `a` sticks out past exactly one vertical edge of `b`.
pub open spec fn x_face(a_pos: Vec2i, a_size: Vec2i, b_pos: Vec2i, b_size: Vec2i) -> Option<
    (Collision, int),
> {
    if min_x(a_pos, a_size) < min_x(b_pos, b_size) && max_x(a_pos, a_size) > min_x(b_pos, b_size)
        && max_x(a_pos, a_size) < max_x(b_pos, b_size) {
        Some((Collision::Left, max_x(a_pos, a_size) - min_x(b_pos, b_size)))
    } else if min_x(a_pos, a_size) > min_x(b_pos, b_size) && min_x(a_pos, a_size) < max_x(
        b_pos,
        b_size,
    ) && max_x(a_pos, a_size) > max_x(b_pos, b_size) {
        Some((Collision::Right, max_x(b_pos, b_size) - min_x(a_pos, a_size)))
    } else {
        None
    }
}

/// The vertical face of `b` that `a` penetrates, with the penetration depth.
pub open spec fn y_face(a_pos: Vec2i, a_size: Vec2i, b_pos: Vec2i, b_size: Vec2i) -> Option<
    (Collision, int),
> {
    if min_y(a_pos, a_size) < min_y(b_pos, b_size) && max_y(a_pos, a_size) > min_y(b_pos, b_size)
        && max_y(a_pos, a_size) < max_y(b_pos, b_size) {
        Some((Collision::Bottom, max_y(a_pos, a_size) - min_y(b_pos, b_size)))
    } else if min_y(a_pos, a_size) > min_y(b_pos, b_size) && min_y(a_pos, a_size) < max_y(
        b_pos,
        b_size,
    ) && max_y(a_pos, a_size) > max_y(b_pos, b_size) {
        Some((Collision::Top, max_y(b_pos, b_size) - min_y(a_pos, a_size)))
    } else {
        None
    }
}

/// The outcome of the overlap test: `None` when the boxes do not overlap,
/// otherwise the face of `b` with the shallower penetration (the vertical
/// axis wins ties in favor of the horizontal answer), or `Inside` when
/// neither axis pins down a face.
pub open spec fn collide_spec(a_pos: Vec2i, a_size: Vec2i, b_pos: Vec2i, b_size: Vec2i) -> Option<
    Collision,
> {
    if aabbs_overlap(a_pos, a_size, b_pos, b_size) {
        match (x_face(a_pos, a_size, b_pos, b_size), y_face(a_pos, a_size, b_pos, b_size)) {
            (None, None) => Some(Collision::Inside),
            (Some((xc, _)), None) => Some(xc),
            (None, Some((yc, _))) => Some(yc),
            (Some((xc, xd)), Some((yc, yd))) => if yd < xd {
                Some(yc)
            } else {
                Some(xc)
            },
        }
    } else {
        None
    }
}

/// The overlap test on machine integers: which face of `b` the box `a` hit,
/// judged by the shallower penetration axis.
pub fn collide(a_pos: Vec2i, a_size: Vec2i, b_pos: Vec2i, b_size: Vec2i) -> (r: Option<Collision>)
    requires
        a_pos.in_range(),
        b_pos.in_range(),
        a_size.is_size(),
        b_size.is_size(),
    ensures
        r == collide_spec(a_pos, a_size, b_pos, b_size),
{
    let a_min_x = a_pos.x - a_size.x / 2;
    let a_max_x = a_pos.x + a_size.x / 2;
    let a_min_y = a_pos.y - a_size.y / 2;
    let a_max_y = a_pos.y + a_size.y / 2;
    let b_min_x = b_pos.x - b_size.x / 2;
    let b_max_x = b_pos.x + b_size.x / 2;
    let b_min_y = b_pos.y - b_size.y / 2;
    let b_max_y = b_pos.y + b_size.y / 2;
    if a_min_x < b_max_x && a_max_x > b_min_x && a_min_y < b_max_y && a_max_y > b_min_y {
        let xf: Option<(Collision, i64)> = if a_min_x < b_min_x && a_max_x > b_min_x && a_max_x
            < b_max_x {
            Some((Collision::Left, a_max_x - b_min_x))
        } else if a_min_x > b_min_x && a_min_x < b_max_x && a_max_x > b_max_x {
            Some((Collision::Right, b_max_x - a_min_x))
        } else {
            None
        };
        let yf: Option<(Collision, i64)> = if a_min_y < b_min_y && a_max_y > b_min_y && a_max_y
            < b_max_y {
            Some((Collision::Bottom, a_max_y - b_min_y))
        } else if a_min_y > b_min_y && a_min_y < b_max_y && a_max_y > b_max_y {
            Some((Collision::Top, b_max_y - a_min_y))
        } else {
            None
        };
        match (xf, yf) {
            (None, None) => Some(Collision::Inside),
            (Some((xc, _)), None) => Some(xc),
            (None, Some((yc, _))) => Some(yc),
            (Some((xc, xd)), Some((yc, yd))) => if yd < xd {
                Some(yc)
            } else {
                Some(xc)
            },
        }
    } else {
        None
    }
}

} // verus!
