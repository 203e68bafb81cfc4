//! Re-launch trajectories for the ball. A launch direction is decided by a
//! single random draw: the horizontal component is taken from
//! `[-speed, speed]` and the vertical component is the largest non-negative
//! integer that keeps the overall magnitude at most `speed`. Every launch
//! therefore points into the upper half-plane, the directions a launch
//! angle in `[0, π)` would give, and its magnitude comes out within one
//! grid step of `speed`.

use vstd::prelude::*;

use crate::game::Velocity;
use crate::geometry::{Vec2i, MAX_DIM};

verus! {

/// The integer square root, defined by counting up: the largest `r` with
/// `r * r <= n` (and `0` for negative `n`).
pub open spec fn spec_isqrt(n: int) -> int
    decreases n,
{
    if n <= 0 {
        0
    } else {
        let r = spec_isqrt(n - 1);
        if (r + 1) * (r + 1) <= n {
            r + 1
        } else {
            r
        }
    }
}

/// `spec_isqrt` is what its name says: the largest integer whose square is
/// at most `n`.
pub proof fn lemma_spec_isqrt(n: int)
    requires
        n >= 0,
    ensures
        0 <= spec_isqrt(n),
        spec_isqrt(n) * spec_isqrt(n) <= n,
        (spec_isqrt(n) + 1) * (spec_isqrt(n) + 1) > n,
    decreases n,
{
    if n > 0 {
        lemma_spec_isqrt(n - 1);
        let r = spec_isqrt(n - 1);
        if (r + 1) * (r + 1) <= n {
            assert((r + 2) * (r + 2) > n) by (nonlinear_arith)
                requires
                    r >= 0,
                    (r + 1) * (r + 1) > n - 1,
            ;
        }
    }
}

/// Two integers that both bracket `n` between their square and the next
/// square are the same integer.
proof fn lemma_isqrt_unique(n: int, a: int, b: int)
    requires
        0 <= a,
        0 <= b,
        a * a <= n,
        (a + 1) * (a + 1) > n,
        b * b <= n,
        (b + 1) * (b + 1) > n,
    ensures
        a == b,
{
    assert(a == b) by (nonlinear_arith)
        requires
            0 <= a,
            0 <= b,
            a * a <= n,
            (a + 1) * (a + 1) > n,
            b * b <= n,
            (b + 1) * (b + 1) > n,
    ;
}

/// The integer square root on machine integers, by bisection.
pub fn isqrt(n: i64) -> (r: i64)
    requires
        0 <= n < 0x4000_0000_0000_0000,
    ensures
        r == spec_isqrt(n as int),
        0 <= r,
        r * r <= n,
        (r + 1) * (r + 1) > n,
{
    let mut lo: i64 = 0;
    let mut hi: i64 = 0x8000_0000;
    while lo + 1 < hi
        invariant
            0 <= lo < hi <= 0x8000_0000,
            lo * lo <= n < 0x4000_0000_0000_0000,
            hi * hi > n,
        decreases hi - lo,
    {
        let mid = lo + (hi - lo) / 2;
        proof {
            assert(mid * mid < 0x4000_0000_0000_0000) by (nonlinear_arith)
                requires
                    0 <= mid < 0x8000_0000,
            ;
        }
        if mid * mid <= n {
            lo = mid;
        } else {
            hi = mid;
        }
    }
    proof {
        assert((lo + 1) * (lo + 1) > n) by (nonlinear_arith)
            requires
                lo + 1 >= hi,
                hi > 0,
                hi * hi > n,
        ;
        lemma_spec_isqrt(n as int);
        lemma_isqrt_unique(n as int, lo as int, spec_isqrt(n as int));
    }
    lo
}

/// The horizontal launch component drawn from `r`: `r` reduced into
/// `[-speed, speed]`.
pub open spec fn draw_vx(speed: int, r: u32) -> int {
    (r as int) % (2 * speed + 1) - speed
}

/// The launch velocity decided by the draw `r`: horizontal component
/// `draw_vx`, vertical component the largest non-negative integer keeping
/// the magnitude at most `speed`.
pub open spec fn spec_launch_velocity(speed: int, r: u32) -> Velocity {
    let vx = draw_vx(speed, r);
    let vy = spec_isqrt(speed * speed - vx * vx);
    Velocity(Vec2i { x: vx as i64, y: vy as i64 })
}

/// Computes the launch velocity for the draw `r`. The magnitude lands in
/// the band `(speed² - 2·speed, speed²]`, as close to `speed` as the grid
/// allows, and the vertical component is never negative.
pub fn launch_velocity(speed: i64, r: u32) -> (v: Velocity)
    requires
        0 <= speed <= MAX_DIM,
    ensures
        v == spec_launch_velocity(speed as int, r),
        -speed <= v.0.x <= speed,
        0 <= v.0.y <= speed,
        v.0.x * v.0.x + v.0.y * v.0.y <= speed * speed,
        speed * speed < v.0.x * v.0.x + (v.0.y + 1) * (v.0.y + 1),
{
    let span = 2 * speed + 1;
    let vx = (r as i64) % span - speed;
    proof {
        assert(0 <= speed * speed - vx * vx <= speed * speed) by (nonlinear_arith)
            requires
                -speed <= vx <= speed,
        ;
        assert(speed * speed < 0x4000_0000_0000_0000) by (nonlinear_arith)
            requires
                0 <= speed <= MAX_DIM,
        ;
    }
    let d = speed * speed - vx * vx;
    let vy = isqrt(d);
    proof {
        assert(vy <= speed) by (nonlinear_arith)
            requires
                0 <= vy,
                0 <= speed,
                vy * vy <= speed * speed,
        ;
    }
    Velocity(Vec2i { x: vx, y: vy })
}

/// Relies on `rand::random`: one fresh `u32` from the thread-local
/// generator. Nothing is promised of the value; callers state what holds
/// of every outcome.
#[verifier::external_body]
pub(crate) fn random_draw() -> u32 {
    rand::random::<u32>()
}

/// Draws a fresh trajectory for the given speed. Whatever the draw turns
/// out to be, the result is some launch velocity for that speed.
pub fn random_launch_velocity(speed: i64) -> (v: Velocity)
    requires
        0 <= speed <= MAX_DIM,
    ensures
        exists|r: u32| v == spec_launch_velocity(speed as int, r),
        -speed <= v.0.x <= speed,
        0 <= v.0.y <= speed,
        v.0.x * v.0.x + v.0.y * v.0.y <= speed * speed,
        speed * speed < v.0.x * v.0.x + (v.0.y + 1) * (v.0.y + 1),
{
    let r = random_draw();
    let v = launch_velocity(speed, r);
    proof {
        assert(v == spec_launch_velocity(speed as int, r));
    }
    v
}

} // verus!
