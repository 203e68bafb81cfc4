//! The global guarantees of the simulation, stated once as proof functions
//! and established from the systems' contracts alone.

use vstd::prelude::*;

use crate::game::{
    ball_box, ball_speed, bottom_y_limit, pad_after_event, pad_after_events, spec_bottom_wall,
    spec_left_pad, spec_right_pad, spec_top_wall, top_y_limit, velocity_after_collisions,
    velocity_after_pads, velocity_after_walls, Ball, Pad, PlayerMovementEvent, Velocity,
};
use crate::geometry::{collide_spec, Vec2i, Viewport, MAX_DIM};
use crate::launch::{draw_vx, lemma_spec_isqrt, spec_isqrt, spec_launch_velocity};
use crate::{pad_ok, spec_toggle, GamePlugin};

verus! {

/// The playfield band is well formed on every viewport: it is symmetric
/// about the center line, and wall plus half a pad never eat up more than
/// the upper half of the screen, so the band always contains the starting
/// level `0`.
pub proof fn lemma_limits_ordered(vp: Viewport)
    requires
        vp.wf(),
    ensures
        bottom_y_limit(vp) == -top_y_limit(vp),
        0 <= top_y_limit(vp) <= vp.height / 2,
{
    let h = vp.height as int;
    vstd::arithmetic::div_mod::lemma_fundamental_div_mod(h * 3, 100);
    vstd::arithmetic::div_mod::lemma_fundamental_div_mod(h * 20, 100);
    vstd::arithmetic::div_mod::lemma_fundamental_div_mod(h, 2);
    vstd::arithmetic::div_mod::lemma_fundamental_div_mod(h * 20 / 100, 2);
    assert(0 <= h * 3 / 100 + (h * 20 / 100) / 2 <= h / 2);
}

/// One movement event keeps a sound pad sound: the clamp holds its center
/// inside the playfield band, and nothing but its vertical position moves.
pub proof fn lemma_pad_event_stays_in_band(p: Pad, e: PlayerMovementEvent, vp: Viewport)
    requires
        vp.wf(),
        pad_ok(p, vp),
    ensures
        pad_ok(pad_after_event(p, e, vp), vp),
        pad_after_event(p, e, vp).player == p.player,
        pad_after_event(p, e, vp).size == p.size,
        pad_after_event(p, e, vp).center.x == p.center.x,
        pad_after_event(p, e, vp).collider == p.collider,
{
    lemma_limits_ordered(vp);
}

/// However long the run of movement events — ticks of continuous "up"
/// input included — a pad that starts inside the playfield band stays
/// inside it: its center never passes `top_y_limit` nor `bottom_y_limit`,
/// and only its vertical position ever changes.
pub proof fn lemma_pad_events_stay_in_band(
    p: Pad,
    events: Seq<PlayerMovementEvent>,
    n: int,
    vp: Viewport,
)
    requires
        vp.wf(),
        pad_ok(p, vp),
        0 <= n <= events.len(),
    ensures
        pad_ok(pad_after_events(p, events, n, vp), vp),
        pad_after_events(p, events, n, vp).player == p.player,
        pad_after_events(p, events, n, vp).size == p.size,
        pad_after_events(p, events, n, vp).center.x == p.center.x,
        pad_after_events(p, events, n, vp).collider == p.collider,
    decreases n,
{
    if n > 0 {
        lemma_pad_events_stay_in_band(p, events, n - 1, vp);
        lemma_pad_event_stays_in_band(pad_after_events(p, events, n - 1, vp), events[n - 1], vp);
    }
}

/// Pads whose overlap tests in `[a, n)` all come back `None` leave the
/// velocity where it stood after the first `a`.
proof fn lemma_pads_miss(v0: Velocity, c: Vec2i, s: Vec2i, pads: Seq<Pad>, a: int, n: int)
    requires
        0 <= a <= n <= pads.len(),
        forall|i: int|
            a <= i < n ==> collide_spec(c, s, (#[trigger] pads[i]).center, pads[i].size) is None,
    ensures
        velocity_after_pads(v0, c, s, pads, n) == velocity_after_pads(v0, c, s, pads, a),
    decreases n - a,
{
    if n > a {
        lemma_pads_miss(v0, c, s, pads, a, n - 1);
    }
}

/// Reflection law, wall half: when the ball's box overlaps the top or the
/// bottom wall and every pad test misses, the collision resolver's only
/// effect is to negate the vertical velocity component.
pub proof fn lemma_wall_reflection(b: Ball, pads: Seq<Pad>, vp: Viewport)
    requires
        b.velocity.0.in_range(),
        collide_spec(b.center, ball_box(vp), spec_top_wall(vp).center, spec_top_wall(vp).size)
            is Some || collide_spec(
            b.center,
            ball_box(vp),
            spec_bottom_wall(vp).center,
            spec_bottom_wall(vp).size,
        ) is Some,
        forall|i: int|
            0 <= i < pads.len() ==> collide_spec(
                b.center,
                ball_box(vp),
                (#[trigger] pads[i]).center,
                pads[i].size,
            ) is None,
    ensures
        velocity_after_collisions(b, pads, vp) == Velocity(
            Vec2i { x: b.velocity.0.x, y: (-b.velocity.0.y) as i64 },
        ),
{
    lemma_pads_miss(
        velocity_after_walls(b, vp),
        b.center,
        ball_box(vp),
        pads,
        0,
        pads.len() as int,
    );
}

/// Reflection law, pad half: when the ball misses both walls, hits a
/// vertical face — left or right — of exactly one pad and misses every
/// other, the resolver's only effect is to negate the horizontal
/// component.
pub proof fn lemma_pad_side_reflection(b: Ball, pads: Seq<Pad>, j: int, vp: Viewport)
    requires
        b.velocity.0.in_range(),
        collide_spec(b.center, ball_box(vp), spec_top_wall(vp).center, spec_top_wall(vp).size)
            is None,
        collide_spec(
            b.center,
            ball_box(vp),
            spec_bottom_wall(vp).center,
            spec_bottom_wall(vp).size,
        ) is None,
        0 <= j < pads.len(),
        collide_spec(b.center, ball_box(vp), pads[j].center, pads[j].size) matches Some(c) && (c
            is Left || c is Right),
        forall|i: int|
            0 <= i < pads.len() && i != j ==> collide_spec(
                b.center,
                ball_box(vp),
                (#[trigger] pads[i]).center,
                pads[i].size,
            ) is None,
    ensures
        velocity_after_collisions(b, pads, vp) == Velocity(
            Vec2i { x: (-b.velocity.0.x) as i64, y: b.velocity.0.y },
        ),
{
    let v0 = velocity_after_walls(b, vp);
    lemma_pads_miss(v0, b.center, ball_box(vp), pads, 0, j);
    lemma_pads_miss(v0, b.center, ball_box(vp), pads, j + 1, pads.len() as int);
}

/// Goal law, magnitude half: whatever the draw, a launch velocity points
/// into the upper half-plane — the directions an angle in `[0, π)` spans —
/// and its squared magnitude lands within one grid step below `speed²`.
pub proof fn lemma_launch_magnitude(speed: int, r: u32)
    requires
        0 <= speed <= MAX_DIM,
    ensures
        ({
            let v = spec_launch_velocity(speed, r);
            &&& -speed <= v.0.x <= speed
            &&& 0 <= v.0.y <= speed
            &&& v.0.x * v.0.x + v.0.y * v.0.y <= speed * speed
            &&& speed * speed < v.0.x * v.0.x + (v.0.y + 1) * (v.0.y + 1)
        }),
{
    let vx = draw_vx(speed, r);
    let d = speed * speed - vx * vx;
    assert(0 <= (r as int) % (2 * speed + 1) < 2 * speed + 1);
    assert(0 <= vx * vx <= speed * speed) by (nonlinear_arith)
        requires
            -speed <= vx <= speed,
    ;
    lemma_spec_isqrt(d);
    let vy = spec_isqrt(d);
    assert(vy <= speed) by (nonlinear_arith)
        requires
            0 <= vy,
            0 <= speed,
            vy * vy <= speed * speed,
    ;
}

/// State-toggle law: from `Menu`, one toggle enters `Play` and spawns
/// exactly two pads — the left player's, then the right player's — one
/// ball at the origin and two walls; the next toggle returns to `Menu` and
/// despawns pads and ball, while the walls stay.
pub proof fn lemma_state_toggle(
    g0: GamePlugin,
    g1: GamePlugin,
    g2: GamePlugin,
    vp: Viewport,
    r1: u32,
    r2: u32,
)
    requires
        g0.state is Menu,
        spec_toggle(g0, g1, vp, r1),
        spec_toggle(g1, g2, vp, r2),
    ensures
        g1.state is Play,
        g1.pads@.len() == 2,
        g1.pads@[0] == spec_left_pad(vp),
        g1.pads@[1] == spec_right_pad(vp),
        g1.pads@[0].player is Left,
        g1.pads@[1].player is Right,
        g1.ball matches Some(b) && b.center == (Vec2i { x: 0, y: 0 }) && b.velocity
            == spec_launch_velocity(ball_speed(vp), r1),
        g1.walls@.len() == g0.walls@.len() + 2,
        g2.state is Menu,
        g2.pads@.len() == 0,
        g2.ball is None,
        g2.walls@ == g1.walls@,
{
}

} // verus!
