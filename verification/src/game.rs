//! The Play-scene entities and the per-tick simulation systems: pad
//! movement, ball kinematics, collision resolution and goal detection.

use vstd::prelude::*;

use crate::geometry::{
    clamped, collide, collide_spec, percent, percent_of, Aabb, Collision, Vec2i, Viewport, MAX_DIM,
};
use crate::launch::{launch_velocity, random_draw, spec_launch_velocity};

verus! {

/// Thickness of the top and bottom wall, in percent of the viewport height.
pub const WALL_THICKNESS: i64 = 3;

/// Width of a pad, in percent of the viewport width.
pub const PAD_WIDTH: i64 = 1;

/// Height of a pad, in percent of the viewport height.
pub const PAD_HEIGHT: i64 = 20;

/// Vertical position a pad starts at.
pub const PAD_DEFAULT_LEVEL: i64 = 0;

/// Distance between a side of the screen and the center of the pad on that
/// side, in percent of the viewport width.
pub const PAD_HORIZONTAL_MARGIN: i64 = 10;

/// How far a pad moves in one tick of held input, in percent of the
/// viewport height.
pub const PAD_SPEED: i64 = 2;

/// Speed of the ball, in hundredths of a percent of the viewport width
/// (the ball covers 1.25 % of the screen width per tick).
pub const BALL_SPEED_PERMYRIAD: i64 = 125;

/// Width and height of the ball, in percent of the viewport width.
pub const BALL_SIZE: i64 = 2;

/// Which side of the field a pad defends.
#[derive(Clone, Copy, Debug, PartialEq, Eq, Structural)]
pub enum Player {
    Left,
    Right,
}

/// A one-tick movement intent produced by the input mapper and consumed by
/// the pad actuator in the same tick.
#[derive(Clone, Copy, Debug, PartialEq, Eq, Structural)]
pub enum PlayerMovementEvent {
    Up(Player),
    Down(Player),
}

/// Marker attached to an entity that takes part in collision bookkeeping.
#[derive(Clone, Copy, Debug, PartialEq, Eq, Structural)]
pub struct Collider;

/// Displacement the ball covers in one fixed tick: direction and scalar
/// speed combined in a single vector.
#[derive(Clone, Copy, Debug, PartialEq, Eq, Structural)]
pub struct Velocity(pub Vec2i);

/// A player-controlled paddle. Only its vertical coordinate ever changes.
#[derive(Clone, Copy, Debug, PartialEq, Eq, Structural)]
pub struct Pad {
    pub player: Player,
    pub center: Vec2i,
    pub size: Vec2i,
    pub collider: Option<Collider>,
}

/// The ball: a position and the velocity it adds to that position each
/// fixed tick.
#[derive(Clone, Copy, Debug, PartialEq, Eq, Structural)]
pub struct Ball {
    pub center: Vec2i,
    pub velocity: Velocity,
}

/// Thickness of each wall for a given viewport.
pub open spec fn wall_height(vp: Viewport) -> int {
    percent_of(vp.height as int, WALL_THICKNESS as int)
}

/// Height of a pad for a given viewport.
pub open spec fn pad_height(vp: Viewport) -> int {
    percent_of(vp.height as int, PAD_HEIGHT as int)
}

/// Width of a pad for a given viewport.
pub open spec fn pad_width(vp: Viewport) -> int {
    percent_of(vp.width as int, PAD_WIDTH as int)
}

/// Distance between a screen side and the center of its pad.
pub open spec fn pad_margin(vp: Viewport) -> int {
    percent_of(vp.width as int, PAD_HORIZONTAL_MARGIN as int)
}

/// How far a pad moves in one tick of held input.
pub open spec fn pad_movement(vp: Viewport) -> int {
    percent_of(vp.height as int, PAD_SPEED as int)
}

/// Side length of the ball's bounding box.
pub open spec fn ball_size(vp: Viewport) -> int {
    percent_of(vp.width as int, BALL_SIZE as int)
}

/// Scalar speed of the ball: `BALL_SPEED_PERMYRIAD` hundredths of a percent
/// of the viewport width, rounded toward zero.
pub open spec fn ball_speed(vp: Viewport) -> int {
    vp.width * BALL_SPEED_PERMYRIAD / 10000
}

/// Highest vertical position a pad center may take: the pad must not reach
/// into the top wall.
pub open spec fn top_y_limit(vp: Viewport) -> int {
    vp.height / 2 - wall_height(vp) - pad_height(vp) / 2
}

/// Lowest vertical position a pad center may take.
pub open spec fn bottom_y_limit(vp: Viewport) -> int {
    -(vp.height / 2) + wall_height(vp) + pad_height(vp) / 2
}

/// The top wall: a full-width strip flush with the upper screen edge.
pub open spec fn spec_top_wall(vp: Viewport) -> Aabb {
    Aabb {
        center: Vec2i { x: 0, y: (vp.height / 2 - wall_height(vp) / 2) as i64 },
        size: Vec2i { x: vp.width, y: wall_height(vp) as i64 },
    }
}

/// The bottom wall, mirroring the top one.
pub open spec fn spec_bottom_wall(vp: Viewport) -> Aabb {
    Aabb {
        center: Vec2i { x: 0, y: (-(vp.height / 2) + wall_height(vp) / 2) as i64 },
        size: Vec2i { x: vp.width, y: wall_height(vp) as i64 },
    }
}

/// The left player's pad at its starting level.
pub open spec fn spec_left_pad(vp: Viewport) -> Pad {
    Pad {
        player: Player::Left,
        center: Vec2i { x: (-(vp.width / 2) + pad_margin(vp)) as i64, y: PAD_DEFAULT_LEVEL },
        size: Vec2i { x: pad_width(vp) as i64, y: pad_height(vp) as i64 },
        collider: None,
    }
}

/// The right player's pad at its starting level.
pub open spec fn spec_right_pad(vp: Viewport) -> Pad {
    Pad {
        player: Player::Right,
        center: Vec2i { x: (vp.width / 2 - pad_margin(vp)) as i64, y: PAD_DEFAULT_LEVEL },
        size: Vec2i { x: pad_width(vp) as i64, y: pad_height(vp) as i64 },
        collider: Some(Collider),
    }
}

/// Builds the two decorative wall strips for the given viewport, top wall
/// first. The collision resolver recomputes the same rectangles from the
/// viewport on every tick, so these entities are pure scenery.
pub fn spawn_walls(vp: Viewport) -> (walls: Vec<Aabb>)
    requires
        vp.wf(),
    ensures
        walls@.len() == 2,
        walls@[0] == spec_top_wall(vp),
        walls@[1] == spec_bottom_wall(vp),
{
    let wall_height = percent(vp.height, WALL_THICKNESS);
    let mut walls: Vec<Aabb> = Vec::new();
    walls.push(
        Aabb {
            center: Vec2i { x: 0, y: vp.height / 2 - wall_height / 2 },
            size: Vec2i { x: vp.width, y: wall_height },
        },
    );
    walls.push(
        Aabb {
            center: Vec2i { x: 0, y: -(vp.height / 2) + wall_height / 2 },
            size: Vec2i { x: vp.width, y: wall_height },
        },
    );
    walls
}

/// Builds the two pads at their starting level, left player first. Only the
/// right pad carries the `Collider` tag.
pub fn spawn_pad(vp: Viewport) -> (pads: Vec<Pad>)
    requires
        vp.wf(),
    ensures
        pads@.len() == 2,
        pads@[0] == spec_left_pad(vp),
        pads@[1] == spec_right_pad(vp),
{
    let pad_x_margin = percent(vp.width, PAD_HORIZONTAL_MARGIN);
    let pad_height = percent(vp.height, PAD_HEIGHT);
    let pad_width = percent(vp.width, PAD_WIDTH);
    let left_pad_x_offset = -(vp.width / 2) + pad_x_margin;
    let right_pad_x_offset = vp.width / 2 - pad_x_margin;
    let mut pads: Vec<Pad> = Vec::new();
    pads.push(
        Pad {
            player: Player::Left,
            center: Vec2i { x: left_pad_x_offset, y: PAD_DEFAULT_LEVEL },
            size: Vec2i { x: pad_width, y: pad_height },
            collider: None,
        },
    );
    pads.push(
        Pad {
            player: Player::Right,
            center: Vec2i { x: right_pad_x_offset, y: PAD_DEFAULT_LEVEL },
            size: Vec2i { x: pad_width, y: pad_height },
            collider: Some(Collider),
        },
    );
    pads
}

/// One movement event applied to one pad: when the pad's player tag matches
/// the event's, the pad moves by the per-tick distance and its new vertical
/// position is forced into the playfield band; otherwise nothing happens.
pub open spec fn pad_after_event(p: Pad, e: PlayerMovementEvent, vp: Viewport) -> Pad {
    match e {
        PlayerMovementEvent::Up(pl) => if p.player == pl {
            Pad {
                center: Vec2i {
                    x: p.center.x,
                    y: clamped(
                        p.center.y + pad_movement(vp),
                        bottom_y_limit(vp),
                        top_y_limit(vp),
                    ) as i64,
                },
                ..p
            }
        } else {
            p
        },
        PlayerMovementEvent::Down(pl) => if p.player == pl {
            Pad {
                center: Vec2i {
                    x: p.center.x,
                    y: clamped(
                        p.center.y - pad_movement(vp),
                        bottom_y_limit(vp),
                        top_y_limit(vp),
                    ) as i64,
                },
                ..p
            }
        } else {
            p
        },
    }
}

/// The first `n` events of the tick applied to one pad, in order.
pub open spec fn pad_after_events(
    p: Pad,
    events: Seq<PlayerMovementEvent>,
    n: int,
    vp: Viewport,
) -> Pad
    decreases n,
{
    if n <= 0 {
        p
    } else {
        pad_after_event(pad_after_events(p, events, n - 1, vp), events[n - 1], vp)
    }
}

/// Consumes the tick's movement intents: each event moves every pad whose
/// player tag matches it, and each move is clamped into the playfield band
/// so a pad can never reach into a wall.
#[verifier::loop_isolation(false)]
pub fn pad_movement_system(pads: &mut Vec<Pad>, events: &Vec<PlayerMovementEvent>, vp: Viewport)
    requires
        vp.wf(),
        forall|i: int| 0 <= i < old(pads)@.len() ==> (#[trigger] old(pads)@[i]).center.in_range(),
    ensures
        final(pads)@.len() == old(pads)@.len(),
        forall|i: int|
            0 <= i < old(pads)@.len() ==> final(pads)@[i] == pad_after_events(
                old(pads)@[i],
                events@,
                events@.len() as int,
                vp,
            ),
{
    let movement = percent(vp.height, PAD_SPEED);
    let pad_height = percent(vp.height, PAD_HEIGHT);
    let wall_height = percent(vp.height, WALL_THICKNESS);
    let top_limit = vp.height / 2 - wall_height - pad_height / 2;
    let bottom_limit = -(vp.height / 2) + wall_height + pad_height / 2;
    let mut j: usize = 0;
    while j < events.len()
        invariant
            j <= events@.len(),
            pads@.len() == old(pads)@.len(),
            forall|i: int|
                0 <= i < pads@.len() ==> (#[trigger] pads@[i]) == pad_after_events(
                    old(pads)@[i],
                    events@,
                    j as int,
                    vp,
                ) && pads@[i].center.in_range(),
        decreases events@.len() - j,
    {
        let e = events[j];
        let ghost prev = pads@;
        let mut i: usize = 0;
        while i < pads.len()
            invariant
                i <= pads@.len(),
                pads@.len() == prev.len(),
                forall|k: int|
                    0 <= k < i ==> (#[trigger] pads@[k]) == pad_after_event(prev[k], e, vp)
                        && pads@[k].center.in_range(),
                forall|k: int| i <= k < pads@.len() ==> (#[trigger] pads@[k]) == prev[k],
            decreases pads@.len() - i,
        {
            let p = pads[i];
            match e {
                PlayerMovementEvent::Up(event_player) => {
                    if p.player == event_player {
                        let new_pad_y = p.center.y + movement;
                        let clamped_y = if new_pad_y < bottom_limit {
                            bottom_limit
                        } else if new_pad_y > top_limit {
                            top_limit
                        } else {
                            new_pad_y
                        };
                        pads.set(i, Pad { center: Vec2i { x: p.center.x, y: clamped_y }, ..p });
                    }
                },
                PlayerMovementEvent::Down(event_player) => {
                    if p.player == event_player {
                        let new_pad_y = p.center.y - movement;
                        let clamped_y = if new_pad_y < bottom_limit {
                            bottom_limit
                        } else if new_pad_y > top_limit {
                            top_limit
                        } else {
                            new_pad_y
                        };
                        pads.set(i, Pad { center: Vec2i { x: p.center.x, y: clamped_y }, ..p });
                    }
                },
            }
            i = i + 1;
        }
        j = j + 1;
    }
}

/// Advances the ball by its velocity: one tick of kinematics, exact and
/// undamped.
pub fn ball_movement_system(ball: &mut Ball)
    requires
        old(ball).center.in_range(),
        old(ball).velocity.0.in_range(),
    ensures
        final(ball).center.x == old(ball).center.x + old(ball).velocity.0.x,
        final(ball).center.y == old(ball).center.y + old(ball).velocity.0.y,
        final(ball).velocity == old(ball).velocity,
{
    ball.center.x = ball.center.x + ball.velocity.0.x;
    ball.center.y = ball.center.y + ball.velocity.0.y;
}

/// The ball's bounding box for a given viewport: a square of `ball_size`.
pub open spec fn ball_box(vp: Viewport) -> Vec2i {
    Vec2i { x: ball_size(vp) as i64, y: ball_size(vp) as i64 }
}

/// The ball's velocity after the wall check: any overlap with the top or
/// the bottom wall reflects the vertical component.
pub open spec fn velocity_after_walls(b: Ball, vp: Viewport) -> Velocity {
    if collide_spec(b.center, ball_box(vp), spec_top_wall(vp).center, spec_top_wall(vp).size)
        is Some || collide_spec(
        b.center,
        ball_box(vp),
        spec_bottom_wall(vp).center,
        spec_bottom_wall(vp).size,
    ) is Some {
        Velocity(Vec2i { x: b.velocity.0.x, y: (-b.velocity.0.y) as i64 })
    } else {
        b.velocity
    }
}

/// One pad's contribution to the bounce: a hit on a vertical face of the
/// pad reflects the horizontal component, a hit on a horizontal face the
/// vertical one, and any other outcome leaves the velocity alone.
pub open spec fn bounce_off_pad(v: Velocity, c: Option<Collision>) -> Velocity {
    match c {
        Some(Collision::Left) | Some(Collision::Right) => Velocity(
            Vec2i { x: (-v.0.x) as i64, y: v.0.y },
        ),
        Some(Collision::Top) | Some(Collision::Bottom) => Velocity(
            Vec2i { x: v.0.x, y: (-v.0.y) as i64 },
        ),
        _ => v,
    }
}

/// The bounce applied for the first `n` pads, in order. Each pad's test is
/// applied independently: a later pad can flip a sign back.
pub open spec fn velocity_after_pads(
    v0: Velocity,
    ball_center: Vec2i,
    bsize: Vec2i,
    pads: Seq<Pad>,
    n: int,
) -> Velocity
    decreases n,
{
    if n <= 0 {
        v0
    } else {
        bounce_off_pad(
            velocity_after_pads(v0, ball_center, bsize, pads, n - 1),
            collide_spec(ball_center, bsize, pads[n - 1].center, pads[n - 1].size),
        )
    }
}

/// The ball's velocity at the end of the collision resolver: the wall check
/// first, then every pad in order.
pub open spec fn velocity_after_collisions(b: Ball, pads: Seq<Pad>, vp: Viewport) -> Velocity {
    velocity_after_pads(
        velocity_after_walls(b, vp),
        b.center,
        ball_box(vp),
        pads,
        pads.len() as int,
    )
}

/// Resolves collisions for the tick: reflects the ball's vertical velocity
/// off the top and bottom walls, then bounces it off each pad according to
/// the face it hit. The ball's position is left untouched, and each
/// velocity component keeps its magnitude — a bounce only ever flips
/// signs.
#[verifier::loop_isolation(false)]
pub fn collision_system(ball: &mut Ball, pads: &Vec<Pad>, vp: Viewport)
    requires
        vp.wf(),
        old(ball).center.in_range(),
        old(ball).velocity.0.in_range(),
        forall|i: int|
            0 <= i < pads@.len() ==> (#[trigger] pads@[i]).center.in_range()
                && pads@[i].size.is_size(),
    ensures
        final(ball).center == old(ball).center,
        final(ball).velocity == velocity_after_collisions(*old(ball), pads@, vp),
        final(ball).velocity.0.x == old(ball).velocity.0.x || final(ball).velocity.0.x == -old(
            ball,
        ).velocity.0.x,
        final(ball).velocity.0.y == old(ball).velocity.0.y || final(ball).velocity.0.y == -old(
            ball,
        ).velocity.0.y,
{
    let wall_height = percent(vp.height, WALL_THICKNESS);
    let top_wall_center = Vec2i { x: 0, y: vp.height / 2 - wall_height / 2 };
    let bottom_wall_center = Vec2i { x: 0, y: -(vp.height / 2) + wall_height / 2 };
    let wall_size = Vec2i { x: vp.width, y: wall_height };
    let bs = percent(vp.width, BALL_SIZE);
    let bsize = Vec2i { x: bs, y: bs };
    let top_wall_collision = collide(ball.center, bsize, top_wall_center, wall_size);
    let bottom_wall_collision = collide(ball.center, bsize, bottom_wall_center, wall_size);
    if top_wall_collision.is_some() || bottom_wall_collision.is_some() {
        ball.velocity.0.y = -ball.velocity.0.y;
    }
    assert(ball.velocity == velocity_after_walls(*old(ball), vp));
    let mut i: usize = 0;
    while i < pads.len()
        invariant
            i <= pads@.len(),
            ball.center == old(ball).center,
            ball.velocity.0.x == old(ball).velocity.0.x || ball.velocity.0.x == -old(
                ball,
            ).velocity.0.x,
            ball.velocity.0.y == old(ball).velocity.0.y || ball.velocity.0.y == -old(
                ball,
            ).velocity.0.y,
            ball.velocity == velocity_after_pads(
                velocity_after_walls(*old(ball), vp),
                old(ball).center,
                ball_box(vp),
                pads@,
                i as int,
            ),
        decreases pads@.len() - i,
    {
        let pad = pads[i];
        let pad_collision = collide(ball.center, bsize, pad.center, pad.size);
        match pad_collision {
            Some(Collision::Left) | Some(Collision::Right) => {
                ball.velocity.0.x = -ball.velocity.0.x;
            },
            Some(Collision::Top) | Some(Collision::Bottom) => {
                ball.velocity.0.y = -ball.velocity.0.y;
            },
            _ => {},
        }
        i = i + 1;
    }
}

/// The goal condition: the ball's center has passed beyond the left or the
/// right edge of the viewport.
pub open spec fn goal_scored(b: Ball, vp: Viewport) -> bool {
    b.center.x < -(vp.width / 2) || b.center.x > vp.width / 2
}

/// Computes the ball's scalar speed on machine integers.
pub fn compute_ball_speed(vp: Viewport) -> (s: i64)
    requires
        vp.wf(),
    ensures
        s == ball_speed(vp),
        0 <= s <= vp.width,
{
    proof {
        assert(0 <= vp.width * BALL_SPEED_PERMYRIAD <= MAX_DIM * 10000) by (nonlinear_arith)
            requires
                0 <= vp.width <= MAX_DIM,
        ;
        assert(0 <= vp.width * BALL_SPEED_PERMYRIAD / 10000 <= vp.width) by (nonlinear_arith)
            requires
                0 <= vp.width,
        ;
    }
    vp.width * BALL_SPEED_PERMYRIAD / 10000
}

/// One goal check with the draw given from outside: when the ball has
/// crossed a side edge, it is re-centered at the origin and its velocity is
/// replaced by the launch trajectory the draw decides; otherwise the ball
/// is left exactly as it was.
pub fn goal_system_with_draw(ball: &mut Ball, vp: Viewport, r: u32)
    requires
        vp.wf(),
        old(ball).center.in_range(),
    ensures
        goal_scored(*old(ball), vp) ==> final(ball).center == (Vec2i { x: 0, y: 0 })
            && final(ball).velocity == spec_launch_velocity(ball_speed(vp), r),
        goal_scored(*old(ball), vp) ==> -vp.width <= final(ball).velocity.0.x <= vp.width && 0
            <= final(ball).velocity.0.y <= vp.width,
        !goal_scored(*old(ball), vp) ==> *final(ball) == *old(ball),
{
    let half_width = vp.width / 2;
    if ball.center.x < -half_width || ball.center.x > half_width {
        ball.center = Vec2i { x: 0, y: 0 };
        let speed = compute_ball_speed(vp);
        ball.velocity = launch_velocity(speed, r);
    }
}

/// The goal detector as the fixed tick runs it: the draw comes from the
/// thread-local generator, so all that is promised of a re-launched ball is
/// that it sits at the origin with some launch trajectory for the current
/// speed.
pub fn goal_system(ball: &mut Ball, vp: Viewport)
    requires
        vp.wf(),
        old(ball).center.in_range(),
    ensures
        goal_scored(*old(ball), vp) ==> final(ball).center == (Vec2i { x: 0, y: 0 }) && exists|
            r: u32,
        | final(ball).velocity == spec_launch_velocity(ball_speed(vp), r),
        goal_scored(*old(ball), vp) ==> -vp.width <= final(ball).velocity.0.x <= vp.width && 0
            <= final(ball).velocity.0.y <= vp.width,
        !goal_scored(*old(ball), vp) ==> *final(ball) == *old(ball),
{
    let half_width = vp.width / 2;
    if ball.center.x < -half_width || ball.center.x > half_width {
        let r = random_draw();
        ball.center = Vec2i { x: 0, y: 0 };
        let speed = compute_ball_speed(vp);
        ball.velocity = launch_velocity(speed, r);
        proof {
            assert(ball.velocity == spec_launch_velocity(ball_speed(vp), r));
        }
    }
}

/// The held state of the four movement bindings, sampled once per tick.
#[derive(Clone, Copy, Debug, PartialEq, Eq, Structural)]
pub struct KeyState {
    pub left_up: bool,
    pub left_down: bool,
    pub right_up: bool,
    pub right_down: bool,
}

/// The movement intents a key state maps to, in the fixed binding order:
/// left player's up and down, then right player's up and down.
pub open spec fn keyboard_events(k: KeyState) -> Seq<PlayerMovementEvent> {
    (if k.left_up {
        seq![PlayerMovementEvent::Up(Player::Left)]
    } else {
        Seq::empty()
    }) + (if k.left_down {
        seq![PlayerMovementEvent::Down(Player::Left)]
    } else {
        Seq::empty()
    }) + (if k.right_up {
        seq![PlayerMovementEvent::Up(Player::Right)]
    } else {
        Seq::empty()
    }) + (if k.right_down {
        seq![PlayerMovementEvent::Down(Player::Right)]
    } else {
        Seq::empty()
    })
}

/// Maps the held keys to movement intents: one event per held binding, in
/// the fixed binding order, and none for unpressed keys.
pub fn keyboard_input_system(keys: KeyState) -> (events: Vec<PlayerMovementEvent>)
    ensures
        events@ == keyboard_events(keys),
{
    let mut events: Vec<PlayerMovementEvent> = Vec::new();
    if keys.left_up {
        events.push(PlayerMovementEvent::Up(Player::Left));
    }
    if keys.left_down {
        events.push(PlayerMovementEvent::Down(Player::Left));
    }
    if keys.right_up {
        events.push(PlayerMovementEvent::Up(Player::Right));
    }
    if keys.right_down {
        events.push(PlayerMovementEvent::Down(Player::Right));
    }
    proof {
        assert(events@ =~= keyboard_events(keys));
    }
    events
}

/// Creates the ball for the draw `r`: at the origin, with the launch
/// trajectory the draw decides.
pub fn spawn_ball_with_draw(vp: Viewport, r: u32) -> (ball: Ball)
    requires
        vp.wf(),
    ensures
        ball.center == (Vec2i { x: 0, y: 0 }),
        ball.velocity == spec_launch_velocity(ball_speed(vp), r),
        -vp.width <= ball.velocity.0.x <= vp.width,
        0 <= ball.velocity.0.y <= vp.width,
{
    let speed = compute_ball_speed(vp);
    Ball { center: Vec2i { x: 0, y: 0 }, velocity: launch_velocity(speed, r) }
}

/// Creates the ball at scene entry: at the origin, with a freshly drawn
/// launch trajectory.
pub fn spawn_ball(vp: Viewport) -> (ball: Ball)
    requires
        vp.wf(),
    ensures
        ball.center == (Vec2i { x: 0, y: 0 }),
        exists|r: u32| ball.velocity == spec_launch_velocity(ball_speed(vp), r),
{
    let r = random_draw();
    let ball = spawn_ball_with_draw(vp, r);
    proof {
        assert(ball.velocity == spec_launch_velocity(ball_speed(vp), r));
    }
    ball
}

} // verus!
