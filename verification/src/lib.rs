//! A small two-player Pong simulation: pads driven by discrete movement
//! events, a ball driven by an integer velocity vector, axis-aligned
//! bounding-box collision against walls and pads, and goal detection that
//! re-centers the ball with a freshly drawn trajectory.
//!
//! All geometry lives on an integer grid: positions, sizes and velocities
//! are plain `i64` coordinates, and every spatial constant is a fixed
//! percentage of the viewport. A caller that wants sub-unit precision
//! simply hands in a viewport measured in finer units.

use vstd::prelude::*;

pub mod game;
pub mod geometry;
pub mod laws;
pub mod launch;

use crate::game::{
    ball_movement_system, ball_speed, bottom_y_limit, collision_system, goal_scored, goal_system,
    pad_after_events, pad_movement_system, spec_bottom_wall, spec_left_pad, spec_right_pad,
    spec_top_wall, spawn_ball_with_draw, spawn_pad, spawn_walls, top_y_limit,
    velocity_after_collisions, Ball, Pad, Player, PlayerMovementEvent,
};
use crate::geometry::{Aabb, Vec2i, Viewport, MAX_COORD, MAX_DIM};
use crate::launch::{random_draw, spec_launch_velocity};

verus! {

/// Which half of the state machine the process is in. The simulation
/// systems run only in `Play`; `Menu` shows an idle screen.
#[derive(Clone, Copy, Debug, Hash, PartialEq, Eq, Structural)]
pub enum GameState {
    Menu,
    Play,
}

/// A discrete control request, produced at most once per frame from the
/// edge-triggered toggle key.
#[derive(Clone, Copy, Debug, PartialEq, Eq, Structural)]
pub enum ControlEvents {
    SpacePressed,
}

/// Edge-triggered control sampling: a toggle request exactly when the
/// toggle binding was just pressed this frame, never while it is held.
pub fn main_control(space_just_pressed: bool) -> (e: Option<ControlEvents>)
    ensures
        e == if space_just_pressed {
            Some(ControlEvents::SpacePressed)
        } else {
            None::<ControlEvents>
        },
{
    if space_just_pressed {
        Some(ControlEvents::SpacePressed)
    } else {
        None
    }
}

/// The state a toggle request moves the machine to.
pub open spec fn toggled_state(s: GameState) -> GameState {
    match s {
        GameState::Menu => GameState::Play,
        GameState::Play => GameState::Menu,
    }
}

/// The state after `n` toggle requests.
pub open spec fn state_after_toggles(s: GameState, n: int) -> GameState
    decreases n,
{
    if n <= 0 {
        s
    } else {
        toggled_state(state_after_toggles(s, n - 1))
    }
}

/// A pad that is sound for the given viewport: on the grid, of sensible
/// extent, and with its center inside the playfield band, so it never
/// reaches into a wall.
pub open spec fn pad_ok(p: Pad, vp: Viewport) -> bool {
    &&& p.center.in_range()
    &&& p.size.is_size()
    &&& bottom_y_limit(vp) <= p.center.y <= top_y_limit(vp)
}

/// A ball that is sound: on the grid, never faster than a whole viewport
/// per tick.
pub open spec fn ball_ok(b: Ball) -> bool {
    &&& b.center.in_range()
    &&& -MAX_DIM <= b.velocity.0.x <= MAX_DIM
    &&& -MAX_DIM <= b.velocity.0.y <= MAX_DIM
}

/// A ball a whole viewport clear of the edge of the coordinate band, so
/// one tick of kinematics stays on the grid.
pub open spec fn ball_in_band(b: Ball) -> bool {
    &&& -(MAX_COORD - MAX_DIM) <= b.center.x <= MAX_COORD - MAX_DIM
    &&& -(MAX_COORD - MAX_DIM) <= b.center.y <= MAX_COORD - MAX_DIM
    &&& -MAX_DIM <= b.velocity.0.x <= MAX_DIM
    &&& -MAX_DIM <= b.velocity.0.y <= MAX_DIM
}

/// The whole game: the state machine and the entities it owns. The walls
/// are permanent scenery once spawned; pads and the ball exist exactly
/// while the game is in `Play`.
#[derive(Debug)]
pub struct GamePlugin {
    pub state: GameState,
    pub pads: Vec<Pad>,
    pub ball: Option<Ball>,
    pub walls: Vec<Aabb>,
}

/// One toggle request applied to the whole game, for the draw `r`:
/// entering `Play` spawns the two pads, two fresh walls and the ball;
/// leaving `Play` despawns pads and ball while the walls stay.
pub open spec fn spec_toggle(pre: GamePlugin, post: GamePlugin, vp: Viewport, r: u32) -> bool {
    &&& post.state == toggled_state(pre.state)
    &&& match pre.state {
        GameState::Menu => {
            &&& post.pads@ == seq![spec_left_pad(vp), spec_right_pad(vp)]
            &&& post.walls@ == pre.walls@ + seq![spec_top_wall(vp), spec_bottom_wall(vp)]
            &&& post.ball == Some(
                Ball {
                    center: Vec2i { x: 0, y: 0 },
                    velocity: spec_launch_velocity(ball_speed(vp), r),
                },
            )
        },
        GameState::Play => {
            &&& post.pads@ == Seq::<Pad>::empty()
            &&& post.ball is None
            &&& post.walls@ == pre.walls@
        },
    }
}

/// The ball's full fixed-tick pipeline for a given draw: kinematics, then
/// collision resolution at the moved position, then the goal check.
pub open spec fn spec_ball_tick(b: Ball, pads: Seq<Pad>, vp: Viewport, r: u32) -> Ball {
    let moved = Ball {
        center: Vec2i {
            x: (b.center.x + b.velocity.0.x) as i64,
            y: (b.center.y + b.velocity.0.y) as i64,
        },
        velocity: b.velocity,
    };
    let bounced = Ball { center: moved.center, velocity: velocity_after_collisions(moved, pads, vp) };
    if goal_scored(bounced, vp) {
        Ball {
            center: Vec2i { x: 0, y: 0 },
            velocity: spec_launch_velocity(ball_speed(vp), r),
        }
    } else {
        bounced
    }
}

impl GamePlugin {
    /// Entity bookkeeping: in `Play` there are exactly two pads, the left
    /// player's then the right player's, and exactly one ball; in `Menu`
    /// there are none of either; and every live entity is sound.
    pub open spec fn wf(self, vp: Viewport) -> bool {
        &&& match self.state {
            GameState::Menu => self.pads@.len() == 0 && self.ball is None,
            GameState::Play => {
                &&& self.pads@.len() == 2
                &&& self.pads@[0].player == Player::Left
                &&& self.pads@[1].player == Player::Right
                &&& self.ball is Some
            },
        }
        &&& forall|i: int| 0 <= i < self.pads@.len() ==> pad_ok(#[trigger] self.pads@[i], vp)
        &&& self.ball matches Some(b) ==> ball_ok(b)
    }

    /// A fresh game: in the menu, with nothing spawned yet.
    pub fn new() -> (g: GamePlugin)
        ensures
            g.state is Menu,
            g.pads@.len() == 0,
            g.ball is None,
            g.walls@.len() == 0,
            forall|vp: Viewport| #[trigger] g.wf(vp),
    {
        GamePlugin { state: GameState::Menu, pads: Vec::new(), ball: None, walls: Vec::new() }
    }

    /// Applies one toggle request with the draw given from outside.
    pub fn toggle_with_draw(&mut self, vp: Viewport, r: u32)
        requires
            vp.wf(),
            old(self).wf(vp),
        ensures
            final(self).wf(vp),
            spec_toggle(*old(self), *final(self), vp, r),
    {
        match self.state {
            GameState::Menu => {
                self.state = GameState::Play;
                self.pads = spawn_pad(vp);
                let mut new_walls = spawn_walls(vp);
                self.walls.append(&mut new_walls);
                self.ball = Some(spawn_ball_with_draw(vp, r));
                proof {
                    crate::laws::lemma_limits_ordered(vp);
                    assert(self.pads@ =~= seq![spec_left_pad(vp), spec_right_pad(vp)]);
                    assert(self.walls@ =~= old(self).walls@ + seq![
                        spec_top_wall(vp),
                        spec_bottom_wall(vp),
                    ]);
                }
            },
            GameState::Play => {
                self.state = GameState::Menu;
                self.pads = Vec::new();
                self.ball = None;
                proof {
                    assert(self.pads@ =~= Seq::<Pad>::empty());
                }
            },
        }
    }

    /// Applies one toggle request, drawing the launch trajectory for a
    /// newly spawned ball from the thread-local generator.
    pub fn toggle(&mut self, vp: Viewport)
        requires
            vp.wf(),
            old(self).wf(vp),
        ensures
            final(self).wf(vp),
            exists|r: u32| spec_toggle(*old(self), *final(self), vp, r),
    {
        let r = random_draw();
        self.toggle_with_draw(vp, r);
        proof {
            assert(spec_toggle(*old(self), *self, vp, r));
        }
    }

    /// Consumes the frame's control events: each one toggles the state
    /// machine, entering `Play` spawns the scene and leaving it clears
    /// pads and ball.
    #[verifier::loop_isolation(false)]
    pub fn menu_event_handler(&mut self, events: &Vec<ControlEvents>, vp: Viewport)
        requires
            vp.wf(),
            old(self).wf(vp),
        ensures
            final(self).wf(vp),
            final(self).state == state_after_toggles(old(self).state, events@.len() as int),
            events@.len() == 0 ==> *final(self) == *old(self),
    {
        let mut j: usize = 0;
        while j < events.len()
            invariant
                j <= events@.len(),
                self.wf(vp),
                self.state == state_after_toggles(old(self).state, j as int),
                j == 0 ==> *self == *old(self),
            decreases events@.len() - j,
        {
            match events[j] {
                ControlEvents::SpacePressed => {
                    self.toggle(vp);
                },
            }
            j = j + 1;
        }
    }

    /// Advances one fixed tick in the required order: pad movement, then
    /// ball kinematics, then collision resolution, then goal detection.
    /// In `Menu` the tick does nothing.
    pub fn fixed_tick(&mut self, events: &Vec<PlayerMovementEvent>, vp: Viewport)
        requires
            vp.wf(),
            old(self).wf(vp),
            old(self).ball matches Some(b) ==> ball_in_band(b),
        ensures
            final(self).wf(vp),
            final(self).state == old(self).state,
            final(self).walls@ == old(self).walls@,
            old(self).state is Menu ==> *final(self) == *old(self),
            old(self).state is Play ==> {
                &&& final(self).pads@.len() == old(self).pads@.len()
                &&& forall|i: int|
                    0 <= i < old(self).pads@.len() ==> final(self).pads@[i] == pad_after_events(
                        old(self).pads@[i],
                        events@,
                        events@.len() as int,
                        vp,
                    )
                &&& (old(self).ball matches Some(b) ==> exists|r: u32|
                    final(self).ball == Some(spec_ball_tick(b, final(self).pads@, vp, r)))
            },
    {
        match self.state {
            GameState::Menu => {},
            GameState::Play => {
                pad_movement_system(&mut self.pads, events, vp);
                proof {
                    assert forall|i: int| 0 <= i < self.pads@.len() implies pad_ok(
                        #[trigger] self.pads@[i],
                        vp,
                    ) && self.pads@[i].player == old(self).pads@[i].player by {
                        crate::laws::lemma_pad_events_stay_in_band(
                            old(self).pads@[i],
                            events@,
                            events@.len() as int,
                            vp,
                        );
                    }
                }
                match self.ball {
                    Some(b0) => {
                        let mut b = b0;
                        ball_movement_system(&mut b);
                        collision_system(&mut b, &self.pads, vp);
                        let ghost bounced = b;
                        goal_system(&mut b, vp);
                        self.ball = Some(b);
                        proof {
                            if goal_scored(bounced, vp) {
                                let r = choose|r: u32|
                                    b.velocity == spec_launch_velocity(ball_speed(vp), r);
                                assert(b == spec_ball_tick(b0, self.pads@, vp, r));
                            } else {
                                assert(b == spec_ball_tick(b0, self.pads@, vp, 0u32));
                            }
                        }
                    },
                    None => {},
                }
            },
        }
    }
}

} // verus!
