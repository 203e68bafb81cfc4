//! The state machine and the whole-game tick: toggling between menu and
//! play, spawning and despawning, and the trusted random draw exercised
//! through the public functions that call it.

use rusty_pong::game::{goal_system, spawn_ball, Ball, Player, PlayerMovementEvent, Velocity};
use rusty_pong::geometry::{Vec2i, Viewport};
use rusty_pong::launch::random_launch_velocity;
use rusty_pong::{main_control, ControlEvents, GamePlugin, GameState};

fn vp(width: i64, height: i64) -> Viewport {
    Viewport { width, height }
}

#[test]
fn main_control_edge() {
    assert_eq!(main_control(true), Some(ControlEvents::SpacePressed));
    assert_eq!(main_control(false), None);
}

#[test]
fn new_game_in_menu() {
    let g = GamePlugin::new();
    assert_eq!(g.state, GameState::Menu);
    assert!(g.pads.is_empty());
    assert!(g.ball.is_none());
    assert!(g.walls.is_empty());
}

#[test]
fn toggle_enters_play_and_spawns() {
    let v = vp(1000, 1000);
    let mut g = GamePlugin::new();
    g.toggle_with_draw(v, 17);
    assert_eq!(g.state, GameState::Play);
    assert_eq!(g.pads.len(), 2);
    assert_eq!(g.pads[0].player, Player::Left);
    assert_eq!(g.pads[1].player, Player::Right);
    assert_eq!(g.walls.len(), 2);
    let b = g.ball.expect("a ball is spawned on entering play");
    assert_eq!(b.center.x, 0);
    assert_eq!(b.center.y, 0);
    assert_eq!(b.velocity.0.x, 5);
    assert_eq!(b.velocity.0.y, 10);
}

#[test]
fn second_toggle_returns_to_menu() {
    let v = vp(1000, 1000);
    let mut g = GamePlugin::new();
    g.toggle_with_draw(v, 17);
    g.toggle_with_draw(v, 3);
    assert_eq!(g.state, GameState::Menu);
    assert!(g.pads.is_empty());
    assert!(g.ball.is_none());
    // the walls stay behind as scenery
    assert_eq!(g.walls.len(), 2);
}

#[test]
fn menu_event_handler_toggles() {
    let v = vp(1000, 1000);
    let mut g = GamePlugin::new();
    let one = vec![ControlEvents::SpacePressed];
    g.menu_event_handler(&one, v);
    assert_eq!(g.state, GameState::Play);
    assert_eq!(g.pads.len(), 2);
    let two = vec![ControlEvents::SpacePressed, ControlEvents::SpacePressed];
    g.menu_event_handler(&two, v);
    assert_eq!(g.state, GameState::Play);
    let none: Vec<ControlEvents> = Vec::new();
    g.menu_event_handler(&none, v);
    assert_eq!(g.state, GameState::Play);
    g.menu_event_handler(&one, v);
    assert_eq!(g.state, GameState::Menu);
    assert!(g.ball.is_none());
}

#[test]
fn fixed_tick_menu_noop() {
    let v = vp(1000, 1000);
    let mut g = GamePlugin::new();
    let events = vec![PlayerMovementEvent::Up(Player::Left)];
    g.fixed_tick(&events, v);
    assert_eq!(g.state, GameState::Menu);
    assert!(g.pads.is_empty());
    assert!(g.ball.is_none());
}

#[test]
fn fixed_tick_moves_pads_and_ball() {
    let v = vp(1000, 1000);
    let mut g = GamePlugin::new();
    g.toggle_with_draw(v, 17);
    let events = vec![PlayerMovementEvent::Up(Player::Left)];
    g.fixed_tick(&events, v);
    assert_eq!(g.state, GameState::Play);
    // pad movement = 1000 * 2 / 100 = 20
    assert_eq!(g.pads[0].center.y, 20);
    assert_eq!(g.pads[1].center.y, 0);
    // the ball drifts by its launch velocity (5, 10), hitting nothing
    let b = g.ball.expect("the ball survives a tick");
    assert_eq!(b.center.x, 5);
    assert_eq!(b.center.y, 10);
    assert_eq!(b.velocity.0.x, 5);
    assert_eq!(b.velocity.0.y, 10);
}

#[test]
fn spawn_ball_random_bounds() {
    let v = vp(1000, 1000);
    for _ in 0..32 {
        let b = spawn_ball(v);
        assert_eq!(b.center.x, 0);
        assert_eq!(b.center.y, 0);
        let (vx, vy) = (b.velocity.0.x, b.velocity.0.y);
        assert!((-12..=12).contains(&vx));
        assert!((0..=12).contains(&vy));
        assert!(vx * vx + vy * vy <= 144);
        assert!(vx * vx + (vy + 1) * (vy + 1) > 144);
    }
}

#[test]
fn goal_random_relaunch() {
    let v = vp(1000, 1000);
    for _ in 0..32 {
        let mut b = Ball { center: Vec2i { x: 501, y: 40 }, velocity: Velocity(Vec2i { x: 20, y: 1 }) };
        goal_system(&mut b, v);
        assert_eq!(b.center.x, 0);
        assert_eq!(b.center.y, 0);
        let (vx, vy) = (b.velocity.0.x, b.velocity.0.y);
        assert!(vy >= 0);
        assert!(vx * vx + vy * vy <= 144);
        assert!(vx * vx + (vy + 1) * (vy + 1) > 144);
    }
}

#[test]
fn goal_random_no_goal_untouched() {
    let v = vp(1000, 1000);
    let mut b = Ball { center: Vec2i { x: 499, y: 40 }, velocity: Velocity(Vec2i { x: 20, y: 1 }) };
    goal_system(&mut b, v);
    assert_eq!(b.center.x, 499);
    assert_eq!(b.velocity.0.x, 20);
}

#[test]
fn random_launch_bounds() {
    for _ in 0..64 {
        let l = random_launch_velocity(40);
        let (vx, vy) = (l.0.x, l.0.y);
        assert!((-40..=40).contains(&vx));
        assert!((0..=40).contains(&vy));
        assert!(vx * vx + vy * vy <= 1600);
        assert!(vx * vx + (vy + 1) * (vy + 1) > 1600);
    }
}

#[test]
fn toggle_random_spawns_ball() {
    let v = vp(1000, 1000);
    let mut g = GamePlugin::new();
    g.toggle(v);
    assert_eq!(g.state, GameState::Play);
    let b = g.ball.expect("a ball is spawned on entering play");
    assert_eq!(b.center.x, 0);
    assert!(b.velocity.0.y >= 0);
}
