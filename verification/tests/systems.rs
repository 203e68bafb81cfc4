//! Per-system behavior on concrete values: pad actuation, ball kinematics,
//! collision resolution and goal detection.

use rusty_pong::game::{
    collision_system, ball_movement_system, compute_ball_speed, goal_system_with_draw,
    keyboard_input_system, pad_movement_system, spawn_pad, spawn_walls, Ball, KeyState, Pad,
    Player, PlayerMovementEvent, Velocity,
};
use rusty_pong::geometry::{collide, percent, Collision, Vec2i, Viewport};
use rusty_pong::launch::{isqrt, launch_velocity};

fn vp(width: i64, height: i64) -> Viewport {
    Viewport { width, height }
}

fn ball(x: i64, y: i64, vx: i64, vy: i64) -> Ball {
    Ball { center: Vec2i { x, y }, velocity: Velocity(Vec2i { x: vx, y: vy }) }
}

#[test]
fn pad_moves_up_one_tick() {
    let v = vp(1920, 1080);
    let mut pads = spawn_pad(v);
    let events = vec![PlayerMovementEvent::Up(Player::Left)];
    pad_movement_system(&mut pads, &events, v);
    // movement = 1080 * 2 / 100 = 21, clamped into [-400, 400]
    assert_eq!(pads[0].center.y, 21);
    assert_eq!(pads[1].center.y, 0);
    assert_eq!(pads[0].center.x, -768);
}

#[test]
fn pad_move_fine_units_exact() {
    // The same viewport measured in hundredths of a unit: the per-tick
    // movement comes out exact, 21.60 units.
    let v = vp(192_000, 108_000);
    let mut pads = spawn_pad(v);
    let events = vec![PlayerMovementEvent::Up(Player::Left)];
    pad_movement_system(&mut pads, &events, v);
    assert_eq!(pads[0].center.y, 2160);
}

#[test]
fn pad_clamps_at_top() {
    let v = vp(1920, 1080);
    let mut pads = spawn_pad(v);
    let events = vec![PlayerMovementEvent::Up(Player::Left)];
    for _ in 0..30 {
        pad_movement_system(&mut pads, &events, v);
    }
    // top limit = 540 - 32 - 108 = 400; 30 ticks of 21 would pass it
    assert_eq!(pads[0].center.y, 400);
}

#[test]
fn pad_clamps_at_bottom() {
    let v = vp(1920, 1080);
    let mut pads = spawn_pad(v);
    let events = vec![PlayerMovementEvent::Down(Player::Right)];
    for _ in 0..30 {
        pad_movement_system(&mut pads, &events, v);
    }
    assert_eq!(pads[1].center.y, -400);
    assert_eq!(pads[0].center.y, 0);
}

#[test]
fn both_players_move_same_tick() {
    let v = vp(1920, 1080);
    let mut pads = spawn_pad(v);
    let events = vec![
        PlayerMovementEvent::Up(Player::Left),
        PlayerMovementEvent::Down(Player::Right),
    ];
    pad_movement_system(&mut pads, &events, v);
    assert_eq!(pads[0].center.y, 21);
    assert_eq!(pads[1].center.y, -21);
}

#[test]
fn ball_advances_by_velocity() {
    let mut b = ball(3, 4, 10, -2);
    ball_movement_system(&mut b);
    assert_eq!(b.center.x, 13);
    assert_eq!(b.center.y, 2);
    assert_eq!(b.velocity.0.x, 10);
    assert_eq!(b.velocity.0.y, -2);
}

#[test]
fn wall_reflects_vertical() {
    let v = vp(1000, 1000);
    // top wall spans y in [470, 500]; the ball's box at y = 480 overlaps it
    let mut b = ball(0, 480, 5, 7);
    let pads: Vec<Pad> = Vec::new();
    collision_system(&mut b, &pads, v);
    assert_eq!(b.velocity.0.x, 5);
    assert_eq!(b.velocity.0.y, -7);
    assert_eq!(b.center.y, 480);
}

#[test]
fn bottom_wall_reflects_vertical() {
    let v = vp(1000, 1000);
    let mut b = ball(0, -480, 5, -7);
    let pads: Vec<Pad> = Vec::new();
    collision_system(&mut b, &pads, v);
    assert_eq!(b.velocity.0.y, 7);
}

#[test]
fn no_overlap_leaves_velocity() {
    let v = vp(1000, 1000);
    let mut b = ball(0, 0, 5, 7);
    let pads = spawn_pad(v);
    collision_system(&mut b, &pads, v);
    assert_eq!(b.velocity.0.x, 5);
    assert_eq!(b.velocity.0.y, 7);
}

#[test]
fn pad_side_face_reflects_horizontal() {
    let v = vp(1000, 1000);
    // right pad: center (400, 0), size (10, 200); the ball's box
    // [380, 400] pokes into its left face
    let mut b = ball(390, 0, 20, 3);
    let pads = spawn_pad(v);
    collision_system(&mut b, &pads, v);
    assert_eq!(b.velocity.0.x, -20);
    assert_eq!(b.velocity.0.y, 3);
}

#[test]
fn pad_top_face_reflects_vertical() {
    let v = vp(1000, 1000);
    // ball box y [85, 105] pokes over the pad's top edge at 100, while its
    // x span [390, 410] straddles the whole pad width
    let mut b = ball(400, 95, 3, -4);
    let pads = spawn_pad(v);
    collision_system(&mut b, &pads, v);
    assert_eq!(b.velocity.0.x, 3);
    assert_eq!(b.velocity.0.y, 4);
}

#[test]
fn ball_inside_wall_still_reflects() {
    let v = vp(1000, 1000);
    // ball box [475, 495] lies strictly inside the top wall [470, 500]
    let mut b = ball(0, 485, 2, 9);
    let pads: Vec<Pad> = Vec::new();
    collision_system(&mut b, &pads, v);
    assert_eq!(b.velocity.0.y, -9);
}

#[test]
fn two_overlapping_pads_double_flip() {
    let v = vp(1000, 1000);
    // two pads in the same place: each reports a left-face hit and each
    // flips the sign independently, a net no-op
    let right = spawn_pad(v)[1];
    let pads = vec![right, right];
    let mut b = ball(390, 0, 20, 3);
    collision_system(&mut b, &pads, v);
    assert_eq!(b.velocity.0.x, 20);
    assert_eq!(b.velocity.0.y, 3);
}

#[test]
fn goal_at_boundary_not_scored() {
    let v = vp(1000, 1000);
    let mut b = ball(500, 30, 20, 0);
    goal_system_with_draw(&mut b, v, 17);
    assert_eq!(b.center.x, 500);
    assert_eq!(b.center.y, 30);
    assert_eq!(b.velocity.0.x, 20);
}

#[test]
fn goal_past_boundary_resets() {
    let v = vp(1000, 1000);
    let mut b = ball(501, 30, 20, 0);
    goal_system_with_draw(&mut b, v, 17);
    assert_eq!(b.center.x, 0);
    assert_eq!(b.center.y, 0);
    // speed = 1000 * 125 / 10000 = 12; draw 17 gives vx = 17 % 25 - 12 = 5
    // and vy = isqrt(144 - 25) = 10
    assert_eq!(b.velocity.0.x, 5);
    assert_eq!(b.velocity.0.y, 10);
}

#[test]
fn goal_left_edge_resets() {
    let v = vp(1000, 1000);
    let mut b = ball(-501, 0, -20, 0);
    goal_system_with_draw(&mut b, v, 0);
    assert_eq!(b.center.x, 0);
    // draw 0 gives vx = -12 and vy = isqrt(0) = 0
    assert_eq!(b.velocity.0.x, -12);
    assert_eq!(b.velocity.0.y, 0);
}

#[test]
fn goal_fires_exactly_past_half_width() {
    // the ball walks right in steps of 20 and must reset on the tick its
    // position first exceeds the half width, not one tick early
    let v = vp(1000, 300);
    let mut b = ball(450, 0, 20, 0);
    let pads: Vec<Pad> = Vec::new();

    ball_movement_system(&mut b);
    collision_system(&mut b, &pads, v);
    goal_system_with_draw(&mut b, v, 17);
    assert_eq!(b.center.x, 470);

    ball_movement_system(&mut b);
    collision_system(&mut b, &pads, v);
    goal_system_with_draw(&mut b, v, 17);
    assert_eq!(b.center.x, 490);

    ball_movement_system(&mut b);
    collision_system(&mut b, &pads, v);
    goal_system_with_draw(&mut b, v, 17);
    assert_eq!(b.center.x, 0);
    assert_eq!(b.center.y, 0);
}

#[test]
fn collide_faces_and_ties() {
    let size_a = Vec2i { x: 10, y: 10 };
    let b_pos = Vec2i { x: 0, y: 0 };
    let size_b = Vec2i { x: 100, y: 100 };
    // no overlap at all
    assert_eq!(collide(Vec2i { x: 60, y: 0 }, size_a, b_pos, size_b), None);
    // fully inside: no face pinned down
    assert_eq!(collide(Vec2i { x: 0, y: 0 }, size_a, b_pos, size_b), Some(Collision::Inside));
    // shallower horizontal penetration wins
    assert_eq!(collide(Vec2i { x: -48, y: -46 }, size_a, b_pos, size_b), Some(Collision::Left));
    // shallower vertical penetration wins
    assert_eq!(collide(Vec2i { x: -46, y: -48 }, size_a, b_pos, size_b), Some(Collision::Bottom));
    // equal depths: the horizontal answer wins the tie
    assert_eq!(collide(Vec2i { x: -48, y: -48 }, size_a, b_pos, size_b), Some(Collision::Left));
    assert_eq!(collide(Vec2i { x: 48, y: 48 }, size_a, b_pos, size_b), Some(Collision::Right));
    // a single overlapped face on each side
    assert_eq!(collide(Vec2i { x: 48, y: 0 }, size_a, b_pos, size_b), Some(Collision::Right));
    assert_eq!(collide(Vec2i { x: 0, y: 48 }, size_a, b_pos, size_b), Some(Collision::Top));
    assert_eq!(collide(Vec2i { x: 0, y: -48 }, size_a, b_pos, size_b), Some(Collision::Bottom));
}

#[test]
fn keyboard_all_held() {
    let keys = KeyState { left_up: true, left_down: true, right_up: true, right_down: true };
    let events = keyboard_input_system(keys);
    assert_eq!(events.len(), 4);
    assert_eq!(events[0], PlayerMovementEvent::Up(Player::Left));
    assert_eq!(events[1], PlayerMovementEvent::Down(Player::Left));
    assert_eq!(events[2], PlayerMovementEvent::Up(Player::Right));
    assert_eq!(events[3], PlayerMovementEvent::Down(Player::Right));
}

#[test]
fn keyboard_none_held() {
    let keys = KeyState { left_up: false, left_down: false, right_up: false, right_down: false };
    let events = keyboard_input_system(keys);
    assert!(events.is_empty());
}

#[test]
fn keyboard_mixed() {
    let keys = KeyState { left_up: false, left_down: true, right_up: true, right_down: false };
    let events = keyboard_input_system(keys);
    assert_eq!(events.len(), 2);
    assert_eq!(events[0], PlayerMovementEvent::Down(Player::Left));
    assert_eq!(events[1], PlayerMovementEvent::Up(Player::Right));
}

#[test]
fn isqrt_values() {
    assert_eq!(isqrt(0), 0);
    assert_eq!(isqrt(1), 1);
    assert_eq!(isqrt(3), 1);
    assert_eq!(isqrt(4), 2);
    assert_eq!(isqrt(119), 10);
    assert_eq!(isqrt(143), 11);
    assert_eq!(isqrt(144), 12);
}

#[test]
fn launch_velocity_values() {
    let v = launch_velocity(12, 17);
    assert_eq!(v.0.x, 5);
    assert_eq!(v.0.y, 10);
    let v = launch_velocity(12, 24);
    assert_eq!(v.0.x, 12);
    assert_eq!(v.0.y, 0);
    let v = launch_velocity(0, 99);
    assert_eq!(v.0.x, 0);
    assert_eq!(v.0.y, 0);
}

#[test]
fn percent_values() {
    assert_eq!(percent(1080, 3), 32);
    assert_eq!(percent(1080, 20), 216);
    assert_eq!(percent(1920, 10), 192);
    assert_eq!(percent(7, 0), 0);
}

#[test]
fn ball_speed_values() {
    assert_eq!(compute_ball_speed(Viewport { width: 1000, height: 1000 }), 12);
    assert_eq!(compute_ball_speed(Viewport { width: 1920, height: 1080 }), 24);
}

#[test]
fn walls_exact() {
    let walls = spawn_walls(vp(1920, 1080));
    assert_eq!(walls.len(), 2);
    // wall height = 1080 * 3 / 100 = 32
    assert_eq!(walls[0].center.x, 0);
    assert_eq!(walls[0].center.y, 524);
    assert_eq!(walls[0].size.x, 1920);
    assert_eq!(walls[0].size.y, 32);
    assert_eq!(walls[1].center.y, -524);
}

#[test]
fn pads_exact() {
    let pads = spawn_pad(vp(1920, 1080));
    assert_eq!(pads.len(), 2);
    assert_eq!(pads[0].player, Player::Left);
    assert_eq!(pads[0].center.x, -768);
    assert_eq!(pads[0].center.y, 0);
    assert_eq!(pads[0].size.x, 19);
    assert_eq!(pads[0].size.y, 216);
    assert!(pads[0].collider.is_none());
    assert_eq!(pads[1].player, Player::Right);
    assert_eq!(pads[1].center.x, 768);
    assert!(pads[1].collider.is_some());
}
