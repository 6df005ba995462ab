//! Tests of the simulation through its public interface. All geometry is in
//! sub-pixel units: 1000 units per pixel.

use rusty_pong::game::GameKey;
use rusty_pong::game::GameState;
use rusty_pong::game::PendingBounce;
use rusty_pong::game::Side;
use rusty_pong::game::Vec2;

const W: i64 = 800_000;
const H: i64 = 600_000;

fn fresh(vel: Vec2) -> GameState {
    GameState::new(W, H, vel)
}

#[test]
fn new_centers_layout() {
    let s = fresh(Vec2 { x: 6_000, y: 0 });
    assert_eq!(s.left_paddle_pos, Vec2 { x: 20_000, y: 250_000 });
    assert_eq!(s.right_paddle_pos, Vec2 { x: 760_000, y: 250_000 });
    assert_eq!(s.ball_pos, Vec2 { x: 400_000, y: 300_000 });
    assert_eq!(s.ball_vel, Vec2 { x: 6_000, y: 0 });
    assert_eq!(s.score, (0, 0));
    assert!(!s.paused);
    assert_eq!(s.delay_nanos, 0);
    assert!(s.pending_bounce.is_none());
}

#[test]
fn paddles_still_without_movement_key() {
    let mut s = fresh(Vec2 { x: 6_000, y: 0 });
    s.handle_paddle_movement(&vec![]);
    assert_eq!(s.left_paddle_pos.y, 250_000);
    assert_eq!(s.right_paddle_pos.y, 250_000);
    s.handle_paddle_movement(&vec![GameKey::Other, GameKey::Other]);
    assert_eq!(s.left_paddle_pos.y, 250_000);
    assert_eq!(s.right_paddle_pos.y, 250_000);
}

#[test]
fn up_key_moves_paddles_up_by_paddle_speed() {
    // A paddle at 20 pixels stands at 15 pixels after one tick at speed 5.
    let mut s = fresh(Vec2 { x: 6_000, y: 0 });
    s.left_paddle_pos.y = 20_000;
    s.right_paddle_pos.y = 20_000;
    s.handle_paddle_movement(&vec![GameKey::Up]);
    assert_eq!(s.left_paddle_pos.y, 15_000);
    assert_eq!(s.right_paddle_pos.y, 15_000);
    assert_eq!(s.left_paddle_pos.x, 20_000);
    assert_eq!(s.right_paddle_pos.x, 760_000);
}

#[test]
fn down_key_moves_paddles_down_by_paddle_speed() {
    let mut s = fresh(Vec2 { x: 6_000, y: 0 });
    s.handle_paddle_movement(&vec![GameKey::Down]);
    assert_eq!(s.left_paddle_pos.y, 255_000);
    assert_eq!(s.right_paddle_pos.y, 255_000);
}

#[test]
fn last_movement_key_wins() {
    let mut s = fresh(Vec2 { x: 6_000, y: 0 });
    s.handle_paddle_movement(&vec![GameKey::Up, GameKey::Down]);
    assert_eq!(s.left_paddle_pos.y, 255_000);
    let mut t = fresh(Vec2 { x: 6_000, y: 0 });
    t.handle_paddle_movement(&vec![GameKey::Down, GameKey::Other, GameKey::Up]);
    assert_eq!(t.left_paddle_pos.y, 245_000);
}

#[test]
fn ball_moves_by_its_velocity() {
    let mut s = fresh(Vec2 { x: 6_000, y: 3_000 });
    let hit = s.handle_ball_movement(H);
    assert!(hit.is_none());
    assert_eq!(s.ball_pos, Vec2 { x: 406_000, y: 303_000 });
    assert_eq!(s.ball_vel, Vec2 { x: 6_000, y: 3_000 });
}

#[test]
fn wall_bounce_inverts_only_vertical_velocity() {
    let mut s = fresh(Vec2 { x: 6_000, y: -5_000 });
    s.ball_pos = Vec2 { x: 400_000, y: 10_000 };
    let hit = s.handle_ball_movement(H);
    assert!(hit.is_none());
    // The moved ball's top edge is at 5000 - 8000 < 0, so only vy flips.
    assert_eq!(s.ball_pos, Vec2 { x: 406_000, y: 5_000 });
    assert_eq!(s.ball_vel, Vec2 { x: 6_000, y: 5_000 });
}

#[test]
fn out_of_band_offset_is_ignored() {
    let mut s = fresh(Vec2 { x: 6_000, y: 0 });
    // The moved ball reaches the left paddle's band (left edge at 32_000,
    // inside (20_000, 40_000)) but 60_001 units below the paddle's center:
    // an offset ratio beyond 1, so the hit changes nothing.
    s.ball_pos = Vec2 { x: 34_000, y: 360_001 };
    let hit = s.handle_ball_movement(H);
    assert!(hit.is_none());
    assert_eq!(s.ball_vel, Vec2 { x: 6_000, y: 0 });
    assert_eq!(s.ball_pos, Vec2 { x: 40_000, y: 360_001 });
}

#[test]
fn left_paddle_bounce_reports_offset_and_speed() {
    let mut s = fresh(Vec2 { x: 6_000, y: 0 });
    s.ball_pos = Vec2 { x: 34_000, y: 330_000 };
    let hit = s.handle_ball_movement(H);
    assert_eq!(
        hit,
        Some(PendingBounce {
            side: Side::Left,
            offset: 30_000,
            speed_sq: 36_000_000,
            wall: false
        })
    );
    // The velocity waits for the computed bounce components.
    assert_eq!(s.ball_vel, Vec2 { x: 6_000, y: 0 });
    s.apply_bounce(5_000, 3_000);
    assert_eq!(s.ball_vel, Vec2 { x: 5_000, y: 3_000 });
    assert!(s.pending_bounce.is_none());
}

#[test]
fn right_paddle_bounce_negates_horizontal_component() {
    let mut s = fresh(Vec2 { x: 6_000, y: 0 });
    s.ball_pos = Vec2 { x: 755_000, y: 300_000 };
    let hit = s.handle_ball_movement(H);
    let p = hit.expect("the right paddle's band was hit");
    assert_eq!(p.side, Side::Right);
    assert_eq!(p.offset, 0);
    s.apply_bounce(5_000, 1_000);
    assert_eq!(s.ball_vel, Vec2 { x: -5_000, y: 1_000 });
}

#[test]
fn bounce_in_wall_frame_inverts_vertical_component() {
    let mut s = fresh(Vec2 { x: 6_000, y: 0 });
    // A paddle high enough that its band and the top wall are both hit.
    s.left_paddle_pos.y = -40_000;
    s.ball_pos = Vec2 { x: 34_000, y: 5_000 };
    let hit = s.handle_ball_movement(H);
    let p = hit.expect("the left paddle's band was hit");
    assert_eq!(p.side, Side::Left);
    assert_eq!(p.offset, -5_000);
    assert!(p.wall);
    s.apply_bounce(5_000, 3_000);
    assert_eq!(s.ball_vel, Vec2 { x: 5_000, y: -3_000 });
}

#[test]
fn right_scores_when_ball_leaves_on_the_left() {
    let mut s = fresh(Vec2 { x: -6_000, y: 0 });
    s.ball_pos = Vec2 { x: 7_000, y: 300_000 };
    assert!(s.handle_potential_score(W));
    assert_eq!(s.score, (0, 1));
    s.reset_after_score(W, H, Vec2 { x: 6_000, y: 0 });
    assert_eq!(s.ball_pos, Vec2 { x: 400_000, y: 300_000 });
    assert_eq!(s.ball_vel, Vec2 { x: 6_000, y: 0 });
    assert_eq!(s.left_paddle_pos, Vec2 { x: 20_000, y: 250_000 });
    assert_eq!(s.right_paddle_pos, Vec2 { x: 760_000, y: 250_000 });
    assert_eq!(s.delay_nanos, 1_000_000_000);
    assert_eq!(s.score, (0, 1));
}

#[test]
fn left_scores_when_ball_leaves_on_the_right() {
    let mut s = fresh(Vec2 { x: 6_000, y: 0 });
    s.ball_pos = Vec2 { x: 793_001, y: 300_000 };
    assert!(s.handle_potential_score(W));
    assert_eq!(s.score, (1, 0));
}

#[test]
fn no_score_while_ball_is_in_the_field() {
    let mut s = fresh(Vec2 { x: 6_000, y: 0 });
    assert!(!s.handle_potential_score(W));
    assert_eq!(s.score, (0, 0));
}

#[test]
fn pause_freezes_and_elapsed_time_does_not_catch_up() {
    let mut s = fresh(Vec2 { x: 6_000, y: 0 });
    s.delay_nanos = 500_000_000;
    assert!(!s.begin_frame(true, 16_000_000));
    assert!(s.paused);
    assert_eq!(s.delay_nanos, 500_000_000);
    // However much time passes while paused, nothing counts down.
    assert!(!s.begin_frame(false, 3_000_000_000));
    assert_eq!(s.delay_nanos, 500_000_000);
    // Unpausing resumes the countdown with only the new frame's time.
    assert!(!s.begin_frame(true, 16_000_000));
    assert!(!s.paused);
    assert_eq!(s.delay_nanos, 484_000_000);
}

#[test]
fn delay_blocks_frames_until_countdown_reaches_zero() {
    let mut s = fresh(Vec2 { x: 6_000, y: 0 });
    s.reset_after_score(W, H, Vec2 { x: 6_000, y: 0 });
    assert!(!s.begin_frame(false, 400_000_000));
    assert_eq!(s.delay_nanos, 600_000_000);
    assert!(!s.begin_frame(false, 600_000_000));
    assert_eq!(s.delay_nanos, 0);
    // Only the frame after the countdown has reached zero proceeds.
    assert!(s.begin_frame(false, 16_000_000));
}

#[test]
fn update_frame_runs_a_whole_frame() {
    let mut s = fresh(Vec2 { x: 6_000, y: 3_000 });
    let r = s.update_frame(&vec![GameKey::Up], false, 16_000_000, W, H);
    assert!(r.bounce.is_none());
    assert!(!r.scored);
    assert_eq!(s.left_paddle_pos.y, 245_000);
    assert_eq!(s.right_paddle_pos.y, 245_000);
    assert_eq!(s.ball_pos, Vec2 { x: 406_000, y: 303_000 });
    assert_eq!(s.score, (0, 0));
}

#[test]
fn update_frame_mutates_nothing_while_paused() {
    let mut s = fresh(Vec2 { x: 6_000, y: 3_000 });
    s.paused = true;
    let r = s.update_frame(&vec![GameKey::Up], false, 16_000_000, W, H);
    assert!(r.bounce.is_none());
    assert!(!r.scored);
    assert_eq!(s.ball_pos, Vec2 { x: 400_000, y: 300_000 });
    assert_eq!(s.left_paddle_pos.y, 250_000);
    assert_eq!(s.score, (0, 0));
}

#[test]
fn update_frame_scores_during_play() {
    let mut s = fresh(Vec2 { x: -6_000, y: 0 });
    s.ball_pos = Vec2 { x: 12_000, y: 150_000 };
    let r = s.update_frame(&vec![], false, 16_000_000, W, H);
    assert!(r.scored);
    assert_eq!(s.score, (0, 1));
}
