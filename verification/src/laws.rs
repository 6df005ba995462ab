//! Properties of the simulation, stated and proved over the same spec
//! functions the contracts in [`crate::game`] are written with.

use vstd::prelude::*;
use crate::game::ball_step;
use crate::game::ball_step_bounce;
use crate::game::bounce_velocity;
use crate::game::centered_left_paddle;
use crate::game::centered_right_paddle;
use crate::game::gate_proceeds;
use crate::game::gate_state;
use crate::game::left_band_hit;
use crate::game::left_offset;
use crate::game::moved_ball;
use crate::game::offset_in_band;
use crate::game::paddle_dir;
use crate::game::paddle_step;
use crate::game::reset_state;
use crate::game::right_band_hit;
use crate::game::right_offset;
use crate::game::right_player_scores;
use crate::game::score_step;
use crate::game::screen_center;
use crate::game::speed_sq;
use crate::game::velocity_in_range;
use crate::game::wall_hit;
use crate::game::GameKey;
use crate::game::GameState;
use crate::game::PendingBounce;
use crate::game::Vec2;
use crate::game::COORD_LIMIT;
use crate::game::PADDLE_SPEED;
use crate::game::RESET_DELAY_NANOS;
use crate::game::VEL_LIMIT;

verus! {

/// With no movement key among the pressed keys, a frame's paddle movement
/// leaves both paddle positions unchanged.
pub proof fn lemma_no_movement_key_paddles_still(s: GameState, keys: Seq<GameKey>)
    requires
        forall|i: int|
            0 <= i < keys.len() ==> keys[i] != GameKey::Up && keys[i] != GameKey::Down,
    ensures
        paddle_dir(keys) == 0,
        paddle_step(s, keys) == s,
    decreases keys.len(),
{
    if keys.len() > 0 {
        assert(keys.last() == keys[keys.len() - 1]);
        lemma_no_movement_key_paddles_still(s, keys.drop_last());
    }
    assert(paddle_dir(keys) * PADDLE_SPEED == 0) by (nonlinear_arith)
        requires
            paddle_dir(keys) == 0,
    ;
}

/// The last movement key among the pressed keys wins, so with the up key
/// pressed and the down key not pressed, one frame of paddle movement moves
/// both paddles up — y shrinks, the origin being the top-left corner — by
/// exactly the paddle speed.
pub proof fn lemma_up_key_moves_paddles_up(s: GameState, keys: Seq<GameKey>)
    requires
        keys.contains(GameKey::Up),
        !keys.contains(GameKey::Down),
        -COORD_LIMIT <= s.left_paddle_pos.y <= COORD_LIMIT,
        -COORD_LIMIT <= s.right_paddle_pos.y <= COORD_LIMIT,
    ensures
        paddle_dir(keys) == -1,
        paddle_step(s, keys).left_paddle_pos.y == s.left_paddle_pos.y - PADDLE_SPEED,
        paddle_step(s, keys).right_paddle_pos.y == s.right_paddle_pos.y - PADDLE_SPEED,
        paddle_step(s, keys).left_paddle_pos.x == s.left_paddle_pos.x,
        paddle_step(s, keys).right_paddle_pos.x == s.right_paddle_pos.x,
{
    lemma_up_key_wins(keys);
    assert(paddle_dir(keys) * PADDLE_SPEED == -PADDLE_SPEED) by (nonlinear_arith)
        requires
            paddle_dir(keys) == -1,
    ;
}

/// Helper for `lemma_up_key_moves_paddles_up`: the key scan resolves to up.
proof fn lemma_up_key_wins(keys: Seq<GameKey>)
    requires
        keys.contains(GameKey::Up),
        !keys.contains(GameKey::Down),
    ensures
        paddle_dir(keys) == -1,
    decreases keys.len(),
{
    let last = keys.len() - 1;
    assert(keys.last() == keys[last]);
    if keys[last] == GameKey::Down {
        assert(keys.contains(GameKey::Down));
    } else if keys[last] != GameKey::Up {
        let sub = keys.drop_last();
        let i = choose|i: int| 0 <= i < keys.len() && keys[i] == GameKey::Up;
        assert(sub[i] == keys[i]);
        assert(sub.contains(GameKey::Up));
        assert(forall|j: int| 0 <= j < sub.len() ==> sub[j] == keys[j]);
        assert(!sub.contains(GameKey::Down));
        lemma_up_key_wins(sub);
    }
}

/// A ball that reaches a paddle's surface band with an offset ratio greater
/// than one in magnitude neither bounces nor changes velocity that frame
/// (absent a wall hit): the hit is silently ignored, not treated as a miss.
pub proof fn lemma_out_of_band_hit_ignored(s: GameState, y_bound: i64)
    requires
        left_band_hit(s, moved_ball(s)) ==> !offset_in_band(left_offset(s, moved_ball(s))),
        right_band_hit(s, moved_ball(s)) ==> !offset_in_band(right_offset(s, moved_ball(s))),
        !wall_hit(moved_ball(s), y_bound),
    ensures
        ball_step_bounce(s, y_bound) is None,
        ball_step(s, y_bound).ball_vel == s.ball_vel,
{
}

/// A wall collision with no paddle bounce in the same frame inverts exactly
/// the vertical velocity component, leaves the horizontal one unchanged, and
/// so preserves the ball's speed exactly.
pub proof fn lemma_wall_bounce_inverts_y(s: GameState, y_bound: i64)
    requires
        velocity_in_range(s),
        wall_hit(moved_ball(s), y_bound),
        ball_step_bounce(s, y_bound) is None,
    ensures
        ball_step(s, y_bound).ball_vel.x == s.ball_vel.x,
        ball_step(s, y_bound).ball_vel.y == -s.ball_vel.y,
        speed_sq(ball_step(s, y_bound).ball_vel) == speed_sq(s.ball_vel),
{
    let v = s.ball_vel;
    let w = ball_step(s, y_bound).ball_vel;
    assert(w.y * w.y == v.y * v.y) by (nonlinear_arith)
        requires
            w.y == -v.y,
    ;
}

/// Resolving a paddle bounce preserves the ball's speed exactly as far as
/// the simulation decides it: whichever side was hit and whether or not a
/// wall inverts the vertical component, the squared magnitude of the applied
/// velocity equals that of the components handed in.
pub proof fn lemma_bounce_keeps_component_magnitude(p: PendingBounce, toward: i64, vertical: i64)
    requires
        -VEL_LIMIT <= toward <= VEL_LIMIT,
        -VEL_LIMIT <= vertical <= VEL_LIMIT,
    ensures
        speed_sq(bounce_velocity(p, toward, vertical)) == toward * toward + vertical * vertical,
{
    let w = bounce_velocity(p, toward, vertical);
    assert(w.x * w.x == toward * toward && w.y * w.y == vertical * vertical)
        by (nonlinear_arith)
        requires
            w.x == toward || w.x == -toward,
            w.y == vertical || w.y == -vertical,
    ;
}

/// When the ball's left edge has crossed the left screen edge, the scoring
/// check gives the right player exactly one more point and leaves the left
/// player's points unchanged, and the reset that follows puts ball and
/// paddles back in the centered layout with the serve delay armed.
pub proof fn lemma_left_exit_scores_right(
    s: GameState,
    x_bound: i64,
    width: i64,
    height: i64,
    new_vel: Vec2,
)
    requires
        right_player_scores(s),
        s.score.1 < 255,
    ensures
        score_step(s, x_bound).1 == s.score.1 + 1,
        score_step(s, x_bound).0 == s.score.0,
        ({
            let t = reset_state(
                GameState { score: score_step(s, x_bound), ..s },
                width,
                height,
                new_vel,
            );
            &&& t.ball_pos == screen_center(width, height)
            &&& t.ball_vel == new_vel
            &&& t.left_paddle_pos == centered_left_paddle(height)
            &&& t.right_paddle_pos == centered_right_paddle(width, height)
            &&& t.delay_nanos == RESET_DELAY_NANOS
            &&& t.score.1 == s.score.1 + 1
            &&& t.score.0 == s.score.0
        }),
{
}

/// The guard states a run of frames passes through, each frame with the pause
/// key unpressed and its own elapsed time.
pub open spec fn gate_chain(s: GameState, deltas: Seq<u64>) -> GameState
    decreases deltas.len(),
{
    if deltas.len() == 0 {
        s
    } else {
        gate_chain(gate_state(s, false, deltas.first()), deltas.drop_first())
    }
}

/// Whether any frame of such a run gets past its opening guard.
pub open spec fn gate_chain_any_proceeds(s: GameState, deltas: Seq<u64>) -> bool
    decreases deltas.len(),
{
    deltas.len() > 0 && (gate_proceeds(s, false, deltas.first()) || gate_chain_any_proceeds(
        gate_state(s, false, deltas.first()),
        deltas.drop_first(),
    ))
}

/// Total elapsed time of such a run.
pub open spec fn total_nanos(deltas: Seq<u64>) -> int
    decreases deltas.len(),
{
    if deltas.len() == 0 {
        0
    } else {
        deltas.first() + total_nanos(deltas.drop_first())
    }
}

proof fn lemma_total_nanos_nonneg(deltas: Seq<u64>)
    ensures
        total_nanos(deltas) >= 0,
    decreases deltas.len(),
{
    if deltas.len() > 0 {
        lemma_total_nanos_nonneg(deltas.drop_first());
    }
}

/// While the game is paused, frames mutate nothing: no position, velocity,
/// score or delay moves, however much time passes, and every frame is
/// blocked at its opening guard.
pub proof fn lemma_paused_frames_change_nothing(s: GameState, deltas: Seq<u64>)
    requires
        s.paused,
    ensures
        gate_chain(s, deltas) == s,
        !gate_chain_any_proceeds(s, deltas),
    decreases deltas.len(),
{
    if deltas.len() > 0 {
        assert(gate_state(s, false, deltas.first()) == s);
        lemma_paused_frames_change_nothing(s, deltas.drop_first());
    }
}

/// Toggling pause suspends the game until it is toggled again, and the time
/// that passed while paused is not caught up on afterwards: the frames in
/// between change nothing, and after the resuming toggle the post-score
/// delay has only that one frame's own elapsed time subtracted.
pub proof fn lemma_pause_toggle_round_trip(s: GameState, d0: u64, deltas: Seq<u64>, d1: u64)
    requires
        !s.paused,
    ensures
        ({
            let s1 = gate_state(s, true, d0);
            let s2 = gate_chain(s1, deltas);
            let s3 = gate_state(s2, true, d1);
            &&& s1 == (GameState { paused: true, ..s })
            &&& s2 == s1
            &&& !gate_chain_any_proceeds(s1, deltas)
            &&& !s3.paused
            &&& s3.delay_nanos == if s.delay_nanos <= d1 {
                0int
            } else {
                s.delay_nanos - d1
            }
            &&& s3.ball_pos == s.ball_pos
            &&& s3.ball_vel == s.ball_vel
            &&& s3.left_paddle_pos == s.left_paddle_pos
            &&& s3.right_paddle_pos == s.right_paddle_pos
            &&& s3.score == s.score
            &&& s3.pending_bounce == s.pending_bounce
        }),
{
    let s1 = gate_state(s, true, d0);
    lemma_paused_frames_change_nothing(s1, deltas);
}

/// While the post-score delay is running and the game is unpaused, frames
/// only count the delay down — by exactly the time that passed, with no
/// position, velocity or score mutated — and all of them are blocked at
/// their opening guard before the countdown reaches zero.
pub proof fn lemma_delay_window_freezes(s: GameState, deltas: Seq<u64>)
    requires
        !s.paused,
        total_nanos(deltas) < s.delay_nanos,
    ensures
        gate_chain(s, deltas) == (GameState {
            delay_nanos: (s.delay_nanos - total_nanos(deltas)) as u64,
            ..s
        }),
        !gate_chain_any_proceeds(s, deltas),
    decreases deltas.len(),
{
    if deltas.len() > 0 {
        let d = deltas.first();
        let s1 = gate_state(s, false, d);
        lemma_total_nanos_nonneg(deltas.drop_first());
        lemma_delay_window_freezes(s1, deltas.drop_first());
    }
}

/// Movement resumes exactly when the countdown has reached zero: an unpaused
/// frame runs in full if and only if no delay is pending as the frame
/// begins.
pub proof fn lemma_resume_exactly_at_zero(s: GameState, delta_nanos: u64)
    ensures
        gate_proceeds(s, false, delta_nanos) <==> (!s.paused && s.delay_nanos == 0),
{
}

} // verus!
