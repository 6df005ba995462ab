//! Core simulation of a two-paddle ball-bouncing game.
//!
//! All geometry is carried in fixed-point sub-pixel units: `SCALE` units per
//! pixel, stored in `i64`. The surrounding program converts between pixels
//! (as the rendering layer sees them) and these units, computes the
//! trigonometry of a paddle bounce, and draws a random serve velocity; every
//! decision the game makes is verified here.

use vstd::prelude::*;

verus! {

/// Sub-pixel units per pixel.
pub const SCALE: i64 = 1000;
/// Vertical distance a paddle moves per frame while a movement key is held.
pub const PADDLE_SPEED: i64 = 5 * SCALE;
/// Magnitude of the serve velocity, per frame.
pub const BALL_SPEED: i64 = 6 * SCALE;
/// Horizontal extent of a paddle, also the depth of its collision band.
pub const PADDLE_WIDTH: i64 = 20 * SCALE;
/// Vertical extent of a paddle.
pub const PADDLE_HEIGHT: i64 = 100 * SCALE;
/// Radius of the ball.
pub const BALL_RADIUS: i64 = 8 * SCALE;
/// Horizontal inset of each paddle from its screen edge.
pub const PADDLE_MARGIN: i64 = 20 * SCALE;
/// Length of the freeze after a score, in nanoseconds.
pub const RESET_DELAY_NANOS: u64 = 1_000_000_000;

/// Bound within which screen sizes and freshly laid-out positions live.
pub const COORD_LIMIT: i64 = 0x4000_0000_0000;
/// Bound within which any position stays during a frame's arithmetic.
pub const POS_LIMIT: i64 = 0x1000_0000_0000_0000;
/// Bound on each velocity component.
pub const VEL_LIMIT: i64 = 0x4000_0000;

/// A point or vector in sub-pixel units.
#[derive(Clone, Copy, Debug, PartialEq, Eq, Structural)]
pub struct Vec2 {
    pub x: i64,
    pub y: i64,
}

/// A pressed key, as far as the simulation cares.
#[derive(Clone, Copy, Debug, PartialEq, Eq, Structural)]
pub enum GameKey {
    /// Moves both paddles up.
    Up,
    /// Moves both paddles down.
    Down,
    /// Any other pressed key; ignored.
    Other,
}

/// Which paddle the ball hit.
#[derive(Clone, Copy, Debug, PartialEq, Eq, Structural)]
pub enum Side {
    Left,
    Right,
}

/// A paddle bounce detected during ball movement, awaiting its new velocity.
///
/// The new direction is `offset / (PADDLE_HEIGHT / 2)` radians, at the speed
/// whose square is `speed_sq`; computing the components takes real
/// trigonometry, so the caller does it and hands the result to
/// [`GameState::apply_bounce`].
#[derive(Clone, Copy, Debug, PartialEq, Eq, Structural)]
pub struct PendingBounce {
    /// Which paddle was hit.
    pub side: Side,
    /// Signed vertical distance of the ball's center from the paddle's center.
    pub offset: i64,
    /// Squared magnitude of the ball's velocity at the moment of the hit.
    pub speed_sq: i64,
    /// Whether the ball also crossed a horizontal wall this frame, so the new
    /// vertical velocity must be inverted once applied.
    pub wall: bool,
}

/// What one frame's update hands back to the frame loop: a paddle bounce
/// awaiting its new velocity, and whether a player scored (after which the
/// loop draws a fresh serve velocity and calls
/// [`GameState::reset_after_score`]).
#[derive(Clone, Copy, Debug)]
pub struct FrameResult {
    /// The paddle bounce this frame detected, if any.
    pub bounce: Option<PendingBounce>,
    /// Whether a player scored this frame.
    pub scored: bool,
}

/// The whole state of the game.
pub struct GameState {
    /// Top-left corner of the left paddle.
    pub left_paddle_pos: Vec2,
    /// Top-left corner of the right paddle.
    pub right_paddle_pos: Vec2,
    /// Center of the ball.
    pub ball_pos: Vec2,
    /// Velocity of the ball, per frame.
    pub ball_vel: Vec2,
    /// Points of the left and the right player.
    pub score: (u8, u8),
    /// Whether the player has paused the game.
    pub paused: bool,
    /// Remaining freeze after a score, in nanoseconds; zero when play runs.
    pub delay_nanos: u64,
    /// A paddle bounce whose new velocity has not been applied yet.
    pub pending_bounce: Option<PendingBounce>,
}

/// Both components of `v` lie within `limit` in magnitude.
pub open spec fn vec2_within(v: Vec2, limit: i64) -> bool {
    &&& -limit <= v.x <= limit
    &&& -limit <= v.y <= limit
}

/// Every position of `s` lies in the range fresh layouts are drawn from.
pub open spec fn positions_in_range(s: GameState) -> bool {
    &&& vec2_within(s.left_paddle_pos, COORD_LIMIT)
    &&& vec2_within(s.right_paddle_pos, COORD_LIMIT)
    &&& vec2_within(s.ball_pos, COORD_LIMIT)
}

/// Every position of `s` lies in the wider range a frame's arithmetic allows.
pub open spec fn positions_in_wide_range(s: GameState) -> bool {
    &&& vec2_within(s.left_paddle_pos, POS_LIMIT)
    &&& vec2_within(s.right_paddle_pos, POS_LIMIT)
    &&& vec2_within(s.ball_pos, POS_LIMIT)
}

/// The ball's velocity components lie within `VEL_LIMIT`.
pub open spec fn velocity_in_range(s: GameState) -> bool {
    vec2_within(s.ball_vel, VEL_LIMIT)
}

/// Where the left paddle stands when laid out vertically centered.
pub open spec fn centered_left_paddle(height: i64) -> Vec2 {
    Vec2 { x: PADDLE_MARGIN, y: (height / 2 - PADDLE_HEIGHT / 2) as i64 }
}

/// Where the right paddle stands when laid out vertically centered.
pub open spec fn centered_right_paddle(width: i64, height: i64) -> Vec2 {
    Vec2 {
        x: (width - PADDLE_WIDTH - PADDLE_MARGIN) as i64,
        y: (height / 2 - PADDLE_HEIGHT / 2) as i64,
    }
}

/// The center of the screen.
pub open spec fn screen_center(width: i64, height: i64) -> Vec2 {
    Vec2 { x: (width / 2) as i64, y: (height / 2) as i64 }
}

/// Direction both paddles move, resolved from the pressed keys in the order
/// the input layer reports them: the last movement key wins, `Up` counting as
/// `-1` (the origin is the top-left corner), `Down` as `1`, and `0` when no
/// movement key is pressed.
pub open spec fn paddle_dir(keys: Seq<GameKey>) -> int
    decreases keys.len(),
{
    if keys.len() == 0 {
        0
    } else if keys.last() == GameKey::Up {
        -1
    } else if keys.last() == GameKey::Down {
        1
    } else {
        paddle_dir(keys.drop_last())
    }
}

/// `paddle_dir` only ever resolves to `-1`, `0` or `1`.
pub proof fn lemma_paddle_dir_bounds(keys: Seq<GameKey>)
    ensures
        -1 <= paddle_dir(keys) <= 1,
    decreases keys.len(),
{
    if keys.len() > 0 && keys.last() != GameKey::Up && keys.last() != GameKey::Down {
        lemma_paddle_dir_bounds(keys.drop_last());
    }
}

/// The state after one application of paddle movement: both paddles shifted
/// vertically by the resolved direction times the paddle speed.
pub open spec fn paddle_step(s: GameState, keys: Seq<GameKey>) -> GameState {
    GameState {
        left_paddle_pos: Vec2 {
            x: s.left_paddle_pos.x,
            y: (s.left_paddle_pos.y + paddle_dir(keys) * PADDLE_SPEED) as i64,
        },
        right_paddle_pos: Vec2 {
            x: s.right_paddle_pos.x,
            y: (s.right_paddle_pos.y + paddle_dir(keys) * PADDLE_SPEED) as i64,
        },
        ..s
    }
}

/// The ball's position after one frame of plain movement.
pub open spec fn moved_ball(s: GameState) -> Vec2 {
    Vec2 {
        x: (s.ball_pos.x + s.ball_vel.x) as i64,
        y: (s.ball_pos.y + s.ball_vel.y) as i64,
    }
}

/// Squared magnitude of a velocity vector.
pub open spec fn speed_sq(v: Vec2) -> int {
    v.x * v.x + v.y * v.y
}

/// The ball's leading left edge lies in the band at the left paddle's facing
/// surface: within `PADDLE_WIDTH` behind `left_paddle_pos.x + PADDLE_WIDTH`.
pub open spec fn left_band_hit(s: GameState, ball: Vec2) -> bool {
    let surface = s.left_paddle_pos.x + PADDLE_WIDTH;
    ball.x - BALL_RADIUS < surface && ball.x - BALL_RADIUS > surface - PADDLE_WIDTH
}

/// The ball's leading right edge lies in the band at the right paddle's
/// facing surface: within `PADDLE_WIDTH` past `right_paddle_pos.x`.
pub open spec fn right_band_hit(s: GameState, ball: Vec2) -> bool {
    let surface = s.right_paddle_pos.x;
    ball.x + BALL_RADIUS > surface && ball.x + BALL_RADIUS < surface + PADDLE_WIDTH
}

/// Signed vertical distance of the ball's center from the left paddle's center.
pub open spec fn left_offset(s: GameState, ball: Vec2) -> int {
    ball.y - (s.left_paddle_pos.y + PADDLE_HEIGHT / 2)
}

/// Signed vertical distance of the ball's center from the right paddle's center.
pub open spec fn right_offset(s: GameState, ball: Vec2) -> int {
    ball.y - (s.right_paddle_pos.y + PADDLE_HEIGHT / 2)
}

/// The offset ratio `offset / (PADDLE_HEIGHT / 2)` lies in `[-1, 1]`; a hit
/// outside this band is silently ignored.
pub open spec fn offset_in_band(offset: int) -> bool {
    -(PADDLE_HEIGHT / 2) <= offset <= PADDLE_HEIGHT / 2
}

/// The ball's edge crossed the top wall at `y == 0` or the bottom wall at
/// `y == y_bound`.
pub open spec fn wall_hit(ball: Vec2, y_bound: i64) -> bool {
    ball.y - BALL_RADIUS < 0 || ball.y + BALL_RADIUS > y_bound
}

/// The paddle bounce, if any, that one frame of ball movement detects. The
/// checks run left paddle first, then right, so when both bands report a hit
/// with an offset in range, the right paddle's bounce is the one kept.
pub open spec fn ball_step_bounce(s: GameState, y_bound: i64) -> Option<PendingBounce> {
    let b = moved_ball(s);
    if right_band_hit(s, b) && offset_in_band(right_offset(s, b)) {
        Some(
            PendingBounce {
                side: Side::Right,
                offset: right_offset(s, b) as i64,
                speed_sq: speed_sq(s.ball_vel) as i64,
                wall: wall_hit(b, y_bound),
            },
        )
    } else if left_band_hit(s, b) && offset_in_band(left_offset(s, b)) {
        Some(
            PendingBounce {
                side: Side::Left,
                offset: left_offset(s, b) as i64,
                speed_sq: speed_sq(s.ball_vel) as i64,
                wall: wall_hit(b, y_bound),
            },
        )
    } else {
        None
    }
}

/// The state after one frame of ball movement: position advanced by the
/// velocity; on a wall hit with no paddle bounce pending, the vertical
/// velocity inverted; on a paddle bounce, the velocity left as it was and the
/// bounce recorded for `apply_bounce`.
pub open spec fn ball_step(s: GameState, y_bound: i64) -> GameState {
    let b = moved_ball(s);
    let pend = ball_step_bounce(s, y_bound);
    GameState {
        ball_pos: b,
        ball_vel: if pend is None && wall_hit(b, y_bound) {
            Vec2 { x: s.ball_vel.x, y: (-s.ball_vel.y) as i64 }
        } else {
            s.ball_vel
        },
        pending_bounce: pend,
        ..s
    }
}

/// The ball's left edge has crossed the left screen edge, so the right player
/// scores.
pub open spec fn right_player_scores(s: GameState) -> bool {
    s.ball_pos.x - BALL_RADIUS < 0
}

/// The ball's right edge has crossed `x_bound`, so the left player scores;
/// the left edge is checked first, as in the frame loop.
pub open spec fn left_player_scores(s: GameState, x_bound: i64) -> bool {
    !right_player_scores(s) && s.ball_pos.x + BALL_RADIUS > x_bound
}

/// The score pair after one scoring check.
pub open spec fn score_step(s: GameState, x_bound: i64) -> (u8, u8) {
    if right_player_scores(s) {
        (s.score.0, (s.score.1 + 1) as u8)
    } else if left_player_scores(s, x_bound) {
        ((s.score.0 + 1) as u8, s.score.1)
    } else {
        s.score
    }
}

/// The state after a post-score reset: ball at the screen center serving with
/// `new_vel`, both paddles vertically centered, and the fixed delay armed.
pub open spec fn reset_state(s: GameState, width: i64, height: i64, new_vel: Vec2) -> GameState {
    GameState {
        left_paddle_pos: centered_left_paddle(height),
        right_paddle_pos: centered_right_paddle(width, height),
        ball_pos: screen_center(width, height),
        ball_vel: new_vel,
        delay_nanos: RESET_DELAY_NANOS,
        ..s
    }
}

/// The paused flag after a frame's opening guard: toggled by an edge-triggered press
/// of the pause key.
pub open spec fn gate_paused(s: GameState, pause_just_pressed: bool) -> bool {
    if pause_just_pressed {
        !s.paused
    } else {
        s.paused
    }
}

/// The post-score delay after a frame's opening guard: untouched while the game is
/// paused, otherwise counted down by the frame's elapsed time, floored at
/// zero.
pub open spec fn gate_delay(s: GameState, pause_just_pressed: bool, delta_nanos: u64) -> u64 {
    if gate_paused(s, pause_just_pressed) {
        s.delay_nanos
    } else if s.delay_nanos <= delta_nanos {
        0u64
    } else {
        (s.delay_nanos - delta_nanos) as u64
    }
}

/// Whether the rest of the frame runs: only when the game is not paused after
/// the toggle and no post-score delay was pending when the frame began.
pub open spec fn gate_proceeds(s: GameState, pause_just_pressed: bool, delta_nanos: u64) -> bool {
    !gate_paused(s, pause_just_pressed) && s.delay_nanos == 0
}

/// The state after a frame's opening guard: only the paused flag and the delay change.
pub open spec fn gate_state(s: GameState, pause_just_pressed: bool, delta_nanos: u64) -> GameState {
    GameState {
        paused: gate_paused(s, pause_just_pressed),
        delay_nanos: gate_delay(s, pause_just_pressed, delta_nanos),
        ..s
    }
}

/// The velocity a pending bounce resolves to once the caller has computed the
/// components of the new direction: `toward` points at the opposing side, so
/// it is negated for the right paddle, and `vertical` is inverted when the
/// same frame also hit a wall.
pub open spec fn bounce_velocity(p: PendingBounce, toward: i64, vertical: i64) -> Vec2 {
    Vec2 {
        x: if p.side is Left {
            toward
        } else {
            (-toward) as i64
        },
        y: if p.wall {
            (-vertical) as i64
        } else {
            vertical
        },
    }
}

impl GameState {
    /// Moves both paddles by the direction the pressed keys resolve to.
    /// Every key is examined in the order the input layer reports it, and the
    /// last movement key wins.
    pub fn handle_paddle_movement(&mut self, keys: &Vec<GameKey>)
        requires
            -POS_LIMIT <= old(self).left_paddle_pos.y <= POS_LIMIT,
            -POS_LIMIT <= old(self).right_paddle_pos.y <= POS_LIMIT,
        ensures
            *final(self) == paddle_step(*old(self), keys@),
    {
        let mut dir: i64 = 0;
        let n: usize = keys.len();
        let mut i: usize = 0;
        while i < n
            invariant
                0 <= i <= n,
                n == keys@.len(),
                -1 <= dir <= 1,
                dir == paddle_dir(keys@.take(i as int)),
            decreases n - i,
        {
            match keys[i] {
                GameKey::Up => dir = -1,
                GameKey::Down => dir = 1,
                GameKey::Other => (),
            }
            proof {
                let pre = keys@.take(i as int);
                let post = keys@.take(i + 1 as int);
                assert(post.drop_last() =~= pre);
                assert(post.last() == keys@[i as int]);
            }
            i = i + 1;
        }
        proof {
            assert(keys@.take(n as int) =~= keys@);
            assert(-PADDLE_SPEED <= dir * PADDLE_SPEED <= PADDLE_SPEED) by (nonlinear_arith)
                requires
                    -1 <= dir <= 1,
            ;
        }
        self.left_paddle_pos.y = self.left_paddle_pos.y + dir * PADDLE_SPEED;
        self.right_paddle_pos.y = self.right_paddle_pos.y + dir * PADDLE_SPEED;
    }

    /// Advances the ball by its velocity and resolves collisions. A wall hit
    /// with no paddle bounce inverts the vertical velocity on the spot. A
    /// paddle hit whose offset ratio lies in `[-1, 1]` is returned (and
    /// recorded) as a pending bounce: the caller computes the new velocity
    /// components from its offset and speed and hands them to
    /// [`GameState::apply_bounce`]; a hit outside that band is ignored.
    pub fn handle_ball_movement(&mut self, y_bound: i64) -> (hit: Option<PendingBounce>)
        requires
            positions_in_wide_range(*old(self)),
            velocity_in_range(*old(self)),
            -POS_LIMIT <= y_bound <= POS_LIMIT,
            old(self).pending_bounce is None,
        ensures
            *final(self) == ball_step(*old(self), y_bound),
            hit == final(self).pending_bounce,
    {
        let nx: i64 = self.ball_pos.x + self.ball_vel.x;
        let ny: i64 = self.ball_pos.y + self.ball_vel.y;
        self.ball_pos = Vec2 { x: nx, y: ny };

        proof {
            assert(0 <= self.ball_vel.x * self.ball_vel.x <= VEL_LIMIT * VEL_LIMIT)
                by (nonlinear_arith)
                requires
                    -VEL_LIMIT <= self.ball_vel.x <= VEL_LIMIT,
            ;
            assert(0 <= self.ball_vel.y * self.ball_vel.y <= VEL_LIMIT * VEL_LIMIT)
                by (nonlinear_arith)
                requires
                    -VEL_LIMIT <= self.ball_vel.y <= VEL_LIMIT,
            ;
        }
        let sq: i64 = self.ball_vel.x * self.ball_vel.x + self.ball_vel.y * self.ball_vel.y;

        let mut pending: Option<PendingBounce> = None;

        let left_center_y: i64 = self.left_paddle_pos.y + PADDLE_HEIGHT / 2;
        let left_surface_x: i64 = self.left_paddle_pos.x + PADDLE_WIDTH;
        if nx - BALL_RADIUS < left_surface_x && nx - BALL_RADIUS > left_surface_x - PADDLE_WIDTH {
            let offset: i64 = ny - left_center_y;
            if -(PADDLE_HEIGHT / 2) <= offset && offset <= PADDLE_HEIGHT / 2 {
                pending = Some(
                    PendingBounce { side: Side::Left, offset, speed_sq: sq, wall: false },
                );
            }
        }

        let right_center_y: i64 = self.right_paddle_pos.y + PADDLE_HEIGHT / 2;
        let right_surface_x: i64 = self.right_paddle_pos.x;
        if nx + BALL_RADIUS > right_surface_x && nx + BALL_RADIUS < right_surface_x + PADDLE_WIDTH {
            let offset: i64 = ny - right_center_y;
            if -(PADDLE_HEIGHT / 2) <= offset && offset <= PADDLE_HEIGHT / 2 {
                pending = Some(
                    PendingBounce { side: Side::Right, offset, speed_sq: sq, wall: false },
                );
            }
        }

        let wall: bool = ny - BALL_RADIUS < 0 || ny + BALL_RADIUS > y_bound;
        match pending {
            None => {
                if wall {
                    self.ball_vel = Vec2 { x: self.ball_vel.x, y: -self.ball_vel.y };
                }
            },
            Some(p) => {
                self.pending_bounce = Some(
                    PendingBounce { side: p.side, offset: p.offset, speed_sq: p.speed_sq, wall },
                );
            },
        }
        self.pending_bounce
    }

    /// Installs the velocity of the pending paddle bounce. `toward` is the
    /// horizontal component pointing at the opposing side — it is negated for
    /// a right-paddle bounce, since the ball then travels leftward — and
    /// `vertical` the vertical component, inverted when the bounce frame also
    /// hit a wall. The caller computes both from the pending bounce's offset
    /// ratio and speed.
    pub fn apply_bounce(&mut self, toward: i64, vertical: i64)
        requires
            old(self).pending_bounce is Some,
            -VEL_LIMIT <= toward <= VEL_LIMIT,
            -VEL_LIMIT <= vertical <= VEL_LIMIT,
        ensures
            final(self).pending_bounce is None,
            (old(self).pending_bounce matches Some(p) ==> final(self).ball_vel
                == bounce_velocity(p, toward, vertical)),
            final(self).ball_pos == old(self).ball_pos,
            final(self).left_paddle_pos == old(self).left_paddle_pos,
            final(self).right_paddle_pos == old(self).right_paddle_pos,
            final(self).score == old(self).score,
            final(self).paused == old(self).paused,
            final(self).delay_nanos == old(self).delay_nanos,
    {
        match self.pending_bounce {
            Some(p) => {
                let vx: i64 = match p.side {
                    Side::Left => toward,
                    Side::Right => -toward,
                };
                let vy: i64 = if p.wall {
                    -vertical
                } else {
                    vertical
                };
                self.ball_vel = Vec2 { x: vx, y: vy };
                self.pending_bounce = None;
            },
            None => {},
        }
    }

    /// Checks whether the ball has left the field and scores accordingly:
    /// the right player when the ball's left edge crossed the left screen
    /// edge, the left player when its right edge crossed `x_bound`. Returns
    /// whether a score occurred; positions and velocity are untouched.
    pub fn handle_potential_score(&mut self, x_bound: i64) -> (scored: bool)
        requires
            vec2_within(old(self).ball_pos, POS_LIMIT),
            -POS_LIMIT <= x_bound <= POS_LIMIT,
            old(self).score.0 < 255,
            old(self).score.1 < 255,
        ensures
            final(self).score == score_step(*old(self), x_bound),
            scored == (right_player_scores(*old(self)) || left_player_scores(*old(self), x_bound)),
            final(self).ball_pos == old(self).ball_pos,
            final(self).ball_vel == old(self).ball_vel,
            final(self).left_paddle_pos == old(self).left_paddle_pos,
            final(self).right_paddle_pos == old(self).right_paddle_pos,
            final(self).paused == old(self).paused,
            final(self).delay_nanos == old(self).delay_nanos,
            final(self).pending_bounce == old(self).pending_bounce,
    {
        if self.ball_pos.x - BALL_RADIUS < 0 {
            self.score.1 = self.score.1 + 1;
            true
        } else if self.ball_pos.x + BALL_RADIUS > x_bound {
            self.score.0 = self.score.0 + 1;
            true
        } else {
            false
        }
    }

    /// Puts the field back in its centered layout after a score: ball at the
    /// screen center serving with `new_vel`, paddles vertically centered, and
    /// the fixed one-second delay armed before play resumes. The score and
    /// the paused flag are untouched.
    pub fn reset_after_score(&mut self, width: i64, height: i64, new_vel: Vec2)
        requires
            0 <= width <= COORD_LIMIT,
            0 <= height <= COORD_LIMIT,
            vec2_within(new_vel, VEL_LIMIT),
        ensures
            *final(self) == reset_state(*old(self), width, height, new_vel),
    {
        self.ball_pos = Vec2 { x: width / 2, y: height / 2 };
        self.ball_vel = new_vel;
        self.left_paddle_pos = Vec2 { x: PADDLE_MARGIN, y: height / 2 - PADDLE_HEIGHT / 2 };
        self.right_paddle_pos = Vec2 {
            x: width - PADDLE_WIDTH - PADDLE_MARGIN,
            y: height / 2 - PADDLE_HEIGHT / 2,
        };
        self.delay_nanos = RESET_DELAY_NANOS;
    }

    /// Runs the guard every frame starts with: an edge-triggered press of the
    /// pause key toggles the paused flag; while paused nothing else moves,
    /// not even the post-score delay; otherwise a pending delay is counted
    /// down by the frame's elapsed time and floored at zero. Returns whether
    /// the rest of the frame may run.
    pub fn begin_frame(&mut self, pause_just_pressed: bool, delta_nanos: u64) -> (proceed: bool)
        ensures
            *final(self) == gate_state(*old(self), pause_just_pressed, delta_nanos),
            proceed == gate_proceeds(*old(self), pause_just_pressed, delta_nanos),
    {
        if pause_just_pressed {
            self.paused = !self.paused;
        }
        if self.paused {
            return false;
        }
        if self.delay_nanos > 0 {
            self.delay_nanos = if delta_nanos >= self.delay_nanos {
                0
            } else {
                self.delay_nanos - delta_nanos
            };
            return false;
        }
        true
    }

    /// Runs one whole frame short of the two steps that need the frame loop:
    /// the opening guard (pause toggle and delay countdown), paddle movement,
    /// ball movement with collisions, and the scoring check, in that order.
    /// When the guard blocks the frame, nothing but the paused
    /// flag and the delay changes. The caller finishes the frame by feeding a
    /// returned bounce to [`GameState::apply_bounce`] and, on a score, a
    /// fresh serve velocity to [`GameState::reset_after_score`].
    pub fn update_frame(
        &mut self,
        keys: &Vec<GameKey>,
        pause_just_pressed: bool,
        delta_nanos: u64,
        width: i64,
        height: i64,
    ) -> (r: FrameResult)
        requires
            positions_in_range(*old(self)),
            velocity_in_range(*old(self)),
            old(self).pending_bounce is None,
            old(self).score.0 < 255,
            old(self).score.1 < 255,
            0 <= width <= COORD_LIMIT,
            0 <= height <= COORD_LIMIT,
        ensures
            (!gate_proceeds(*old(self), pause_just_pressed, delta_nanos) ==> {
                &&& *final(self) == gate_state(*old(self), pause_just_pressed, delta_nanos)
                &&& r.bounce is None
                &&& !r.scored
            }),
            (gate_proceeds(*old(self), pause_just_pressed, delta_nanos) ==> {
                let s1 = paddle_step(
                    gate_state(*old(self), pause_just_pressed, delta_nanos),
                    keys@,
                );
                let s2 = ball_step(s1, height);
                &&& *final(self) == (GameState { score: score_step(s2, width), ..s2 })
                &&& r.bounce == s2.pending_bounce
                &&& r.scored == (right_player_scores(s2) || left_player_scores(s2, width))
            }),
    {
        let proceed = self.begin_frame(pause_just_pressed, delta_nanos);
        if !proceed {
            return FrameResult { bounce: None, scored: false };
        }
        proof {
            lemma_paddle_dir_bounds(keys@);
            assert(-PADDLE_SPEED <= paddle_dir(keys@) * PADDLE_SPEED <= PADDLE_SPEED)
                by (nonlinear_arith)
                requires
                    -1 <= paddle_dir(keys@) <= 1,
            ;
        }
        self.handle_paddle_movement(keys);
        let bounce = self.handle_ball_movement(height);
        let scored = self.handle_potential_score(width);
        FrameResult { bounce, scored }
    }

    /// Builds the starting state: paddles and ball centered, no points,
    /// unpaused, ball serving with `initial_vel`.
    pub fn new(width: i64, height: i64, initial_vel: Vec2) -> (s: GameState)
        requires
            0 <= width <= COORD_LIMIT,
            0 <= height <= COORD_LIMIT,
            vec2_within(initial_vel, VEL_LIMIT),
        ensures
            s.left_paddle_pos == centered_left_paddle(height),
            s.right_paddle_pos == centered_right_paddle(width, height),
            s.ball_pos == screen_center(width, height),
            s.ball_vel == initial_vel,
            s.score == (0u8, 0u8),
            !s.paused,
            s.delay_nanos == 0,
            s.pending_bounce is None,
    {
        GameState {
            left_paddle_pos: Vec2 { x: PADDLE_MARGIN, y: height / 2 - PADDLE_HEIGHT / 2 },
            right_paddle_pos: Vec2 {
                x: width - PADDLE_WIDTH - PADDLE_MARGIN,
                y: height / 2 - PADDLE_HEIGHT / 2,
            },
            ball_pos: Vec2 { x: width / 2, y: height / 2 },
            ball_vel: initial_vel,
            score: (0, 0),
            paused: false,
            delay_nanos: 0,
            pending_bounce: None,
        }
    }
}

} // verus!
