//! The game: its states, and what one frame does to it.
//!
//! A frame first judges the ball against the sides of the screen: past the
//! right side the game is won, past the left side it is lost, whatever state
//! it was in. In the menu, and after a win or a loss, the frame then starts
//! play if the confirm signal is held. During play it moves the paddles and
//! the ball and resolves the ball's contacts with the paddles. Starting play
//! again resets nothing: a ball that is off the screen ends the game again in
//! the next frame.

use vstd::prelude::*;
use crate::ball::{Ball, BallView};
use crate::collision::{
    lemma_resolution_keeps_extent_and_pace, lemma_resolved_stays_near, resolve_collision,
    resolved_body, resolved_velocity,
};
use crate::geometry::{Rect, Vec2};
use crate::input::Input;
use crate::paddle::{lemma_paddle_stays_near, lemma_stride_bounds, Player, PlayerView};
use crate::ball::travel;
use crate::units::{PLAYER_MARGIN, PLAYER_WIDTH, REACH, SPEED_STEP, START_SPEED, VEL_ONE};

verus! {

/// What a game is doing.
#[derive(Clone, Copy, Debug, PartialEq, Eq, Structural)]
pub enum GameState {
    /// Waiting for the first game to be started.
    Menu,
    /// Play is on.
    Game,
    /// The ball has left the screen on the right, past the seeking paddle.
    Win,
    /// The ball has left the screen on the left, past the player's paddle.
    Lose,
}

/// Model of a [`Game`].
pub struct GameView {
    pub state: GameState,
    pub left_player: PlayerView,
    pub right_player: PlayerView,
    pub ball: BallView,
    pub score: int,
    pub ball_speed: int,
    pub ai_target: int,
}

impl GameView {
    /// Paddles and ball are well formed.
    pub open spec fn wf(self) -> bool {
        &&& self.left_player.wf()
        &&& self.right_player.wf()
        &&& self.ball.wf()
    }

    /// Whether the game can be stored in a [`Game`].
    pub open spec fn fits(self) -> bool {
        &&& self.left_player.fits()
        &&& self.right_player.fits()
        &&& self.ball.fits()
        &&& 0 <= self.score <= u32::MAX
        &&& 0 <= self.ball_speed <= u32::MAX
        &&& i64::MIN <= self.ai_target <= i64::MAX
    }

    /// The game set up on a screen of the given size: in the menu, the
    /// player's paddle near the left side and the seeking paddle near the
    /// right side, both centred vertically, the ball in the middle with the
    /// given heading, no score, the starting speed, and the seeking paddle at
    /// its target.
    pub open spec fn spawn(screen_width: int, screen_height: int, heading: int) -> GameView {
        let right = PlayerView::spawn(screen_width - PLAYER_WIDTH - PLAYER_MARGIN, screen_height);
        GameView {
            state: GameState::Menu,
            left_player: PlayerView::spawn(PLAYER_MARGIN as int, screen_height),
            right_player: right,
            ball: BallView::spawn(screen_width, screen_height, heading),
            score: 0,
            ball_speed: START_SPEED as int,
            ai_target: right.rect.y,
        }
    }

    /// The state after the ball is judged against the sides of a screen of
    /// the given width: won if its x is beyond the width, else lost if its x
    /// is below 0, else as before.
    pub open spec fn judged(self, screen_width: int) -> GameState {
        if self.ball.rect.x > screen_width {
            GameState::Win
        } else if self.ball.rect.x < 0 {
            GameState::Lose
        } else {
            self.state
        }
    }

    /// Whether the seeking paddle follows the ball in this frame: it does
    /// while the ball moves to the right.
    pub open spec fn chasing(self) -> bool {
        self.ball.vel.x > 0
    }

    /// The player's paddle after a frame of play.
    pub open spec fn left_moved(self, input: Input, dt: int, screen_height: int) -> PlayerView {
        self.left_player.update(input.spec_direction(), dt, screen_height)
    }

    /// The seeking paddle after a frame of play: moved towards the height of
    /// the ball as it is before the frame, if the ball moves to the right;
    /// left where it is otherwise.
    pub open spec fn right_moved(self, dt: int, screen_height: int) -> PlayerView {
        if self.chasing() {
            self.right_player.move_to(dt, self.ball.rect.y, screen_height)
        } else {
            self.right_player
        }
    }

    /// The ball after it has moved for a frame of play, before its contacts
    /// with the paddles are resolved.
    pub open spec fn ball_moved(self, dt: int, screen_height: int) -> BallView {
        self.ball.update(dt, self.ball_speed, screen_height)
    }

    /// Whether the moved ball meets the player's paddle in a frame of play.
    pub open spec fn left_hit(self, input: Input, dt: int, screen_height: int) -> bool {
        self.ball_moved(dt, screen_height).rect.overlaps(
            self.left_moved(input, dt, screen_height).rect,
        )
    }

    /// The ball after its contact with the player's paddle is resolved.
    pub open spec fn ball_off_left(self, input: Input, dt: int, screen_height: int) -> BallView {
        let ball = self.ball_moved(dt, screen_height);
        let paddle = self.left_moved(input, dt, screen_height).rect;
        BallView {
            rect: resolved_body(ball.rect, paddle),
            vel: resolved_velocity(ball.rect, ball.vel, paddle),
        }
    }

    /// Whether the ball, after its contact with the player's paddle is
    /// resolved, meets the seeking paddle in a frame of play.
    pub open spec fn right_hit(self, input: Input, dt: int, screen_height: int) -> bool {
        self.ball_off_left(input, dt, screen_height).rect.overlaps(
            self.right_moved(dt, screen_height).rect,
        )
    }

    /// The ball after its contacts with both paddles are resolved.
    pub open spec fn ball_off_right(self, input: Input, dt: int, screen_height: int) -> BallView {
        let ball = self.ball_off_left(input, dt, screen_height);
        let paddle = self.right_moved(dt, screen_height).rect;
        BallView {
            rect: resolved_body(ball.rect, paddle),
            vel: resolved_velocity(ball.rect, ball.vel, paddle),
        }
    }

    /// The number of paddles the ball meets in a frame of play.
    pub open spec fn hits(self, input: Input, dt: int, screen_height: int) -> int {
        (if self.left_hit(input, dt, screen_height) {
            1int
        } else {
            0int
        }) + (if self.right_hit(input, dt, screen_height) {
            1int
        } else {
            0int
        })
    }

    /// The game after a frame of play of `dt` milliseconds on a screen of the
    /// given height. The paddles move, then the ball; the ball's contact with
    /// the player's paddle is resolved, then its contact with the seeking
    /// paddle. A contact with the player's paddle scores 1. Each contact
    /// raises the speed of the ball. The target of the seeking paddle is the
    /// height the ball had before the frame while the ball moves to the
    /// right, and is kept otherwise.
    pub open spec fn play(self, input: Input, dt: int, screen_height: int) -> GameView {
        GameView {
            state: self.state,
            left_player: self.left_moved(input, dt, screen_height),
            right_player: self.right_moved(dt, screen_height),
            ball: self.ball_off_right(input, dt, screen_height),
            score: if self.left_hit(input, dt, screen_height) {
                self.score + 1
            } else {
                self.score
            },
            ball_speed: self.ball_speed + SPEED_STEP * self.hits(input, dt, screen_height),
            ai_target: if self.chasing() {
                self.ball.rect.y
            } else {
                self.ai_target
            },
        }
    }

    /// Whether everything a frame of play computes is representable.
    pub open spec fn play_fits(self, input: Input, dt: int, screen_height: int) -> bool {
        &&& self.ball_moved(dt, screen_height).fits()
        &&& self.ball_off_left(input, dt, screen_height).fits()
        &&& self.play(input, dt, screen_height).fits()
    }

    /// The game with another state.
    pub open spec fn in_state(self, state: GameState) -> GameView {
        GameView { state, ..self }
    }

    /// The game after one frame of `dt` milliseconds on a screen of the given
    /// size. The ball is judged against the sides of the screen first. If
    /// play is on after that, the frame is a frame of play. Otherwise nothing
    /// moves, and play starts if the confirm signal is held.
    pub open spec fn step(
        self,
        input: Input,
        dt: int,
        screen_width: int,
        screen_height: int,
    ) -> GameView {
        let state = self.judged(screen_width);
        if state == GameState::Game {
            self.in_state(state).play(input, dt, screen_height)
        } else if input.confirm {
            self.in_state(GameState::Game)
        } else {
            self.in_state(state)
        }
    }

    /// Whether the game and a frame of `dt` milliseconds on a screen of the
    /// given height are within reach: the paddles, the ball, the height and
    /// what the ball travels in the frame are within [`REACH`], and score,
    /// speed and velocity are not at the end of their range.
    pub open spec fn in_reach(self, dt: int, screen_height: int) -> bool {
        &&& self.left_player.rect.within(REACH as int)
        &&& self.right_player.rect.within(REACH as int)
        &&& self.ball.rect.within(REACH as int)
        &&& -REACH <= self.ball.vel.x * dt * self.ball_speed <= REACH
        &&& -REACH <= self.ball.vel.y * dt * self.ball_speed <= REACH
        &&& i32::MIN < self.ball.vel.x <= i32::MAX
        &&& i32::MIN < self.ball.vel.y <= i32::MAX
        &&& -REACH <= screen_height <= REACH
        &&& 0 <= dt <= u32::MAX
        &&& 0 <= self.score < u32::MAX
        &&& 0 <= self.ball_speed <= u32::MAX - 2 * SPEED_STEP
        &&& i64::MIN <= self.ai_target <= i64::MAX
    }

    /// Whether the frame can be run without a look at what it computes: it is
    /// no frame of play, or it is within reach.
    pub open spec fn steppable(self, dt: int, screen_width: int, screen_height: int) -> bool {
        self.judged(screen_width) == GameState::Game ==> self.in_reach(dt, screen_height)
    }

    /// Whether everything the frame computes is representable.
    pub open spec fn step_fits(
        self,
        input: Input,
        dt: int,
        screen_width: int,
        screen_height: int,
    ) -> bool {
        self.judged(screen_width) == GameState::Game ==> self.in_state(GameState::Game).play_fits(
            input,
            dt,
            screen_height,
        )
    }
}

/// A game of Pong.
#[derive(Clone, Copy, Debug, PartialEq, Eq, Structural)]
pub struct Game {
    pub state: GameState,
    /// The player's paddle.
    pub left_player: Player,
    /// The seeking paddle.
    pub right_player: Player,
    pub ball: Ball,
    /// Contacts of the ball with the player's paddle so far.
    pub score: u32,
    /// Speed of the ball, in pixels per second.
    pub ball_speed: u32,
    /// The height the seeking paddle last sought.
    pub ai_target: i64,
}

impl View for Game {
    type V = GameView;

    open spec fn view(&self) -> GameView {
        GameView {
            state: self.state,
            left_player: self.left_player@,
            right_player: self.right_player@,
            ball: self.ball@,
            score: self.score as int,
            ball_speed: self.ball_speed as int,
            ai_target: self.ai_target as int,
        }
    }
}

impl Game {
    /// A game set up around the given ball on a screen of the given size.
    fn around(ball: Ball, screen_width: i64, screen_height: i64) -> (g: Game)
        requires
            screen_width - PLAYER_WIDTH - PLAYER_MARGIN >= i64::MIN,
        ensures
            g.ball == ball,
            forall|heading: int|
                ball@ == BallView::spawn(screen_width as int, screen_height as int, heading)
                    ==> g@ == #[trigger] GameView::spawn(
                    screen_width as int,
                    screen_height as int,
                    heading,
                ),
            ball@.wf() ==> g@.wf(),
    {
        let right = Player::new(screen_width - PLAYER_WIDTH - PLAYER_MARGIN, screen_height);
        Game {
            state: GameState::Menu,
            left_player: Player::new(PLAYER_MARGIN, screen_height),
            right_player: right,
            ball,
            score: 0,
            ball_speed: START_SPEED,
            ai_target: right.rect.y,
        }
    }

    /// A game set up on a screen of the given size, with a ball of the given
    /// heading. The width must leave the seeking paddle's x representable.
    pub fn with_heading(screen_width: i64, screen_height: i64, heading: i32) -> (g: Game)
        requires
            screen_width - PLAYER_WIDTH - PLAYER_MARGIN >= i64::MIN,
        ensures
            g@ == GameView::spawn(screen_width as int, screen_height as int, heading as int),
            g@.wf(),
    {
        Self::around(Ball::with_heading(screen_width, screen_height, heading), screen_width,
            screen_height)
    }

    /// A game set up on a screen of the given size, with a ball whose heading
    /// is drawn at random between -1 and 1. The width must leave the seeking
    /// paddle's x representable.
    pub fn new(screen_width: i64, screen_height: i64) -> (g: Game)
        requires
            screen_width - PLAYER_WIDTH - PLAYER_MARGIN >= i64::MIN,
        ensures
            exists|heading: int|
                -VEL_ONE <= heading <= VEL_ONE && g@
                    == #[trigger] GameView::spawn(
                    screen_width as int,
                    screen_height as int,
                    heading,
                ),
            g@.wf(),
    {
        let ball = Ball::new(screen_width, screen_height);
        let ghost heading: int = choose|heading: int|
            -VEL_ONE <= heading <= VEL_ONE && ball@
                == #[trigger] BallView::spawn(screen_width as int, screen_height as int, heading);
        let g = Self::around(ball, screen_width, screen_height);
        assert(g@ == GameView::spawn(screen_width as int, screen_height as int, heading));
        g
    }

    /// The state after the ball is judged against the sides of a screen of
    /// the given width.
    pub fn judged(&self, screen_width: i64) -> (state: GameState)
        ensures
            state == self@.judged(screen_width as int),
    {
        if self.ball.rect.x > screen_width {
            GameState::Win
        } else if self.ball.rect.x < 0 {
            GameState::Lose
        } else {
            self.state
        }
    }

    /// Plays one frame of `dt` milliseconds on a screen of the given height:
    /// moves the paddles and the ball and resolves the ball's contacts with
    /// the paddles, whatever state the game is in.
    ///
    /// Everything the frame computes must be representable.
    pub fn play(&mut self, input: &Input, dt: u32, screen_height: i64)
        requires
            old(self)@.play_fits(*input, dt as int, screen_height as int),
        ensures
            final(self)@ == old(self)@.play(*input, dt as int, screen_height as int),
            final(self).score == old(self).score + (if old(self)@.left_hit(
                *input,
                dt as int,
                screen_height as int,
            ) {
                1int
            } else {
                0int
            }),
            final(self).ball_speed == old(self).ball_speed + SPEED_STEP * old(self)@.hits(
                *input,
                dt as int,
                screen_height as int,
            ),
            old(self)@.wf() ==> final(self)@.wf(),
    {
        if self.ball.vel.x > 0 {
            self.ai_target = self.ball.rect.y;
            self.right_player.move_to(dt, self.ai_target, screen_height);
        }
        self.left_player.update(dt, input, screen_height);
        self.ball.update(dt, self.ball_speed, screen_height);

        let mut rect: Rect = self.ball.rect;
        let mut vel: Vec2 = self.ball.vel;
        proof {
            let ball = old(self)@.ball_moved(dt as int, screen_height as int);
            let next = old(self)@.ball_off_left(*input, dt as int, screen_height as int);
            lemma_resolution_keeps_extent_and_pace(ball.rect, ball.vel, self.left_player.rect@);
            lemma_resolution_keeps_extent_and_pace(next.rect, next.vel, self.right_player.rect@);
        }
        if resolve_collision(&mut rect, &mut vel, &self.left_player.rect) {
            self.score += 1;
            self.ball_speed += SPEED_STEP;
        }
        if resolve_collision(&mut rect, &mut vel, &self.right_player.rect) {
            self.ball_speed += SPEED_STEP;
        }
        self.ball.rect = rect;
        self.ball.vel = vel;
    }

    /// Runs one frame of `dt` milliseconds on a screen of the given size:
    /// judges the ball against the sides of the screen, then plays the frame
    /// if play is on, and otherwise starts play if the confirm signal is
    /// held.
    ///
    /// Everything the frame computes must be representable.
    pub fn step(&mut self, input: &Input, dt: u32, screen_width: i64, screen_height: i64)
        requires
            old(self)@.step_fits(*input, dt as int, screen_width as int, screen_height as int),
        ensures
            final(self)@ == old(self)@.step(
                *input,
                dt as int,
                screen_width as int,
                screen_height as int,
            ),
            old(self)@.wf() ==> final(self)@.wf(),
    {
        self.state = self.judged(screen_width);
        match self.state {
            GameState::Game => {
                self.play(input, dt, screen_height);
            },
            _ => {
                if input.confirm {
                    self.state = GameState::Game;
                }
            },
        }
    }

    /// Whether the game and a frame of `dt` milliseconds on a screen of the
    /// given height are within reach.
    pub fn in_reach(&self, dt: u32, screen_height: i64) -> (r: bool)
        ensures
            r == self@.in_reach(dt as int, screen_height as int),
    {
        let dx: i128 = travel(self.ball.vel.x, dt, self.ball_speed);
        let dy: i128 = travel(self.ball.vel.y, dt, self.ball_speed);
        let reach: i128 = REACH as i128;
        self.left_player.rect.within(REACH) && self.right_player.rect.within(REACH)
            && self.ball.rect.within(REACH) && -reach <= dx && dx <= reach && -reach <= dy && dy
            <= reach && self.ball.vel.x > i32::MIN && self.ball.vel.y > i32::MIN && -REACH
            <= screen_height && screen_height <= REACH && self.score < u32::MAX && self.ball_speed
            <= u32::MAX - 2 * SPEED_STEP
    }

    /// Runs one frame like [`Game::step`] if the frame is no frame of play or
    /// is within reach, and says whether it did. Otherwise the game is left
    /// as it is.
    pub fn try_step(
        &mut self,
        input: &Input,
        dt: u32,
        screen_width: i64,
        screen_height: i64,
    ) -> (stepped: bool)
        ensures
            stepped == old(self)@.steppable(dt as int, screen_width as int, screen_height as int),
            stepped ==> final(self)@ == old(self)@.step(
                *input,
                dt as int,
                screen_width as int,
                screen_height as int,
            ),
            !stepped ==> *final(self) == *old(self),
            old(self)@.wf() ==> final(self)@.wf(),
    {
        if self.judged(screen_width) == GameState::Game && !self.in_reach(dt, screen_height) {
            return false;
        }
        proof {
            if self@.judged(screen_width as int) == GameState::Game {
                lemma_within_reach_fits(
                    self@.in_state(GameState::Game),
                    *input,
                    dt as int,
                    screen_height as int,
                );
            }
        }
        self.step(input, dt, screen_width, screen_height);
        true
    }
}

/// The state a frame leaves the game in: play goes on while the ball is
/// between the sides of the screen; a ball past a side ends it, to a win on
/// the right and to a loss on the left; and from the menu, a win or a loss the
/// confirm signal starts play, also while the ball is past a side.
pub proof fn lemma_step_state(
    g: GameView,
    input: Input,
    dt: int,
    screen_width: int,
    screen_height: int,
)
    ensures
        ({
            let next = g.step(input, dt, screen_width, screen_height).state;
            let off_right = g.ball.rect.x > screen_width;
            let off_left = g.ball.rect.x < 0;
            &&& input.confirm ==> next == GameState::Game
            &&& !input.confirm && off_right ==> next == GameState::Win
            &&& !input.confirm && off_left && !off_right ==> next == GameState::Lose
            &&& !input.confirm && !off_left && !off_right ==> next == g.state
        }),
{
}

/// A frame adds 1 to the score exactly when it is a frame of play in which
/// the ball meets the player's paddle, and adds one step to the speed of the
/// ball for each paddle the ball meets in a frame of play. A frame that is no
/// frame of play moves nothing.
pub proof fn lemma_step_score_and_speed(
    g: GameView,
    input: Input,
    dt: int,
    screen_width: int,
    screen_height: int,
)
    ensures
        ({
            let next = g.step(input, dt, screen_width, screen_height);
            let playing = g.in_state(GameState::Game);
            if g.judged(screen_width) == GameState::Game {
                &&& next.score == g.score + if playing.left_hit(input, dt, screen_height) {
                    1int
                } else {
                    0int
                }
                &&& next.ball_speed == g.ball_speed + SPEED_STEP * playing.hits(
                    input,
                    dt,
                    screen_height,
                )
                &&& 0 <= playing.hits(input, dt, screen_height) <= 2
            } else {
                next.in_state(g.state) == g
            }
        }),
{
}

/// A frame of play that is within reach computes nothing that is not
/// representable.
pub proof fn lemma_within_reach_fits(g: GameView, input: Input, dt: int, screen_height: int)
    requires
        g.in_reach(dt, screen_height),
    ensures
        g.play_fits(input, dt, screen_height),
{
    lemma_stride_bounds(dt);
    lemma_paddle_stays_near(g.left_player, dt, screen_height);
    lemma_paddle_stays_near(g.right_player, dt, screen_height);
    let moved = g.ball_moved(dt, screen_height);
    let off_left = g.ball_off_left(input, dt, screen_height);
    let left = g.left_moved(input, dt, screen_height).rect;
    let right = g.right_moved(dt, screen_height).rect;
    lemma_resolved_stays_near(moved.rect, left);
    lemma_resolution_keeps_extent_and_pace(moved.rect, moved.vel, left);
    lemma_resolved_stays_near(off_left.rect, right);
    lemma_resolution_keeps_extent_and_pace(off_left.rect, off_left.vel, right);
}

} // verus!
