//! The ball: where it starts, how it moves, and how it turns at the top and
//! the bottom of the screen.

use vstd::prelude::*;
use crate::geometry::{half, magnitude, sign, Rect, RectView, Vec2, Vec2View};
use crate::heading::{lemma_floor_sqrt_exists, lemma_length_bounds, lemma_normalized_is_unit};
use crate::random::gen_range;
use crate::units::{BALL_SIZE, VEL_ONE};

verus! {

/// Model of a [`Ball`].
pub struct BallView {
    pub rect: RectView,
    pub vel: Vec2View,
}

impl BallView {
    /// A ball has the fixed ball size, and neither component of its velocity
    /// exceeds 1 in magnitude.
    pub open spec fn wf(self) -> bool {
        &&& self.rect.w == BALL_SIZE
        &&& self.rect.h == BALL_SIZE
        &&& self.vel.within_unit()
    }

    /// Whether the ball can be stored in a [`Ball`].
    pub open spec fn fits(self) -> bool {
        self.rect.fits() && self.vel.fits()
    }

    /// The ball set up in the middle of a screen of the given size, heading
    /// downwards along `(heading, 1)` scaled to unit length, where `heading`
    /// is in thousandths.
    pub open spec fn spawn(screen_width: int, screen_height: int, heading: int) -> BallView {
        BallView {
            rect: RectView {
                x: screen_width / 2 - BALL_SIZE / 2,
                y: screen_height / 2 - BALL_SIZE / 2,
                w: BALL_SIZE as int,
                h: BALL_SIZE as int,
            },
            vel: Vec2View { x: heading, y: VEL_ONE as int }.normalized(),
        }
    }

    /// Whether the ball, at height `y`, has gone below the line at which it
    /// turns up again: the bottom of the screen less half the ball's height.
    pub open spec fn past_bottom(self, y: int, screen_height: int) -> bool {
        2 * y > 2 * screen_height - self.rect.h
    }

    /// The ball after a frame of `dt` milliseconds at `speed` pixels per
    /// second. Both coordinates move by velocity times `dt` times `speed`.
    /// Then the vertical velocity is set to 1 if the ball is above the top of
    /// the screen, and after that to -1 if it is past the bottom line. The
    /// horizontal velocity is kept, and the ball is not moved back.
    pub open spec fn update(self, dt: int, speed: int, screen_height: int) -> BallView {
        let x = self.rect.x + self.vel.x * dt * speed;
        let y = self.rect.y + self.vel.y * dt * speed;
        let down = if y < 0 {
            VEL_ONE as int
        } else {
            self.vel.y
        };
        let vy = if self.past_bottom(y, screen_height) {
            -VEL_ONE as int
        } else {
            down
        };
        BallView { rect: RectView { x, y, ..self.rect }, vel: Vec2View { x: self.vel.x, y: vy } }
    }
}

/// The ball.
#[derive(Clone, Copy, Debug, PartialEq, Eq, Structural)]
pub struct Ball {
    pub rect: Rect,
    pub vel: Vec2,
}

impl View for Ball {
    type V = BallView;

    open spec fn view(&self) -> BallView {
        BallView { rect: self.rect@, vel: self.vel@ }
    }
}

/// How far a body with velocity component `v` travels in `dt` milliseconds at
/// `speed` pixels per second.
pub(crate) fn travel(v: i32, dt: u32, speed: u32) -> (r: i128)
    ensures
        r == v as int * dt as int * speed as int,
        -0x8000_0000_0000_0000_0000_0000 <= r <= 0x8000_0000_0000_0000_0000_0000,
{
    assert(0 <= dt as int * speed as int <= 0xFFFF_FFFF * 0xFFFF_FFFF) by (nonlinear_arith)
        requires
            0 <= dt <= 0xFFFF_FFFF,
            0 <= speed <= 0xFFFF_FFFF,
    ;
    let pace: i128 = dt as i128 * speed as i128;
    assert(-0x8000_0000 * (0xFFFF_FFFF * 0xFFFF_FFFF) <= v as int * pace <= 0x8000_0000 * (
    0xFFFF_FFFF * 0xFFFF_FFFF)) by (nonlinear_arith)
        requires
            -0x8000_0000 <= v <= 0x8000_0000,
            0 <= pace <= 0xFFFF_FFFF * 0xFFFF_FFFF,
    ;
    assert(v as int * pace == v as int * dt as int * speed as int) by (nonlinear_arith)
        requires
            pace == dt as int * speed as int,
    ;
    v as i128 * pace
}

impl Ball {
    /// A ball in the middle of a screen of the given size, heading downwards
    /// along `(heading, 1)` scaled to unit length; `heading` is in
    /// thousandths.
    pub fn with_heading(screen_width: i64, screen_height: i64, heading: i32) -> (b: Ball)
        ensures
            b@ == BallView::spawn(screen_width as int, screen_height as int, heading as int),
            b@.wf(),
    {
        Ball {
            rect: Rect {
                x: half(screen_width) - BALL_SIZE / 2,
                y: half(screen_height) - BALL_SIZE / 2,
                w: BALL_SIZE,
                h: BALL_SIZE,
            },
            vel: Vec2 { x: heading, y: VEL_ONE }.normalize(),
        }
    }

    /// A ball in the middle of a screen of the given size, heading downwards
    /// in a direction drawn at random: along `(heading, 1)` scaled to unit
    /// length, for some `heading` between -1 and 1.
    pub fn new(screen_width: i64, screen_height: i64) -> (b: Ball)
        ensures
            exists|heading: int|
                -VEL_ONE <= heading <= VEL_ONE && b@ == #[trigger] BallView::spawn(
                    screen_width as int,
                    screen_height as int,
                    heading,
                ),
            b@.rect == BallView::spawn(screen_width as int, screen_height as int, 0).rect,
            b@.wf(),
    {
        let heading: i32 = gen_range(-VEL_ONE, VEL_ONE);
        Ball::with_heading(screen_width, screen_height, heading)
    }

    /// Moves the ball for a frame of `dt` milliseconds at `speed` pixels per
    /// second, then turns it downwards if it is above the top of a screen of
    /// the given height, and upwards if it is past the bottom line.
    ///
    /// The new position must be representable.
    pub fn update(&mut self, dt: u32, speed: u32, screen_height: i64)
        requires
            old(self)@.update(dt as int, speed as int, screen_height as int).fits(),
        ensures
            final(self)@ == old(self)@.update(dt as int, speed as int, screen_height as int),
            old(self)@.wf() ==> final(self)@.wf(),
    {
        let x: i128 = self.rect.x as i128 + travel(self.vel.x, dt, speed);
        let y: i128 = self.rect.y as i128 + travel(self.vel.y, dt, speed);
        self.rect.x = x as i64;
        self.rect.y = y as i64;
        if y < 0 {
            self.vel.y = VEL_ONE;
        }
        if 2 * y > 2 * (screen_height as i128) - self.rect.h as i128 {
            self.vel.y = -VEL_ONE;
        }
    }
}

/// A ball is set up with a velocity of unit length, up to rounding. With a
/// heading between -1 and 1 it points downwards, at no more than half a right
/// angle from the vertical.
pub proof fn lemma_spawn_velocity_is_unit(screen_width: int, screen_height: int, heading: int)
    ensures
        ({
            let v = BallView::spawn(screen_width, screen_height, heading).vel;
            &&& 995_998 < v.x * v.x + v.y * v.y < 1_002_001
            &&& -VEL_ONE <= heading <= VEL_ONE ==> magnitude(v.x) <= v.y && 707 <= v.y <= VEL_ONE
        }),
{
    let raw = Vec2View { x: heading, y: VEL_ONE as int };
    let n = heading * heading + 1_000_000;
    let len = raw.length();
    assert(heading * heading >= 0) by (nonlinear_arith);
    lemma_floor_sqrt_exists(n as nat);
    lemma_length_bounds(raw.x, raw.y, len);
    lemma_normalized_is_unit(raw);
    if -VEL_ONE <= heading <= VEL_ONE {
        let a = magnitude(heading) * 1000;
        assert(heading * heading <= 1_000_000) by (nonlinear_arith)
            requires
                -1000 <= heading <= 1000,
        ;
        assert(len < 1415) by (nonlinear_arith)
            requires
                0 <= len,
                len * len <= 2_000_000,
        ;
        assert(0 <= a / len <= 1_000_000int / len && 707 <= 1_000_000int / len <= 1000)
            by (nonlinear_arith)
            requires
                1000 <= len < 1415,
                0 <= a <= 1_000_000,
        ;
        let q = a / len;
        let s = sign(heading);
        assert(s * q == q || s * q == -q || s * q == 0) by (nonlinear_arith)
            requires
                -1 <= s <= 1,
        ;
    }
}

/// A ball that is at or above the top of the screen and moving up is turned
/// downwards by a frame exactly when the frame leaves it above the top and not
/// past the bottom line. A frame of no duration or at speed 0 leaves a ball
/// that sits exactly on the top edge as it is.
pub proof fn lemma_turns_down_at_top(b: BallView, dt: int, speed: int, screen_height: int)
    requires
        b.vel.y < 0,
        b.rect.y <= 0,
    ensures
        b.update(dt, speed, screen_height).vel.y == VEL_ONE <==> {
            let y = b.rect.y + b.vel.y * dt * speed;
            y < 0 && !b.past_bottom(y, screen_height)
        },
        dt > 0 && speed > 0 && 2 * screen_height >= b.rect.h ==> b.update(
            dt,
            speed,
            screen_height,
        ).vel.y == VEL_ONE,
{
    if dt > 0 && speed > 0 {
        assert(b.vel.y * dt * speed < 0) by (nonlinear_arith)
            requires
                b.vel.y < 0,
                dt > 0,
                speed > 0,
        ;
    }
}

/// A ball that is at or past the bottom line and moving down is turned
/// upwards by a frame exactly when the frame leaves it past the line. A frame
/// of no duration or at speed 0 leaves a ball that sits exactly on the line as
/// it is.
pub proof fn lemma_turns_up_at_bottom(b: BallView, dt: int, speed: int, screen_height: int)
    requires
        b.vel.y > 0,
        2 * b.rect.y >= 2 * screen_height - b.rect.h,
    ensures
        b.update(dt, speed, screen_height).vel.y == -VEL_ONE <==> b.past_bottom(
            b.rect.y + b.vel.y * dt * speed,
            screen_height,
        ),
        dt > 0 && speed > 0 ==> b.update(dt, speed, screen_height).vel.y == -VEL_ONE,
{
    if dt > 0 && speed > 0 {
        assert(b.vel.y * dt * speed > 0) by (nonlinear_arith)
            requires
                b.vel.y > 0,
                dt > 0,
                speed > 0,
        ;
    }
}

} // verus!
