//! The paddles: one steered by the player's input, one that seeks a target.

use vstd::prelude::*;
use crate::geometry::{half, magnitude, Rect, RectView};
use crate::input::Input;
use crate::units::{PIXEL, PLAYER_HEIGHT, PLAYER_SPEED, PLAYER_WIDTH, VEL_ONE};

verus! {

/// How far a paddle travels in `dt` milliseconds, in sub-pixel units.
pub open spec fn stride(dt: int) -> int {
    dt * PLAYER_SPEED * VEL_ONE
}

/// Model of a [`Player`].
pub struct PlayerView {
    pub rect: RectView,
}

impl PlayerView {
    /// A paddle has the fixed paddle size.
    pub open spec fn wf(self) -> bool {
        self.rect.w == PLAYER_WIDTH && self.rect.h == PLAYER_HEIGHT
    }

    /// Whether the paddle lies between the top and the bottom of a screen of
    /// the given height.
    pub open spec fn on_screen(self, screen_height: int) -> bool {
        0 <= self.rect.y <= screen_height - self.rect.h
    }

    /// Whether the paddle can be stored in a [`Player`].
    pub open spec fn fits(self) -> bool {
        self.rect.fits()
    }

    /// The paddle set up at the given x, centred vertically on the screen.
    pub open spec fn spawn(x: int, screen_height: int) -> PlayerView {
        PlayerView {
            rect: RectView {
                x,
                y: screen_height / 2 - PLAYER_HEIGHT / 2,
                w: PLAYER_WIDTH as int,
                h: PLAYER_HEIGHT as int,
            },
        }
    }

    /// The paddle moved down by `dy`.
    pub open spec fn shifted(self, dy: int) -> PlayerView {
        PlayerView { rect: RectView { y: self.rect.y + dy, ..self.rect } }
    }

    /// The paddle brought back onto the screen: first down to the top edge if
    /// it is above it, then up to where its bottom meets the bottom edge if it
    /// is below that. On a screen lower than the paddle the second step wins.
    pub open spec fn clamped(self, screen_height: int) -> PlayerView {
        let y = if self.rect.y < 0 {
            0
        } else {
            self.rect.y
        };
        let lowest = screen_height - self.rect.h;
        PlayerView {
            rect: RectView {
                y: if y > lowest {
                    lowest
                } else {
                    y
                },
                ..self.rect
            },
        }
    }

    /// The paddle after a frame of `dt` milliseconds in which the player asks
    /// for `direction` (-1, 0 or 1): moved at paddle speed, then clamped.
    pub open spec fn update(self, direction: int, dt: int, screen_height: int) -> PlayerView {
        self.shifted(direction * stride(dt)).clamped(screen_height)
    }

    /// The paddle after a frame of `dt` milliseconds in which it seeks
    /// `target`: left as it is when its y equals the target, else moved at
    /// paddle speed towards it, past it if the frame is long enough, and then
    /// clamped.
    pub open spec fn move_to(self, dt: int, target: int, screen_height: int) -> PlayerView {
        if self.rect.y == target {
            self
        } else if self.rect.y < target {
            self.shifted(stride(dt)).clamped(screen_height)
        } else {
            self.shifted(-stride(dt)).clamped(screen_height)
        }
    }
}

/// A paddle.
#[derive(Clone, Copy, Debug, PartialEq, Eq, Structural)]
pub struct Player {
    pub rect: Rect,
}

impl View for Player {
    type V = PlayerView;

    open spec fn view(&self) -> PlayerView {
        PlayerView { rect: self.rect@ }
    }
}

impl Player {
    /// A paddle of the fixed size at the given x, centred vertically on a
    /// screen of the given height.
    pub fn new(x: i64, screen_height: i64) -> (p: Player)
        ensures
            p@ == PlayerView::spawn(x as int, screen_height as int),
            p@.wf(),
            screen_height >= PLAYER_HEIGHT ==> p@.on_screen(screen_height as int),
    {
        Player {
            rect: Rect {
                x,
                y: half(screen_height) - PLAYER_HEIGHT / 2,
                w: PLAYER_WIDTH,
                h: PLAYER_HEIGHT,
            },
        }
    }

    /// How far a paddle travels in `dt` milliseconds.
    fn stride(dt: u32) -> (r: i128)
        ensures
            r == stride(dt as int),
            0 <= r <= u32::MAX * PIXEL,
    {
        let per_ms: i128 = PLAYER_SPEED as i128 * VEL_ONE as i128;
        proof {
            lemma_stride_bounds(dt as int);
            assert(dt * PLAYER_SPEED * VEL_ONE == dt * per_ms) by (nonlinear_arith)
                requires
                    per_ms == PLAYER_SPEED * VEL_ONE,
            ;
            assert(dt * PIXEL <= u32::MAX * PIXEL) by (nonlinear_arith)
                requires
                    dt <= u32::MAX,
            ;
        }
        dt as i128 * per_ms
    }

    /// Moves the paddle by `dy` and clamps it to the screen.
    fn shift_and_clamp(&mut self, dy: i128, screen_height: i64)
        requires
            -u32::MAX * PIXEL <= dy <= u32::MAX * PIXEL,
            old(self)@.shifted(dy as int).clamped(screen_height as int).fits(),
        ensures
            final(self)@ == old(self)@.shifted(dy as int).clamped(screen_height as int),
    {
        let mut y: i128 = self.rect.y as i128 + dy;
        if y < 0 {
            y = 0;
        }
        let lowest: i128 = screen_height as i128 - self.rect.h as i128;
        if y > lowest {
            y = lowest;
        }
        self.rect.y = y as i64;
    }

    /// Moves the paddle as the player's input asks during a frame of `dt`
    /// milliseconds, then clamps it to a screen of the given height.
    ///
    /// The new position must be representable.
    pub fn update(&mut self, dt: u32, input: &Input, screen_height: i64)
        requires
            old(self)@.update(input.spec_direction(), dt as int, screen_height as int).fits(),
        ensures
            final(self)@ == old(self)@.update(
                input.spec_direction(),
                dt as int,
                screen_height as int,
            ),
            old(self)@.wf() ==> final(self)@.wf(),
            screen_height >= old(self).rect.h ==> final(self)@.on_screen(screen_height as int),
    {
        let dy: i128 = input.direction() as i128 * Self::stride(dt);
        self.shift_and_clamp(dy, screen_height);
    }

    /// Moves the paddle towards `target` during a frame of `dt` milliseconds,
    /// then clamps it to a screen of the given height. A paddle whose y equals
    /// `target` is left as it is, unclamped. The paddle does not stop at the
    /// target: a long enough frame carries it past.
    ///
    /// The new position must be representable.
    pub fn move_to(&mut self, dt: u32, target: i64, screen_height: i64)
        requires
            old(self)@.move_to(dt as int, target as int, screen_height as int).fits(),
        ensures
            final(self)@ == old(self)@.move_to(dt as int, target as int, screen_height as int),
            old(self)@.wf() ==> final(self)@.wf(),
            old(self).rect.y != target && screen_height >= old(self).rect.h
                ==> final(self)@.on_screen(screen_height as int),
    {
        if self.rect.y == target {
            return ;
        }
        let step: i128 = Self::stride(dt);
        if self.rect.y < target {
            self.shift_and_clamp(step, screen_height);
        } else {
            self.shift_and_clamp(-step, screen_height);
        }
    }
}

/// A paddle travels less than a pixel in a millisecond.
pub proof fn lemma_stride_bounds(dt: int)
    requires
        0 <= dt,
    ensures
        0 <= stride(dt) <= dt * PIXEL,
{
    assert(0 <= dt * PLAYER_SPEED * VEL_ONE <= dt * PIXEL) by (nonlinear_arith)
        requires
            0 <= dt,
            0 <= PLAYER_SPEED * VEL_ONE <= PIXEL,
    ;
}

/// A frame moves a paddle by no more than its stride, unless clamping brings
/// it to the top of the screen or to where its bottom meets the bottom of the
/// screen.
pub proof fn lemma_paddle_stays_near(p: PlayerView, dt: int, screen_height: int)
    requires
        0 <= dt,
    ensures
        forall|direction: int|
            -1 <= direction <= 1 ==> {
                let y = (#[trigger] p.update(direction, dt, screen_height)).rect.y;
                y == 0 || y == screen_height - p.rect.h || magnitude(y - p.rect.y) <= stride(dt)
            },
        forall|target: int|
            {
                let y = (#[trigger] p.move_to(dt, target, screen_height)).rect.y;
                y == 0 || y == screen_height - p.rect.h || magnitude(y - p.rect.y) <= stride(dt)
            },
{
    lemma_stride_bounds(dt);
    assert forall|direction: int| -1 <= direction <= 1 implies {
        let y = (#[trigger] p.update(direction, dt, screen_height)).rect.y;
        y == 0 || y == screen_height - p.rect.h || magnitude(y - p.rect.y) <= stride(dt)
    } by {
        assert(direction * stride(dt) == stride(dt) || direction * stride(dt) == -stride(dt)
            || direction * stride(dt) == 0) by (nonlinear_arith)
            requires
                -1 <= direction <= 1,
        ;
    }
}

/// Clamping puts a paddle between the top and the bottom of the screen exactly
/// when the screen is at least as high as the paddle. On a lower screen the
/// clamped paddle sticks out at the top.
pub proof fn lemma_clamped_on_screen(p: PlayerView, screen_height: int)
    ensures
        p.clamped(screen_height).on_screen(screen_height) <==> screen_height >= p.rect.h,
        p.clamped(screen_height).rect.h == p.rect.h,
{
}

} // verus!
