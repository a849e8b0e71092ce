//! What the player holds down during one frame.

use vstd::prelude::*;

verus! {

/// The five signals of one frame, each `true` while its key is held: two for
/// "up", two for "down", and one to start or restart a game.
#[derive(Clone, Copy, Debug, PartialEq, Eq, Structural)]
pub struct Input {
    pub up: bool,
    pub alt_up: bool,
    pub down: bool,
    pub alt_down: bool,
    pub confirm: bool,
}

impl Input {
    /// The vertical direction the signals ask for: -1 (up) when an "up" signal
    /// is held and no "down" signal, 1 (down) when a "down" signal is held and
    /// no "up" signal, 0 when neither or both are held.
    pub open spec fn spec_direction(self) -> int {
        let up = self.up || self.alt_up;
        let down = self.down || self.alt_down;
        if up && !down {
            -1
        } else if down && !up {
            1
        } else {
            0
        }
    }

    /// The vertical direction the signals ask for: -1, 0 or 1.
    pub fn direction(&self) -> (d: i32)
        ensures
            d == self.spec_direction(),
    {
        match (self.up || self.alt_up, self.down || self.alt_down) {
            (true, false) => -1,
            (false, true) => 1,
            _ => 0,
        }
    }
}

} // verus!
