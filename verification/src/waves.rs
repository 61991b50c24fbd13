//! Waves: a cleared swarm raises the difficulty and brings the next swarm.

use vstd::prelude::*;
use crate::config::{INITIAL_ALIEN_SPEED, INITIAL_COLUMNS, INITIAL_ROWS, SPEED_STEP};
use crate::game::{GameModel, SpaceInvaders};
use crate::swarm::{alien_grid, spawn_aliens};

verus! {

impl GameModel {
    /// Whether the wave is won: no alien is left and the round is in play.
    /// A lost round has no aliens either, and is never won.
    pub open spec fn wave_cleared(self) -> bool {
        self.aliens.len() == 0 && self.running
    }

    /// Rows of the grid of the wave that follows this one.
    pub open spec fn next_rows(self) -> nat {
        if (self.level + 1) % 3 == 0 {
            self.rows + 1
        } else {
            self.rows
        }
    }

    /// Columns of the grid of the wave that follows this one.
    pub open spec fn next_columns(self) -> nat {
        if (self.level + 1) % 3 == 1 {
            self.columns + 1
        } else {
            self.columns
        }
    }

    /// Alien speed of the wave that follows this one.
    pub open spec fn next_alien_speed(self) -> nat {
        if (self.level + 1) % 3 == 2 {
            self.alien_speed + SPEED_STEP as nat
        } else {
            self.alien_speed
        }
    }

    /// The game after the check for a cleared wave. A cleared wave raises
    /// the wave number by one and exactly one difficulty value with it,
    /// chosen by the new number's remainder modulo three: a row for 0, a
    /// column for 1, [`SPEED_STEP`] of speed for 2. Then a fresh grid of the
    /// new size is spawned. Nothing happens while aliens are left or once
    /// the round is lost.
    pub open spec fn check_win(self) -> GameModel {
        if self.wave_cleared() {
            GameModel {
                level: self.level + 1,
                rows: self.next_rows(),
                columns: self.next_columns(),
                alien_speed: self.next_alien_speed(),
                aliens: alien_grid(self.next_rows(), self.next_columns()),
                ..self
            }
        } else {
            self
        }
    }

    /// Whether the difficulty is the one that a game reaches from its start
    /// by clearing waves: every third wave has added a row, a column or
    /// [`SPEED_STEP`] of speed, the speed first.
    pub open spec fn on_schedule(self) -> bool {
        &&& self.level >= 1
        &&& self.rows == INITIAL_ROWS + self.level / 3
        &&& self.columns == INITIAL_COLUMNS + (self.level - 1) / 3
        &&& self.alien_speed == INITIAL_ALIEN_SPEED + SPEED_STEP * ((self.level + 1) / 3)
    }
}

impl SpaceInvaders {
    /// Starts the next wave if the current one is cleared and the new wave
    /// number and difficulty can be stored; leaves the game alone if they
    /// cannot.
    pub(crate) fn try_check_win(&mut self) -> (cleared: Option<bool>)
        requires
            old(self)@.wf(),
        ensures
            cleared is Some <==> old(self)@.check_win().counters_fit(),
            cleared matches Some(c) ==> {
                &&& final(self)@ == old(self)@.check_win()
                &&& final(self)@.wf()
                &&& c == old(self)@.wave_cleared()
            },
            cleared is None ==> *final(self) == *old(self),
    {
        if self.aliens.len() != 0 || !self.running {
            return Some(false);
        }
        if self.level == u64::MAX {
            return None;
        }
        let level: u64 = self.level + 1;
        let remainder: u64 = level % 3;
        if remainder == 0 {
            if self.rows == u32::MAX {
                return None;
            }
            self.rows = self.rows + 1;
        } else if remainder == 1 {
            if self.columns == u32::MAX {
                return None;
            }
            self.columns = self.columns + 1;
        } else {
            if self.alien_speed > u32::MAX - SPEED_STEP {
                return None;
            }
            self.alien_speed = self.alien_speed + SPEED_STEP;
        }
        self.level = level;
        self.aliens = spawn_aliens(self.rows, self.columns);
        Some(true)
    }

    /// Starts the next wave if the current one is cleared. Returns whether
    /// it did.
    pub fn check_win(&mut self) -> (cleared: bool)
        requires
            old(self)@.wf(),
            old(self)@.check_win().counters_fit(),
        ensures
            final(self)@ == old(self)@.check_win(),
            final(self)@.wf(),
            cleared == old(self)@.wave_cleared(),
    {
        match self.try_check_win() {
            Some(cleared) => cleared,
            // The counters fit, so the check does not give up.
            None => false,
        }
    }
}

} // verus!
