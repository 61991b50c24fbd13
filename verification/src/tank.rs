//! The tank: steering between the bounds of the playfield.

use vstd::prelude::*;
use crate::config::{TANK_LEFT_BOUND, TANK_RIGHT_BOUND, TANK_SPEED};
use crate::entities::TankModel;
use crate::game::{GameModel, SpaceInvaders};

verus! {

/// The value nearest to `v` between `low` and `high`.
pub open spec fn clamp(v: int, low: int, high: int) -> int {
    if v < low {
        low
    } else if v > high {
        high
    } else {
        v
    }
}

/// The heading that the two steering keys ask for: -1 for left alone, +1 for
/// right alone, 0 for none or both.
pub open spec fn steering(left: bool, right: bool) -> int {
    (if right { 1int } else { 0int }) - (if left { 1int } else { 0int })
}

impl GameModel {
    /// The game after the tank has been steered for `dt` microseconds. The
    /// tank travels at [`TANK_SPEED`] and stops at its bounds; it never moves
    /// vertically.
    pub open spec fn move_tank(self, left: bool, right: bool, dt: nat) -> GameModel {
        GameModel {
            tank: TankModel {
                x: clamp(
                    self.tank.x + steering(left, right) * TANK_SPEED * dt,
                    TANK_LEFT_BOUND as int,
                    TANK_RIGHT_BOUND as int,
                ),
                y: self.tank.y,
            },
            ..self
        }
    }
}

impl SpaceInvaders {
    /// Steers the tank for `dt` microseconds. The round's state is not
    /// consulted: the tank can still be steered once the round is lost.
    pub fn move_tank(&mut self, left: bool, right: bool, dt: u64)
        ensures
            final(self)@ == old(self)@.move_tank(left, right, dt as nat),
            TANK_LEFT_BOUND <= final(self).tank.x <= TANK_RIGHT_BOUND,
            old(self)@.wf() ==> final(self)@.wf(),
    {
        let travel: i128 = (TANK_SPEED as i128) * (dt as i128);
        assert(0 <= travel <= 50 * 0xffff_ffff_ffff_ffff) by (nonlinear_arith)
            requires
                travel == TANK_SPEED * dt,
                TANK_SPEED == 50,
                0 <= dt <= 0xffff_ffff_ffff_ffff,
        ;
        let mut target: i128 = self.tank.x as i128;
        if left {
            target = target - travel;
        }
        if right {
            target = target + travel;
        }
        assert(target == self.tank.x + steering(left, right) * TANK_SPEED * dt) by (nonlinear_arith)
            requires
                travel == TANK_SPEED * dt,
                target == self.tank.x + (if right { travel as int } else { 0int }) - (if left {
                    travel as int
                } else {
                    0int
                }),
                steering(left, right) == (if right { 1int } else { 0int }) - (if left { 1int } else {
                    0int
                }),
        ;
        if target < (TANK_LEFT_BOUND as i128) {
            self.tank.x = TANK_LEFT_BOUND;
        } else if target > (TANK_RIGHT_BOUND as i128) {
            self.tank.x = TANK_RIGHT_BOUND;
        } else {
            self.tank.x = target as i64;
        }
    }
}

} // verus!
