//! Bullets: firing under a cooldown and a cap, and flight to the top of the
//! playfield.

use vstd::prelude::*;
use crate::config::{BULLET_HEIGHT, BULLET_LIMIT, BULLET_SPEED, FIRE_INTERVAL, WINDOW_HEIGHT};
use crate::entities::{bullet_models, Bullet, BulletModel, DirectionY};
use crate::game::{GameModel, SpaceInvaders};

verus! {

/// One bullet after `dt` microseconds of flight at [`BULLET_SPEED`].
pub open spec fn move_bullet(bullet: BulletModel, dt: nat) -> BulletModel {
    BulletModel { y: bullet.y + BULLET_SPEED * dt * bullet.direction.sign(), ..bullet }
}

/// Whether the bullet's upper edge has reached the top of the playfield.
pub open spec fn at_top(bullet: BulletModel) -> bool {
    2 * bullet.y + BULLET_HEIGHT >= WINDOW_HEIGHT
}

impl GameModel {
    /// Whether a step of `dt` microseconds with the given trigger state
    /// fires a bullet: the trigger was pulled in this step, fewer than
    /// [`BULLET_LIMIT`] bullets are in flight, and the timer, this step
    /// included, has passed [`FIRE_INTERVAL`].
    pub open spec fn fires(self, fire: bool, dt: nat) -> bool {
        &&& fire
        &&& self.bullets.len() < BULLET_LIMIT
        &&& self.time_since_last_shot + dt > FIRE_INTERVAL
    }

    /// The game after the trigger has been handled. The timer advances by
    /// `dt`. A shot puts a new bullet at the tank's position, heading up, and
    /// restarts the timer.
    pub open spec fn fire_bullet(self, fire: bool, dt: nat) -> GameModel {
        if self.fires(fire, dt) {
            GameModel {
                bullets: self.bullets.push(
                    BulletModel { x: self.tank.x, y: self.tank.y, direction: DirectionY::Up },
                ),
                time_since_last_shot: 0,
                ..self
            }
        } else {
            GameModel { time_since_last_shot: self.time_since_last_shot + dt, ..self }
        }
    }

    /// The game after the bullets have flown for `dt` microseconds: every
    /// bullet advances, and those that reach the top are destroyed.
    pub open spec fn bullet_system(self, dt: nat) -> GameModel {
        GameModel {
            bullets: self.bullets.map_values(|b: BulletModel| move_bullet(b, dt)).filter(
                |b: BulletModel| !at_top(b),
            ),
            ..self
        }
    }
}

impl SpaceInvaders {
    /// Handles the trigger if the timer can be stored afterwards, and
    /// leaves the game alone if it cannot.
    pub(crate) fn try_fire_bullet(&mut self, fire: bool, dt: u64) -> (fired: Option<bool>)
        requires
            old(self)@.wf(),
        ensures
            fired is Some <==> old(self)@.fire_bullet(fire, dt as nat).counters_fit(),
            fired matches Some(f) ==> {
                &&& final(self)@ == old(self)@.fire_bullet(fire, dt as nat)
                &&& final(self)@.wf()
                &&& f == old(self)@.fires(fire, dt as nat)
            },
            fired is None ==> *final(self) == *old(self),
    {
        let elapsed: Option<u64> = self.time_since_last_shot.checked_add(dt);
        let past_the_interval: bool = match elapsed {
            Some(e) => e > FIRE_INTERVAL,
            None => true,
        };
        if fire && self.bullets.len() < BULLET_LIMIT && past_the_interval {
            self.time_since_last_shot = 0;
            self.bullets.push(Bullet { x: self.tank.x, y: self.tank.y, direction: DirectionY::Up });
            proof {
                assert(self@.bullets =~= old(self)@.fire_bullet(fire, dt as nat).bullets);
            }
            Some(true)
        } else {
            match elapsed {
                Some(e) => {
                    self.time_since_last_shot = e;
                    Some(false)
                },
                None => None,
            }
        }
    }

    /// Advances the timer by `dt` microseconds and fires a bullet if `fire`
    /// is set and the rules allow a shot. Returns whether a bullet was fired.
    /// `fire` stands for the moment the trigger is pulled, not for a trigger
    /// that is held. The round's state is not consulted: the tank can still
    /// fire once the round is lost.
    pub fn fire_bullet(&mut self, fire: bool, dt: u64) -> (fired: bool)
        requires
            old(self)@.wf(),
            old(self)@.fire_bullet(fire, dt as nat).counters_fit(),
        ensures
            final(self)@ == old(self)@.fire_bullet(fire, dt as nat),
            final(self)@.wf(),
            fired == old(self)@.fires(fire, dt as nat),
    {
        match self.try_fire_bullet(fire, dt) {
            Some(fired) => fired,
            // The timer fits, so the trigger is handled.
            None => false,
        }
    }

    /// Lets the bullets fly for `dt` microseconds and destroys those that
    /// reach the top of the playfield.
    pub fn bullet_system(&mut self, dt: u64)
        requires
            old(self)@.wf(),
        ensures
            final(self)@ == old(self)@.bullet_system(dt as nat),
            final(self)@.wf(),
    {
        let ghost before = self@;
        let ghost moved = before.bullets.map_values(|b: BulletModel| move_bullet(b, dt as nat));
        let ghost stays = |b: BulletModel| !at_top(b);
        let mut kept: Vec<Bullet> = Vec::new();
        let mut i: usize = 0;
        proof {
            reveal(Seq::filter);
            assert(moved.take(0) =~= Seq::empty());
            assert(bullet_models(kept@) =~= moved.take(0).filter(stays));
        }
        while i < self.bullets.len()
            invariant
                i <= self.bullets.len(),
                self@ == before,
                before.wf(),
                moved == before.bullets.map_values(|b: BulletModel| move_bullet(b, dt as nat)),
                stays == |b: BulletModel| !at_top(b),
                kept@.len() <= i,
                bullet_models(kept@) == moved.take(i as int).filter(stays),
                forall|k: int|
                    0 <= k < kept@.len() ==> (#[trigger] kept@[k]).direction == DirectionY::Up,
            decreases self.bullets.len() - i,
        {
            let bullet = self.bullets[i];
            assert(before.bullets[i as int] == bullet@);
            assert(bullet.direction == DirectionY::Up);
            let flight: i128 = (BULLET_SPEED as i128) * (dt as i128);
            assert(0 <= flight <= 100 * 0xffff_ffff_ffff_ffff && flight == BULLET_SPEED * dt
                * bullet@.direction.sign()) by (nonlinear_arith)
                requires
                    flight == BULLET_SPEED * dt,
                    BULLET_SPEED == 100,
                    0 <= dt <= 0xffff_ffff_ffff_ffff,
                    bullet@.direction.sign() == 1,
            ;
            let y: i128 = (bullet.y as i128) + flight;
            proof {
                reveal(Seq::filter);
                assert(moved.take(i as int + 1).drop_last() =~= moved.take(i as int));
                assert(moved.take(i as int + 1).last() == move_bullet(bullet@, dt as nat));
            }
            if 2 * y + (BULLET_HEIGHT as i128) < (WINDOW_HEIGHT as i128) {
                let ghost previous = kept@;
                kept.push(Bullet { x: bullet.x, y: y as i64, direction: bullet.direction });
                proof {
                    assert(bullet_models(kept@) =~= bullet_models(previous).push(
                        move_bullet(bullet@, dt as nat),
                    ));
                }
            }
            i += 1;
        }
        proof {
            assert(moved.take(i as int) =~= moved);
        }
        self.bullets = kept;
    }
}

} // verus!
