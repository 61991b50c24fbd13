//! One step of the game: the systems in their fixed order.

use vstd::prelude::*;
use crate::collisions::CollisionReport;
use crate::entities::{Alien, Bullet};
use crate::game::{GameModel, SpaceInvaders};

verus! {

/// The player's input, sampled once per step.
#[derive(Clone, Copy, Debug, PartialEq, Eq)]
pub struct Controls {
    /// The key that steers left is held.
    pub left: bool,
    /// The key that steers right is held.
    pub right: bool,
    /// The trigger was pulled since the last step.
    pub fire: bool,
}

/// What one step brought about, for whoever draws the game.
#[derive(Clone, Copy, Debug, PartialEq, Eq)]
pub struct TickReport {
    /// A bullet was fired.
    pub fired: bool,
    /// Number of aliens that bullets destroyed.
    pub hits: u64,
    /// The round was lost in this step.
    pub game_over: bool,
    /// The wave was cleared in this step and the next one has been spawned.
    pub wave_cleared: bool,
}

/// One step of a run: the input sampled for it and its length in
/// microseconds.
pub struct Step {
    pub controls: Controls,
    pub dt: nat,
}

/// Total length of a sequence of steps in microseconds.
pub open spec fn total_dt(steps: Seq<Step>) -> nat
    decreases steps.len(),
{
    if steps.len() == 0 {
        0
    } else {
        total_dt(steps.drop_last()) + steps.last().dt
    }
}

impl GameModel {
    /// The game when the collisions of a step are about to be resolved: the
    /// swarm has moved, the tank has been steered, the trigger has been
    /// handled and the bullets have flown, in this order.
    pub open spec fn advance(self, controls: Controls, dt: nat) -> GameModel {
        self.move_aliens(dt).move_tank(controls.left, controls.right, dt).fire_bullet(
            controls.fire,
            dt,
        ).bullet_system(dt)
    }

    /// The game after one step of `dt` microseconds: everything moves, then
    /// collisions are resolved on the new positions, then the wave check
    /// sees what the collisions left.
    pub open spec fn tick(self, controls: Controls, dt: nat) -> GameModel {
        self.advance(controls, dt).check_for_collisions().check_win()
    }

    /// The game after a sequence of steps, taken in order.
    pub open spec fn run(self, steps: Seq<Step>) -> GameModel
        decreases steps.len(),
    {
        if steps.len() == 0 {
            self
        } else {
            self.run(steps.drop_last()).tick(steps.last().controls, steps.last().dt)
        }
    }

    /// Whether a bullet is fired in a step.
    pub open spec fn tick_fires(self, controls: Controls, dt: nat) -> bool {
        self.move_aliens(dt).move_tank(controls.left, controls.right, dt).fires(controls.fire, dt)
    }

    /// Whether a report tells what a step brings about: whether a bullet is
    /// fired, how many aliens the bullets destroy, whether an alien reaches
    /// the death line, and whether the wave is cleared.
    pub open spec fn tick_reports(self, controls: Controls, dt: nat, report: TickReport) -> bool {
        &&& report.fired == self.tick_fires(controls, dt)
        &&& report.hits == self.advance(controls, dt).hit_count()
        &&& report.game_over == self.advance(controls, dt).breached()
        &&& report.wave_cleared == self.advance(controls, dt).check_for_collisions().wave_cleared()
    }

    /// Whether the machine's integers can hold a step: the swarm after its
    /// move, which comes first, and the counters of the game after the whole
    /// step.
    pub open spec fn tick_fits(self, controls: Controls, dt: nat) -> bool {
        &&& self.aliens_can_move(dt)
        &&& self.tick(controls, dt).counters_fit()
    }
}

impl SpaceInvaders {
    /// A copy of the game.
    fn duplicate(&self) -> (copy: SpaceInvaders)
        ensures
            copy@ == self@,
    {
        let mut aliens: Vec<Alien> = Vec::new();
        let mut i: usize = 0;
        while i < self.aliens.len()
            invariant
                i <= self.aliens.len(),
                aliens@ == self.aliens@.take(i as int),
            decreases self.aliens.len() - i,
        {
            aliens.push(self.aliens[i]);
            assert(aliens@ =~= self.aliens@.take(i as int + 1));
            i += 1;
        }
        let mut bullets: Vec<Bullet> = Vec::new();
        let mut j: usize = 0;
        while j < self.bullets.len()
            invariant
                j <= self.bullets.len(),
                bullets@ == self.bullets@.take(j as int),
            decreases self.bullets.len() - j,
        {
            bullets.push(self.bullets[j]);
            assert(bullets@ =~= self.bullets@.take(j as int + 1));
            j += 1;
        }
        proof {
            assert(aliens@ =~= self.aliens@);
            assert(bullets@ =~= self.bullets@);
        }
        SpaceInvaders {
            aliens: aliens,
            bullets: bullets,
            tank: self.tank,
            score: self.score,
            level: self.level,
            rows: self.rows,
            columns: self.columns,
            alien_speed: self.alien_speed,
            running: self.running,
            time_since_last_shot: self.time_since_last_shot,
        }
    }

    /// Takes one step as far as the machine's integers allow. A step that
    /// they cannot hold is given up where it fails, and the game is then
    /// left half way through it.
    fn step(&mut self, controls: Controls, dt: u64) -> (report: Option<TickReport>)
        requires
            old(self)@.wf(),
        ensures
            report is Some <==> old(self)@.tick_fits(controls, dt as nat),
            report matches Some(r) ==> {
                &&& final(self)@ == old(self)@.tick(controls, dt as nat)
                &&& final(self)@.wf()
                &&& old(self)@.tick_reports(controls, dt as nat, r)
            },
    {
        if !self.aliens_can_move(dt) {
            return None;
        }
        self.move_aliens(dt);
        self.move_tank(controls.left, controls.right, dt);
        let fired: bool = match self.try_fire_bullet(controls.fire, dt) {
            Some(fired) => fired,
            None => {
                return None;
            },
        };
        self.bullet_system(dt);
        let collisions: CollisionReport = match self.try_check_for_collisions() {
            Some(collisions) => collisions,
            None => {
                return None;
            },
        };
        let wave_cleared: bool = match self.try_check_win() {
            Some(wave_cleared) => wave_cleared,
            None => {
                return None;
            },
        };
        Some(
            TickReport {
                fired: fired,
                hits: collisions.hits,
                game_over: collisions.game_over,
                wave_cleared: wave_cleared,
            },
        )
    }

    /// Advances the game by one step of `dt` microseconds: the swarm moves,
    /// the tank is steered, the trigger is handled, the bullets fly,
    /// collisions are resolved and the wave is checked, in this order.
    pub fn tick(&mut self, controls: Controls, dt: u64) -> (report: TickReport)
        requires
            old(self)@.wf(),
            old(self)@.tick_fits(controls, dt as nat),
        ensures
            final(self)@ == old(self)@.tick(controls, dt as nat),
            final(self)@.wf(),
            old(self)@.tick_reports(controls, dt as nat, report),
    {
        match self.step(controls, dt) {
            Some(report) => report,
            // The step fits, so it is taken to the end.
            None => TickReport { fired: false, hits: 0, game_over: false, wave_cleared: false },
        }
    }

    /// Advances the game by one step of `dt` microseconds if the machine's
    /// integers can hold the step, and leaves the game as it is if they
    /// cannot.
    pub fn try_tick(&mut self, controls: Controls, dt: u64) -> (report: Option<TickReport>)
        requires
            old(self)@.wf(),
        ensures
            report is Some <==> old(self)@.tick_fits(controls, dt as nat),
            report matches Some(r) ==> {
                &&& final(self)@ == old(self)@.tick(controls, dt as nat)
                &&& final(self)@.wf()
                &&& old(self)@.tick_reports(controls, dt as nat, r)
            },
            report is None ==> *final(self) == *old(self),
    {
        let mut next = self.duplicate();
        let report = next.step(controls, dt);
        if report.is_some() {
            *self = next;
        }
        report
    }
}

} // verus!
