//! The state of a game and its validity.

use vstd::prelude::*;
use crate::config::{
    BULLET_LIMIT, INITIAL_ALIEN_SPEED, INITIAL_COLUMNS, INITIAL_ROWS, TANK_LEFT_BOUND,
    TANK_RIGHT_BOUND, TANK_Y, WINDOW_WIDTH,
};
use crate::entities::{
    alien_models, bullet_models, death_line_bounds, death_line_entity, Alien, AlienModel, Bullet,
    BulletModel, DirectionY, Entity, EntityKind, EntityModel, Tank, TankModel,
};
use crate::laws::law_fresh_game_can_tick;
use crate::swarm::{alien_grid, spawn_aliens};
use crate::tick::Controls;

verus! {

/// Model of a game: everything the rules read or change, as mathematical
/// values. The sequences hold the live objects only, oldest first; an object
/// that is destroyed leaves its sequence at once.
pub struct GameModel {
    pub aliens: Seq<AlienModel>,
    pub bullets: Seq<BulletModel>,
    pub tank: TankModel,
    pub score: nat,
    /// Number of the current wave, counted from 1.
    pub level: nat,
    /// Rows of the alien grid of the current wave.
    pub rows: nat,
    /// Columns of the alien grid of the current wave.
    pub columns: nat,
    /// Alien speed in world units per second.
    pub alien_speed: nat,
    /// True while the round is in play; false for good once it is lost.
    pub running: bool,
    /// Microseconds on the timer that restarts with every shot.
    pub time_since_last_shot: nat,
}

impl GameModel {
    /// The game at its start: the first wave in its grid, no bullet in
    /// flight, the tank in the middle below the death line, no points, and
    /// the timer at zero.
    pub open spec fn initial() -> GameModel {
        GameModel {
            aliens: alien_grid(INITIAL_ROWS as nat, INITIAL_COLUMNS as nat),
            bullets: Seq::empty(),
            tank: TankModel { x: 0, y: TANK_Y as int },
            score: 0,
            level: 1,
            rows: INITIAL_ROWS as nat,
            columns: INITIAL_COLUMNS as nat,
            alien_speed: INITIAL_ALIEN_SPEED as nat,
            running: true,
            time_since_last_shot: 0,
        }
    }

    /// Descriptors of everything on the playfield: the death line, the
    /// tank, the live aliens and the bullets in flight, in this order.
    pub open spec fn entities(self) -> Seq<EntityModel> {
        seq![death_line_entity(), self.tank.entity()] + self.aliens.map_values(
            |a: AlienModel| a.entity(),
        ) + self.bullets.map_values(|b: BulletModel| b.entity())
    }

    /// Whether the counters of the game can be stored: the score, the wave
    /// number and the timer in 64 bits, the difficulty in 32.
    pub open spec fn counters_fit(self) -> bool {
        &&& self.score <= u64::MAX
        &&& self.level <= u64::MAX
        &&& self.rows <= u32::MAX
        &&& self.columns <= u32::MAX
        &&& self.alien_speed <= u32::MAX
        &&& self.time_since_last_shot <= u64::MAX
    }

    /// What holds of every game between two steps: at most
    /// [`BULLET_LIMIT`] bullets are in flight and all of them fly upwards, a
    /// lost round has no aliens left, waves are counted from 1, and the tank
    /// is inside its bounds.
    pub open spec fn wf(self) -> bool {
        &&& self.bullets.len() <= BULLET_LIMIT
        &&& forall|i: int|
            0 <= i < self.bullets.len() ==> (#[trigger] self.bullets[i]).direction == DirectionY::Up
        &&& !self.running ==> self.aliens.len() == 0
        &&& self.level >= 1
        &&& TANK_LEFT_BOUND <= self.tank.x <= TANK_RIGHT_BOUND
    }
}

/// A game of Space Invaders.
#[derive(Clone, Debug, PartialEq, Eq)]
pub struct SpaceInvaders {
    /// The live aliens, oldest first.
    pub aliens: Vec<Alien>,
    /// The bullets in flight, oldest first.
    pub bullets: Vec<Bullet>,
    pub tank: Tank,
    pub score: u64,
    /// Number of the current wave, counted from 1.
    pub level: u64,
    /// Rows of the alien grid of the current wave.
    pub rows: u32,
    /// Columns of the alien grid of the current wave.
    pub columns: u32,
    /// Alien speed in world units per second.
    pub alien_speed: u32,
    /// True while the round is in play; false for good once it is lost.
    pub running: bool,
    /// Microseconds on the timer that restarts with every shot.
    pub time_since_last_shot: u64,
}

impl View for SpaceInvaders {
    type V = GameModel;

    open spec fn view(&self) -> GameModel {
        GameModel {
            aliens: alien_models(self.aliens@),
            bullets: bullet_models(self.bullets@),
            tank: self.tank@,
            score: self.score as nat,
            level: self.level as nat,
            rows: self.rows as nat,
            columns: self.columns as nat,
            alien_speed: self.alien_speed as nat,
            running: self.running,
            time_since_last_shot: self.time_since_last_shot as nat,
        }
    }
}

impl SpaceInvaders {
    /// Sets up a new game. The game is valid and ready for a first step of
    /// any length in which an alien cannot leave the range of the positions
    /// from inside the playfield.
    pub fn setup() -> (game: SpaceInvaders)
        ensures
            game@ == GameModel::initial(),
            game@.wf(),
            forall|controls: Controls, dt: nat|
                WINDOW_WIDTH + INITIAL_ALIEN_SPEED * dt <= i64::MAX ==> #[trigger] game@.tick_fits(
                    controls,
                    dt,
                ),
    {
        let game = SpaceInvaders {
            aliens: spawn_aliens(INITIAL_ROWS, INITIAL_COLUMNS),
            bullets: Vec::new(),
            tank: Tank { x: 0, y: TANK_Y },
            score: 0,
            level: 1,
            rows: INITIAL_ROWS,
            columns: INITIAL_COLUMNS,
            alien_speed: INITIAL_ALIEN_SPEED,
            running: true,
            time_since_last_shot: 0,
        };
        proof {
            assert(game@.bullets =~= Seq::empty());
            assert forall|controls: Controls, dt: nat|
                WINDOW_WIDTH + INITIAL_ALIEN_SPEED * dt <= i64::MAX implies #[trigger] game@.tick_fits(
                controls,
                dt,
            ) by {
                law_fresh_game_can_tick(controls, dt);
            }
        }
        game
    }

    /// Lists the descriptors of everything on the playfield.
    pub fn entities(&self) -> (list: Vec<Entity>)
        ensures
            list@.map_values(|e: Entity| e@) == self@.entities(),
    {
        let mut list: Vec<Entity> = Vec::new();
        list.push(Entity { kind: EntityKind::DeathLine, bounds: death_line_bounds() });
        list.push(Entity { kind: EntityKind::Tank, bounds: self.tank.bounds() });
        let ghost fixed = seq![death_line_entity(), self@.tank.entity()];
        let mut i: usize = 0;
        proof {
            assert(list@.map_values(|e: Entity| e@) =~= fixed + self@.aliens.take(0).map_values(
                |a: AlienModel| a.entity(),
            ));
        }
        while i < self.aliens.len()
            invariant
                i <= self.aliens.len(),
                list@.map_values(|e: Entity| e@) == fixed + self@.aliens.take(i as int).map_values(
                    |a: AlienModel| a.entity(),
                ),
            decreases self.aliens.len() - i,
        {
            let ghost listed = list@.map_values(|e: Entity| e@);
            let ghost seen = self@.aliens.take(i as int).map_values(|a: AlienModel| a.entity());
            list.push(Entity { kind: EntityKind::Alien, bounds: self.aliens[i].bounds() });
            proof {
                let next = self@.aliens[i as int].entity();
                assert(list@.map_values(|e: Entity| e@) =~= listed.push(next));
                assert(self@.aliens.take(i as int + 1).map_values(|a: AlienModel| a.entity())
                    =~= seen.push(next));
                assert((fixed + seen).push(next) =~= fixed + seen.push(next));
            }
            i += 1;
        }
        let ghost with_aliens = fixed + self@.aliens.map_values(|a: AlienModel| a.entity());
        let mut j: usize = 0;
        proof {
            assert(self@.aliens.take(i as int) =~= self@.aliens);
            assert(list@.map_values(|e: Entity| e@) =~= with_aliens + self@.bullets.take(
                0,
            ).map_values(|b: BulletModel| b.entity()));
        }
        while j < self.bullets.len()
            invariant
                j <= self.bullets.len(),
                list@.map_values(|e: Entity| e@) == with_aliens + self@.bullets.take(
                    j as int,
                ).map_values(|b: BulletModel| b.entity()),
            decreases self.bullets.len() - j,
        {
            let ghost listed = list@.map_values(|e: Entity| e@);
            let ghost seen = self@.bullets.take(j as int).map_values(|b: BulletModel| b.entity());
            list.push(Entity { kind: EntityKind::Bullet, bounds: self.bullets[j].bounds() });
            proof {
                let next = self@.bullets[j as int].entity();
                assert(list@.map_values(|e: Entity| e@) =~= listed.push(next));
                assert(self@.bullets.take(j as int + 1).map_values(|b: BulletModel| b.entity())
                    =~= seen.push(next));
                assert((with_aliens + seen).push(next) =~= with_aliens + seen.push(next));
            }
            j += 1;
        }
        proof {
            assert(self@.bullets.take(j as int) =~= self@.bullets);
        }
        list
    }

    /// Tests whether the game is valid, that is whether its model is.
    pub fn is_valid(&self) -> (ok: bool)
        ensures
            ok == self@.wf(),
    {
        if self.bullets.len() > BULLET_LIMIT {
            return false;
        }
        if !self.running && self.aliens.len() != 0 {
            return false;
        }
        if self.level < 1 || self.tank.x < TANK_LEFT_BOUND || self.tank.x > TANK_RIGHT_BOUND {
            return false;
        }
        let mut i: usize = 0;
        while i < self.bullets.len()
            invariant
                i <= self.bullets.len(),
                forall|k: int| 0 <= k < i ==> (#[trigger] self@.bullets[k]).direction == DirectionY::Up,
            decreases self.bullets.len() - i,
        {
            match self.bullets[i].direction {
                DirectionY::Up => {},
                _ => {
                    assert(self@.bullets[i as int].direction != DirectionY::Up);
                    return false;
                },
            }
            i += 1;
        }
        true
    }
}

} // verus!
