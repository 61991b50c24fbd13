//! Rules engine of a Space Invaders game: a grid of aliens sweeps from side to
//! side and descends towards a death line, a tank moves along the bottom of
//! the playfield and fires bullets, and every cleared wave raises the
//! difficulty.
//!
//! A game is a [`SpaceInvaders`] value. [`SpaceInvaders::tick`] advances it by
//! one step; the systems that a step is made of can also be called one by
//! one. All arithmetic is exact integer arithmetic on position steps and
//! microseconds, see [`config`].
//!
//! Every function is specified over the mathematical model of the game,
//! [`game::GameModel`], and [`laws`] holds what is proved of that model.

pub mod bullets;
pub mod collisions;
pub mod config;
pub mod entities;
pub mod game;
pub mod geometry;
pub mod laws;
pub mod swarm;
pub mod tank;
pub mod tick;
pub mod waves;

pub use collisions::CollisionReport;
pub use entities::{Alien, Bullet, DirectionX, DirectionY, Entity, EntityKind, Tank};
pub use game::SpaceInvaders;
pub use geometry::{collide, Aabb};
pub use swarm::spawn_aliens;
pub use tick::{Controls, TickReport};
