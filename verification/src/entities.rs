//! The objects on the playfield: aliens, bullets, the tank and the death
//! line, each with a mathematical model that the rules are stated over.

use vstd::prelude::*;
use crate::config::{
    ALIEN_HEIGHT, ALIEN_WIDTH, BULLET_HEIGHT, BULLET_WIDTH, DEATH_LINE, DEATH_LINE_HEIGHT,
    TANK_HEIGHT, TANK_WIDTH, WINDOW_WIDTH,
};
use crate::geometry::{Aabb, Rect};

verus! {

/// Horizontal heading of a moving object.
#[derive(Clone, Copy, Debug, PartialEq, Eq, Structural)]
pub enum DirectionX {
    /// No horizontal motion; an object with this heading never reverses.
    Still,
    Left,
    Right,
}

/// Vertical heading of a moving object.
#[derive(Clone, Copy, Debug, PartialEq, Eq, Structural)]
pub enum DirectionY {
    /// No vertical motion.
    Still,
    Down,
    Up,
}

impl DirectionX {
    /// The heading as a factor: -1 to the left, +1 to the right.
    pub open spec fn sign(self) -> int {
        match self {
            DirectionX::Still => 0,
            DirectionX::Left => -1,
            DirectionX::Right => 1,
        }
    }

    /// The opposite heading; no heading stays no heading.
    pub open spec fn reversed(self) -> DirectionX {
        match self {
            DirectionX::Still => DirectionX::Still,
            DirectionX::Left => DirectionX::Right,
            DirectionX::Right => DirectionX::Left,
        }
    }
}

impl DirectionY {
    /// The heading as a factor: -1 downwards, +1 upwards.
    pub open spec fn sign(self) -> int {
        match self {
            DirectionY::Still => 0,
            DirectionY::Down => -1,
            DirectionY::Up => 1,
        }
    }
}

/// The kinds of object on the playfield.
#[derive(Clone, Copy, Debug, PartialEq, Eq, Structural)]
pub enum EntityKind {
    Alien,
    Bullet,
    Tank,
    DeathLine,
}

/// Model of an object's descriptor.
pub struct EntityModel {
    pub kind: EntityKind,
    pub bounds: Rect,
}

/// Model of an alien.
pub struct AlienModel {
    /// Centre of the alien.
    pub x: int,
    pub y: int,
    pub direction: DirectionX,
    /// Signed horizontal distance travelled since the alien was spawned.
    pub h_step: int,
}

impl AlienModel {
    /// The box that the alien fills.
    pub open spec fn bounds(self) -> Rect {
        Rect { x: self.x, y: self.y, width: ALIEN_WIDTH as int, height: ALIEN_HEIGHT as int }
    }

    /// Descriptor of the alien.
    pub open spec fn entity(self) -> EntityModel {
        EntityModel { kind: EntityKind::Alien, bounds: self.bounds() }
    }

    /// Whether the alien has reached the death line.
    pub open spec fn on_death_line(self) -> bool {
        self.bounds().overlaps(death_line())
    }
}

/// Model of a bullet.
pub struct BulletModel {
    /// Centre of the bullet.
    pub x: int,
    pub y: int,
    pub direction: DirectionY,
}

impl BulletModel {
    /// The box that the bullet fills.
    pub open spec fn bounds(self) -> Rect {
        Rect { x: self.x, y: self.y, width: BULLET_WIDTH as int, height: BULLET_HEIGHT as int }
    }

    /// Descriptor of the bullet.
    pub open spec fn entity(self) -> EntityModel {
        EntityModel { kind: EntityKind::Bullet, bounds: self.bounds() }
    }

    /// Whether the bullet strikes the given alien.
    pub open spec fn hits(self, alien: AlienModel) -> bool {
        alien.bounds().overlaps(self.bounds())
    }
}

/// Model of the tank.
pub struct TankModel {
    /// Centre of the tank.
    pub x: int,
    pub y: int,
}

impl TankModel {
    /// The box that the tank fills.
    pub open spec fn bounds(self) -> Rect {
        Rect { x: self.x, y: self.y, width: TANK_WIDTH as int, height: TANK_HEIGHT as int }
    }

    /// Descriptor of the tank.
    pub open spec fn entity(self) -> EntityModel {
        EntityModel { kind: EntityKind::Tank, bounds: self.bounds() }
    }
}

/// The death line: a thin box across the whole playfield that never moves.
pub open spec fn death_line() -> Rect {
    Rect { x: 0, y: DEATH_LINE as int, width: WINDOW_WIDTH as int, height: DEATH_LINE_HEIGHT as int }
}

/// Descriptor of the death line.
pub open spec fn death_line_entity() -> EntityModel {
    EntityModel { kind: EntityKind::DeathLine, bounds: death_line() }
}

/// An alien of the swarm.
#[derive(Clone, Copy, Debug, PartialEq, Eq)]
pub struct Alien {
    /// Centre of the alien, in position steps.
    pub x: i64,
    pub y: i64,
    pub direction: DirectionX,
    /// Signed horizontal distance travelled since the alien was spawned.
    pub h_step: i64,
}

impl View for Alien {
    type V = AlienModel;

    open spec fn view(&self) -> AlienModel {
        AlienModel {
            x: self.x as int,
            y: self.y as int,
            direction: self.direction,
            h_step: self.h_step as int,
        }
    }
}

/// A bullet in flight.
#[derive(Clone, Copy, Debug, PartialEq, Eq)]
pub struct Bullet {
    /// Centre of the bullet, in position steps.
    pub x: i64,
    pub y: i64,
    pub direction: DirectionY,
}

impl View for Bullet {
    type V = BulletModel;

    open spec fn view(&self) -> BulletModel {
        BulletModel { x: self.x as int, y: self.y as int, direction: self.direction }
    }
}

/// The player's tank.
#[derive(Clone, Copy, Debug, PartialEq, Eq)]
pub struct Tank {
    /// Centre of the tank, in position steps.
    pub x: i64,
    pub y: i64,
}

impl View for Tank {
    type V = TankModel;

    open spec fn view(&self) -> TankModel {
        TankModel { x: self.x as int, y: self.y as int }
    }
}

/// Descriptor of one object on the playfield: its kind, and its position and
/// extent as a box. It is what a renderer needs to draw the object.
#[derive(Clone, Copy, Debug, PartialEq, Eq)]
pub struct Entity {
    pub kind: EntityKind,
    pub bounds: Aabb,
}

impl View for Entity {
    type V = EntityModel;

    open spec fn view(&self) -> EntityModel {
        EntityModel { kind: self.kind, bounds: self.bounds@ }
    }
}

impl Alien {
    /// The box that the alien fills.
    pub fn bounds(&self) -> (b: Aabb)
        ensures
            b@ == self@.bounds(),
    {
        Aabb { x: self.x, y: self.y, width: ALIEN_WIDTH, height: ALIEN_HEIGHT }
    }
}

impl Bullet {
    /// The box that the bullet fills.
    pub fn bounds(&self) -> (b: Aabb)
        ensures
            b@ == self@.bounds(),
    {
        Aabb { x: self.x, y: self.y, width: BULLET_WIDTH, height: BULLET_HEIGHT }
    }
}

impl Tank {
    /// The box that the tank fills.
    pub fn bounds(&self) -> (b: Aabb)
        ensures
            b@ == self@.bounds(),
    {
        Aabb { x: self.x, y: self.y, width: TANK_WIDTH, height: TANK_HEIGHT }
    }
}

/// The box of the death line.
pub fn death_line_bounds() -> (b: Aabb)
    ensures
        b@ == death_line(),
{
    Aabb { x: 0, y: DEATH_LINE, width: WINDOW_WIDTH, height: DEATH_LINE_HEIGHT }
}

/// Models of the aliens in a vector, in the vector's order.
pub open spec fn alien_models(aliens: Seq<Alien>) -> Seq<AlienModel> {
    aliens.map_values(|a: Alien| a@)
}

/// Models of the bullets in a vector, in the vector's order.
pub open spec fn bullet_models(bullets: Seq<Bullet>) -> Seq<BulletModel> {
    bullets.map_values(|b: Bullet| b@)
}

} // verus!
