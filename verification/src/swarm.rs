//! The swarm: laying out a wave of aliens and moving it.

use vstd::prelude::*;
use vstd::arithmetic::div_mod::lemma_fundamental_div_mod_converse;
use vstd::math::abs;
use crate::config::{
    ALIEN_BOTTOM_EDGE, ALIEN_HEIGHT, ALIEN_WIDTH, HORIZ_STEP, PADDING_ALIEN, VERT_STEP,
    VERT_STEP_DISTANCE_FROM_MIDDLE,
};
use crate::entities::{alien_models, Alien, AlienModel, DirectionX};
use crate::game::{GameModel, SpaceInvaders};

verus! {

/// Horizontal centre of the cells in one column of a grid with `columns`
/// columns. The grid is centred on the origin: its left edge lies half the
/// grid's width to the left, and a cell's alien sits behind the cell's
/// padding.
pub open spec fn grid_x(columns: nat, column: nat) -> int {
    -(columns * (HORIZ_STEP / 2)) + PADDING_ALIEN + ALIEN_WIDTH / 2 + column * HORIZ_STEP
}

/// Vertical centre of the cells in one row of a grid. Row 0 stands on
/// [`ALIEN_BOTTOM_EDGE`]; the rows above follow one [`VERT_STEP`] apart.
pub open spec fn grid_y(row: nat) -> int {
    ALIEN_BOTTOM_EDGE + ALIEN_HEIGHT / 2 + row * VERT_STEP
}

/// The alien that is spawned in a cell of the grid: it heads right and has
/// not travelled yet.
pub open spec fn grid_alien(columns: nat, row: nat, column: nat) -> AlienModel {
    AlienModel {
        x: grid_x(columns, column),
        y: grid_y(row),
        direction: DirectionX::Right,
        h_step: 0,
    }
}

/// A fresh wave: one alien in every cell of a grid of `rows` by `columns`
/// cells, row by row from the bottom, each row from the left.
pub open spec fn alien_grid(rows: nat, columns: nat) -> Seq<AlienModel> {
    Seq::new(
        rows * columns,
        |i: int| grid_alien(columns, (i / columns as int) as nat, (i % columns as int) as nat),
    )
}

/// The alien at position `row * columns + column` of a fresh wave is the one
/// of that row and column.
pub proof fn lemma_grid_cell(rows: nat, columns: nat, row: nat, column: nat)
    requires
        row < rows,
        column < columns,
    ensures
        row * columns + column < rows * columns,
        alien_grid(rows, columns)[(row * columns + column) as int] == grid_alien(columns, row, column),
{
    let i = row * columns + column;
    assert(i < rows * columns) by (nonlinear_arith)
        requires
            row < rows,
            column < columns,
            i == row * columns + column,
    ;
    lemma_fundamental_div_mod_converse(i as int, columns as int, row as int, column as int);
}

/// Whether a value can be stored in a signed 64-bit position.
pub open spec fn fits_i64(v: int) -> bool {
    i64::MIN <= v <= i64::MAX
}

impl AlienModel {
    /// Whether a machine alien can hold this alien.
    pub open spec fn representable(self) -> bool {
        fits_i64(self.x) && fits_i64(self.y) && fits_i64(self.h_step)
    }
}

/// One alien after `dt` microseconds at `speed` world units per second. The
/// alien travels `speed * dt` position steps along its heading, and the same
/// signed distance is added to its accumulated displacement, which is never
/// reset. While the magnitude of that displacement is at or beyond
/// [`VERT_STEP_DISTANCE_FROM_MIDDLE`] the alien drops by one [`VERT_STEP`]
/// and reverses.
pub open spec fn move_alien(alien: AlienModel, speed: nat, dt: nat) -> AlienModel {
    let delta = speed * dt * alien.direction.sign();
    let h_step = alien.h_step + delta;
    if abs(h_step) >= VERT_STEP_DISTANCE_FROM_MIDDLE {
        AlienModel {
            x: alien.x + delta,
            y: alien.y - VERT_STEP,
            direction: alien.direction.reversed(),
            h_step: h_step,
        }
    } else {
        AlienModel { x: alien.x + delta, y: alien.y, direction: alien.direction, h_step: h_step }
    }
}

impl GameModel {
    /// The game after every alien has moved for `dt` microseconds.
    pub open spec fn move_aliens(self, dt: nat) -> GameModel {
        GameModel {
            aliens: self.aliens.map_values(|a: AlienModel| move_alien(a, self.alien_speed, dt)),
            ..self
        }
    }

    /// Whether every alien, moved for `dt` microseconds, can still be stored.
    pub open spec fn aliens_can_move(self, dt: nat) -> bool {
        forall|i: int|
            0 <= i < self.aliens.len() ==> move_alien(
                #[trigger] self.aliens[i],
                self.alien_speed,
                dt,
            ).representable()
    }
}

/// Spawns a fresh wave of `n_rows` by `n_columns` aliens.
pub fn spawn_aliens(n_rows: u32, n_columns: u32) -> (aliens: Vec<Alien>)
    ensures
        alien_models(aliens@) == alien_grid(n_rows as nat, n_columns as nat),
        aliens@.len() == n_rows * n_columns,
{
    assert(HORIZ_STEP == 36_000_000 && VERT_STEP == 28_000_000);
    let offset_x: i64 = -((n_columns as i64) * (HORIZ_STEP / 2)) + PADDING_ALIEN + ALIEN_WIDTH / 2;
    let offset_y: i64 = ALIEN_BOTTOM_EDGE + ALIEN_HEIGHT / 2;
    let mut aliens: Vec<Alien> = Vec::new();
    let mut row: u32 = 0;
    while row < n_rows
        invariant
            row <= n_rows,
            offset_x == grid_x(n_columns as nat, 0),
            offset_y == grid_y(0),
            aliens@.len() == row * n_columns,
            aliens@.len() <= n_rows * n_columns,
            forall|k: int|
                0 <= k < aliens@.len() ==> (#[trigger] aliens@[k])@ == alien_grid(
                    n_rows as nat,
                    n_columns as nat,
                )[k],
        decreases n_rows - row,
    {
        assert(HORIZ_STEP == 36_000_000 && VERT_STEP == 28_000_000);
        let y: i64 = offset_y + (row as i64) * VERT_STEP;
        let mut column: u32 = 0;
        while column < n_columns
            invariant
                row < n_rows,
                column <= n_columns,
                offset_x == grid_x(n_columns as nat, 0),
                y == grid_y(row as nat),
                aliens@.len() == row * n_columns + column,
                aliens@.len() <= n_rows * n_columns,
                forall|k: int|
                    0 <= k < aliens@.len() ==> (#[trigger] aliens@[k])@ == alien_grid(
                        n_rows as nat,
                        n_columns as nat,
                    )[k],
            decreases n_columns - column,
        {
            assert(HORIZ_STEP == 36_000_000);
            let x: i64 = offset_x + (column as i64) * HORIZ_STEP;
            proof {
                lemma_grid_cell(n_rows as nat, n_columns as nat, row as nat, column as nat);
            }
            aliens.push(Alien { x: x, y: y, direction: DirectionX::Right, h_step: 0 });
            column += 1;
        }
        proof {
            assert(row * n_columns + n_columns == (row + 1) * n_columns) by (nonlinear_arith);
            assert((row + 1) * n_columns <= n_rows * n_columns) by (nonlinear_arith)
                requires
                    row < n_rows,
            ;
        }
        row += 1;
    }
    proof {
        assert(alien_models(aliens@) =~= alien_grid(n_rows as nat, n_columns as nat));
    }
    aliens
}

/// Moves one alien, if the moved alien can be stored.
fn checked_move(alien: &Alien, speed: u32, dt: u64) -> (moved: Option<Alien>)
    ensures
        moved is Some <==> move_alien(alien@, speed as nat, dt as nat).representable(),
        moved matches Some(m) ==> m@ == move_alien(alien@, speed as nat, dt as nat),
{
    assert(0 <= speed * dt <= 0xffff_ffff * 0xffff_ffff_ffff_ffff) by (nonlinear_arith)
        requires
            0 <= speed <= 0xffff_ffff,
            0 <= dt <= 0xffff_ffff_ffff_ffff,
    ;
    let distance: i128 = (speed as i128) * (dt as i128);
    let delta: i128 = match alien.direction {
        DirectionX::Still => 0,
        DirectionX::Left => -distance,
        DirectionX::Right => distance,
    };
    let x: i128 = (alien.x as i128) + delta;
    let h_step: i128 = (alien.h_step as i128) + delta;
    let threshold: i128 = VERT_STEP_DISTANCE_FROM_MIDDLE as i128;
    let reverses: bool = h_step >= threshold || h_step <= -threshold;
    let y: i128 = if reverses {
        (alien.y as i128) - (VERT_STEP as i128)
    } else {
        alien.y as i128
    };
    let direction: DirectionX = if reverses {
        match alien.direction {
            DirectionX::Still => DirectionX::Still,
            DirectionX::Left => DirectionX::Right,
            DirectionX::Right => DirectionX::Left,
        }
    } else {
        alien.direction
    };
    let lowest: i128 = i64::MIN as i128;
    let highest: i128 = i64::MAX as i128;
    if x < lowest || x > highest || y < lowest || y > highest || h_step < lowest || h_step
        > highest {
        None
    } else {
        Some(Alien { x: x as i64, y: y as i64, direction: direction, h_step: h_step as i64 })
    }
}

impl SpaceInvaders {
    /// Tells whether every alien, moved for `dt` microseconds, can still be
    /// stored.
    pub fn aliens_can_move(&self, dt: u64) -> (ok: bool)
        ensures
            ok == self@.aliens_can_move(dt as nat),
    {
        let mut i: usize = 0;
        while i < self.aliens.len()
            invariant
                i <= self.aliens.len(),
                forall|k: int|
                    0 <= k < i ==> move_alien(
                        #[trigger] self@.aliens[k],
                        self@.alien_speed,
                        dt as nat,
                    ).representable(),
            decreases self.aliens.len() - i,
        {
            if checked_move(&self.aliens[i], self.alien_speed, dt).is_none() {
                assert(!move_alien(self@.aliens[i as int], self@.alien_speed, dt as nat).representable());
                return false;
            }
            i += 1;
        }
        true
    }

    /// Moves the swarm for `dt` microseconds.
    pub fn move_aliens(&mut self, dt: u64)
        requires
            old(self)@.wf(),
            old(self)@.aliens_can_move(dt as nat),
        ensures
            final(self)@ == old(self)@.move_aliens(dt as nat),
            final(self)@.wf(),
    {
        let ghost before = self@;
        let mut i: usize = 0;
        while i < self.aliens.len()
            invariant
                i <= self.aliens.len(),
                before.aliens_can_move(dt as nat),
                self.aliens@.len() == before.aliens.len(),
                self@.bullets == before.bullets,
                self@.tank == before.tank,
                self@.score == before.score,
                self@.level == before.level,
                self@.rows == before.rows,
                self@.columns == before.columns,
                self@.alien_speed == before.alien_speed,
                self@.running == before.running,
                self@.time_since_last_shot == before.time_since_last_shot,
                forall|k: int|
                    0 <= k < i ==> (#[trigger] self.aliens@[k])@ == move_alien(
                        before.aliens[k],
                        before.alien_speed,
                        dt as nat,
                    ),
                forall|k: int|
                    i <= k < self.aliens@.len() ==> (#[trigger] self.aliens@[k])@
                        == before.aliens[k],
            decreases self.aliens.len() - i,
        {
            assert(self@.aliens[i as int] == before.aliens[i as int]);
            match checked_move(&self.aliens[i], self.alien_speed, dt) {
                Some(moved) => {
                    self.aliens[i] = moved;
                },
                None => {},
            }
            i += 1;
        }
        proof {
            assert(self@.aliens =~= before.move_aliens(dt as nat).aliens);
        }
    }
}

} // verus!
