//! Laws of the game, proved over its model.

use vstd::prelude::*;
use vstd::math::abs;
use crate::bullets::{at_top, move_bullet};
use crate::collisions::{first_hit, resolve_hits};
use crate::config::{
    ALIEN_HEIGHT, BULLET_LIMIT, FIRE_INTERVAL, HIT_SCORE, HORIZ_STEP, INITIAL_ALIEN_SPEED,
    PADDING_ALIEN, SPEED_STEP, TANK_LEFT_BOUND, TANK_RIGHT_BOUND, TANK_WIDTH, VERT_STEP,
    VERT_STEP_DISTANCE_FROM_MIDDLE, WINDOW_WIDTH,
};
use crate::entities::{AlienModel, BulletModel, DirectionX, DirectionY};
use crate::game::GameModel;
use crate::geometry::Rect;
use crate::swarm::{alien_grid, grid_x, move_alien};
use crate::tick::{total_dt, Controls, Step};

verus! {

/// Overlap does not depend on the order of the two boxes, and two boxes
/// overlap exactly when their centres are closer, on each axis, than half
/// the sum of the extents.
pub proof fn law_overlap_is_centre_distance(a: Rect, b: Rect)
    ensures
        a.overlaps(b) == b.overlaps(a),
        a.overlaps(b) <==> {
            &&& 2 * abs(a.x - b.x) < a.width + b.width
            &&& 2 * abs(a.y - b.y) < a.height + b.height
        },
{
}

/// An alien changes its heading only in a move that leaves its accumulated
/// displacement at or beyond the reversal distance, and in that move it
/// drops by exactly one row: the height of an alien and its padding above
/// and below. With the displacement short of the distance the alien keeps
/// its height and its heading.
pub proof fn law_reversal_descends_one_row(alien: AlienModel, speed: nat, dt: nat)
    ensures
        ({
            let moved = move_alien(alien, speed, dt);
            &&& moved.direction != alien.direction ==> abs(moved.h_step)
                >= VERT_STEP_DISTANCE_FROM_MIDDLE
            &&& abs(moved.h_step) >= VERT_STEP_DISTANCE_FROM_MIDDLE ==> {
                &&& moved.y == alien.y - (ALIEN_HEIGHT + 2 * PADDING_ALIEN)
                &&& moved.direction == alien.direction.reversed()
            }
            &&& abs(moved.h_step) < VERT_STEP_DISTANCE_FROM_MIDDLE ==> {
                &&& moved.y == alien.y
                &&& moved.direction == alien.direction
            }
            &&& moved.x - alien.x == moved.h_step - alien.h_step
        }),
{
}

/// Moving the swarm moves every alien by the same rule and neither adds nor
/// removes one.
pub proof fn law_swarm_moves_alien_by_alien(game: GameModel, dt: nat, i: int)
    requires
        0 <= i < game.aliens.len(),
    ensures
        game.move_aliens(dt).aliens.len() == game.aliens.len(),
        game.move_aliens(dt).aliens[i] == move_alien(game.aliens[i], game.alien_speed, dt),
{
}

/// Nothing of a lost round moves with the swarm: the game is the same after
/// the swarm's move.
pub proof fn law_no_alien_moves_after_loss(game: GameModel, dt: nat)
    requires
        game.wf(),
        !game.running,
    ensures
        game.move_aliens(dt) == game,
{
    assert(game.move_aliens(dt).aliens =~= game.aliens);
}

/// A fresh wave of `rows` by `columns` has exactly `rows * columns` aliens,
/// each heading right with no accumulated displacement.
pub proof fn law_fresh_wave(rows: nat, columns: nat)
    ensures
        alien_grid(rows, columns).len() == rows * columns,
        forall|i: int|
            0 <= i < alien_grid(rows, columns).len() ==> {
                &&& (#[trigger] alien_grid(rows, columns)[i]).direction == DirectionX::Right
                &&& alien_grid(rows, columns)[i].h_step == 0
            },
{
}

/// The grid of a fresh wave is centred on the origin: a column and its
/// mirror image lie equally far to either side, one [`HORIZ_STEP`] apart
/// from their neighbours.
pub proof fn law_grid_is_centred(columns: nat, column: nat)
    requires
        column < columns,
    ensures
        grid_x(columns, column) + grid_x(columns, (columns - 1 - column) as nat) == 0,
        column + 1 < columns ==> grid_x(columns, column + 1) - grid_x(columns, column)
            == HORIZ_STEP,
{
    let mirror = (columns - 1 - column) as nat;
    assert(HORIZ_STEP == 36_000_000);
    assert(-(columns * 18_000_000) + 18_000_000 + column * 36_000_000 + (-(columns * 18_000_000)
        + 18_000_000 + mirror * 36_000_000) == 0) by (nonlinear_arith)
        requires
            mirror == columns - 1 - column,
    ;
    assert((column + 1) * 36_000_000 - column * 36_000_000 == 36_000_000) by (nonlinear_arith);
}

/// However long the keys are held, the steered tank stays on the playfield:
/// its centre is kept half a tank's width inside either edge.
pub proof fn law_tank_stays_on_the_playfield(game: GameModel, left: bool, right: bool, dt: nat)
    ensures
        2 * game.move_tank(left, right, dt).tank.x >= -WINDOW_WIDTH + TANK_WIDTH,
        2 * game.move_tank(left, right, dt).tank.x <= WINDOW_WIDTH - TANK_WIDTH,
        TANK_LEFT_BOUND <= game.move_tank(left, right, dt).tank.x <= TANK_RIGHT_BOUND,
        game.move_tank(left, right, dt).tank.y == game.tank.y,
{
}

/// With the cap of bullets in flight a pulled trigger fires nothing, and a
/// shot is fired only with the timer beyond the interval.
pub proof fn law_no_shot_at_the_cap(game: GameModel, fire: bool, dt: nat)
    ensures
        game.bullets.len() >= BULLET_LIMIT ==> !game.fires(fire, dt) && game.fire_bullet(
            fire,
            dt,
        ).bullets == game.bullets,
        game.time_since_last_shot + dt <= FIRE_INTERVAL ==> !game.fires(fire, dt)
            && game.fire_bullet(fire, dt).bullets == game.bullets,
        game.fires(fire, dt) ==> game.fire_bullet(fire, dt).bullets.len() == game.bullets.len() + 1
            && game.fire_bullet(fire, dt).time_since_last_shot == 0,
{
}

/// The first alien that a bullet hits is hit by it, and no alien before it
/// is; a bullet with no first hit hits no alien at all.
pub proof fn law_first_hit_is_the_first(bullet: BulletModel, aliens: Seq<AlienModel>, from: int)
    requires
        0 <= from <= aliens.len(),
    ensures
        from <= first_hit(bullet, aliens, from) <= aliens.len(),
        first_hit(bullet, aliens, from) < aliens.len() ==> bullet.hits(
            aliens[first_hit(bullet, aliens, from)],
        ),
        forall|k: int|
            from <= k < first_hit(bullet, aliens, from) ==> !bullet.hits(#[trigger] aliens[k]),
    decreases aliens.len() - from,
{
    if from < aliens.len() && !bullet.hits(aliens[from]) {
        law_first_hit_is_the_first(bullet, aliens, from + 1);
    }
}

/// When the bullets have struck, every hit has taken exactly one bullet and
/// one alien with it, what is left was there before, and no bullet that is
/// left overlaps an alien that is left.
pub proof fn law_hits_pair_bullets_with_aliens(bullets: Seq<BulletModel>, aliens: Seq<AlienModel>)
    ensures
        resolve_hits(bullets, aliens).bullets.len() + resolve_hits(bullets, aliens).hits
            == bullets.len(),
        resolve_hits(bullets, aliens).aliens.len() + resolve_hits(bullets, aliens).hits
            == aliens.len(),
        forall|k: int|
            0 <= k < resolve_hits(bullets, aliens).bullets.len() ==> bullets.contains(
                #[trigger] resolve_hits(bullets, aliens).bullets[k],
            ),
        forall|k: int|
            0 <= k < resolve_hits(bullets, aliens).aliens.len() ==> aliens.contains(
                #[trigger] resolve_hits(bullets, aliens).aliens[k],
            ),
        forall|i: int, j: int|
            0 <= i < resolve_hits(bullets, aliens).bullets.len() && 0 <= j < resolve_hits(
                bullets,
                aliens,
            ).aliens.len() ==> !(#[trigger] resolve_hits(bullets, aliens).bullets[i]).hits(
                #[trigger] resolve_hits(bullets, aliens).aliens[j],
            ),
    decreases bullets.len(),
{
    let outcome = resolve_hits(bullets, aliens);
    if bullets.len() > 0 {
        let first = bullets[0];
        let others = bullets.drop_first();
        let target = first_hit(first, aliens, 0);
        law_first_hit_is_the_first(first, aliens, 0);
        if target < aliens.len() {
            let survivors = aliens.remove(target);
            let rest = resolve_hits(others, survivors);
            law_hits_pair_bullets_with_aliens(others, survivors);
            assert forall|k: int| 0 <= k < outcome.bullets.len() implies bullets.contains(
                #[trigger] outcome.bullets[k],
            ) by {
                let n = choose|n: int| 0 <= n < others.len() && others[n] == rest.bullets[k];
                assert(bullets[n + 1] == outcome.bullets[k]);
            }
            assert forall|k: int| 0 <= k < outcome.aliens.len() implies aliens.contains(
                #[trigger] outcome.aliens[k],
            ) by {
                let n = choose|n: int| 0 <= n < survivors.len() && survivors[n] == rest.aliens[k];
                if n < target {
                    assert(aliens[n] == outcome.aliens[k]);
                } else {
                    assert(aliens[n + 1] == outcome.aliens[k]);
                }
            }
        } else {
            let rest = resolve_hits(others, aliens);
            law_hits_pair_bullets_with_aliens(others, aliens);
            assert forall|k: int| 0 <= k < outcome.bullets.len() implies bullets.contains(
                #[trigger] outcome.bullets[k],
            ) by {
                if k == 0 {
                    assert(bullets[0] == outcome.bullets[k]);
                } else {
                    assert(outcome.bullets[k] == rest.bullets[k - 1]);
                    let n = choose|n: int| 0 <= n < others.len() && others[n] == rest.bullets[k - 1];
                    assert(bullets[n + 1] == outcome.bullets[k]);
                }
            }
            assert forall|i: int, j: int|
                0 <= i < outcome.bullets.len() && 0 <= j < outcome.aliens.len() implies !(
            #[trigger] outcome.bullets[i]).hits(#[trigger] outcome.aliens[j]) by {
                if i == 0 {
                    let n = choose|n: int| 0 <= n < aliens.len() && aliens[n] == rest.aliens[j];
                    assert(!first.hits(aliens[n]));
                } else {
                    assert(outcome.bullets[i] == rest.bullets[i - 1]);
                }
            }
        }
    }
}

/// A bullet that flies on keeps its heading, and the bullets that are left
/// after a flight were all in flight before it.
proof fn lemma_flight_keeps_headings(game: GameModel, dt: nat)
    requires
        game.wf(),
    ensures
        game.bullet_system(dt).bullets.len() <= game.bullets.len(),
        forall|k: int|
            0 <= k < game.bullet_system(dt).bullets.len() ==> (#[trigger] game.bullet_system(
                dt,
            ).bullets[k]).direction == DirectionY::Up,
{
    let moved = game.bullets.map_values(|b: BulletModel| move_bullet(b, dt));
    let stays = |b: BulletModel| !at_top(b);
    let left = moved.filter(stays);
    moved.lemma_filter_len(stays);
    assert forall|k: int| 0 <= k < left.len() implies (#[trigger] left[k]).direction
        == DirectionY::Up by {
        assert(left.contains(left[k]));
        moved.lemma_filter_contains_rev(stays, left[k]);
        let n = choose|n: int| 0 <= n < moved.len() && moved[n] == left[k];
        assert(moved[n] == move_bullet(game.bullets[n], dt));
    }
}

/// Every step keeps a valid game valid. In particular no step leaves more
/// than [`BULLET_LIMIT`] bullets in flight or the tank outside its bounds.
pub proof fn law_tick_keeps_the_game_valid(game: GameModel, controls: Controls, dt: nat)
    requires
        game.wf(),
    ensures
        game.move_aliens(dt).wf(),
        game.move_tank(controls.left, controls.right, dt).wf(),
        game.fire_bullet(controls.fire, dt).wf(),
        game.bullet_system(dt).wf(),
        game.check_for_collisions().wf(),
        game.check_win().wf(),
        game.advance(controls, dt).wf(),
        game.tick(controls, dt).wf(),
{
    lemma_each_system_keeps_the_game_valid(game, controls, dt);
    let swarm_moved = game.move_aliens(dt);
    lemma_each_system_keeps_the_game_valid(swarm_moved, controls, dt);
    let steered = swarm_moved.move_tank(controls.left, controls.right, dt);
    lemma_each_system_keeps_the_game_valid(steered, controls, dt);
    let triggered = steered.fire_bullet(controls.fire, dt);
    lemma_each_system_keeps_the_game_valid(triggered, controls, dt);
    let advanced = triggered.bullet_system(dt);
    lemma_each_system_keeps_the_game_valid(advanced, controls, dt);
    let resolved = advanced.check_for_collisions();
    lemma_each_system_keeps_the_game_valid(resolved, controls, dt);
}

proof fn lemma_each_system_keeps_the_game_valid(game: GameModel, controls: Controls, dt: nat)
    requires
        game.wf(),
    ensures
        game.move_aliens(dt).wf(),
        game.move_tank(controls.left, controls.right, dt).wf(),
        game.fire_bullet(controls.fire, dt).wf(),
        game.bullet_system(dt).wf(),
        game.check_for_collisions().wf(),
        game.check_win().wf(),
{
    lemma_flight_keeps_headings(game, dt);
    law_hits_pair_bullets_with_aliens(game.bullets, game.aliens);
    let outcome = resolve_hits(game.bullets, game.aliens);
    assert forall|k: int| 0 <= k < outcome.bullets.len() implies (#[trigger] outcome.bullets[k]).direction
        == DirectionY::Up by {
        let n = choose|n: int| 0 <= n < game.bullets.len() && game.bullets[n] == outcome.bullets[k];
        assert(game.bullets[n].direction == DirectionY::Up);
    }
}

/// The score changes only when bullets hit: a step adds [`HIT_SCORE`] for
/// every hit and nothing else, so the score never goes down.
pub proof fn law_score_counts_hits(game: GameModel, controls: Controls, dt: nat)
    ensures
        game.move_aliens(dt).score == game.score,
        game.move_tank(controls.left, controls.right, dt).score == game.score,
        game.fire_bullet(controls.fire, dt).score == game.score,
        game.bullet_system(dt).score == game.score,
        game.check_win().score == game.score,
        game.check_for_collisions().score == game.score + HIT_SCORE * game.hit_count(),
        game.hit_count() == game.bullets.len() - game.check_for_collisions().bullets.len(),
        !game.breached() ==> game.hit_count() == game.aliens.len()
            - game.check_for_collisions().aliens.len(),
        game.tick(controls, dt).score == game.score + HIT_SCORE * game.advance(controls, dt).hit_count(),
        game.tick(controls, dt).score >= game.score,
{
    law_hits_pair_bullets_with_aliens(game.bullets, game.aliens);
    let advanced = game.advance(controls, dt);
    assert(advanced.score == game.score);
    assert(game.tick(controls, dt).score == advanced.check_for_collisions().score);
}

/// An alien on the death line loses the round: collisions leave no alien
/// alive, the round out of play and the score as it was, and no new wave
/// follows.
pub proof fn law_breach_loses_the_round(game: GameModel)
    requires
        game.breached(),
    ensures
        game.check_for_collisions().aliens.len() == 0,
        !game.check_for_collisions().running,
        game.check_for_collisions().score == game.score,
        game.check_for_collisions().bullets == game.bullets,
        !game.check_for_collisions().wave_cleared(),
        game.check_for_collisions().check_win() == game.check_for_collisions(),
{
}

/// A step in which an alien reaches the death line ends with no alien
/// alive, the round out of play and the score as it was before the step.
pub proof fn law_tick_loses_the_round(game: GameModel, controls: Controls, dt: nat)
    requires
        game.advance(controls, dt).breached(),
    ensures
        game.tick(controls, dt).aliens.len() == 0,
        !game.tick(controls, dt).running,
        game.tick(controls, dt).score == game.score,
        game.tick(controls, dt).level == game.level,
{
    law_breach_loses_the_round(game.advance(controls, dt));
}

/// A lost round stays lost: a step leaves it out of play and without
/// aliens, scores nothing, spawns no wave and does not lose the round a
/// second time.
pub proof fn law_loss_is_final(game: GameModel, controls: Controls, dt: nat)
    requires
        game.wf(),
        !game.running,
    ensures
        !game.tick(controls, dt).running,
        game.tick(controls, dt).aliens.len() == 0,
        game.tick(controls, dt).score == game.score,
        game.tick(controls, dt).level == game.level,
        !game.advance(controls, dt).breached(),
        game.advance(controls, dt).hit_count() == 0,
        !game.advance(controls, dt).check_for_collisions().wave_cleared(),
{
    let advanced = game.advance(controls, dt);
    assert(game.move_aliens(dt).aliens =~= game.aliens);
    assert(advanced.aliens.len() == 0);
    assert(!advanced.running);
    law_hits_pair_bullets_with_aliens(advanced.bullets, advanced.aliens);
}

/// A lost round stays lost for the rest of the run, whatever the input.
pub proof fn law_loss_lasts_the_whole_run(game: GameModel, steps: Seq<Step>)
    requires
        game.wf(),
        !game.running,
    ensures
        game.run(steps).wf(),
        !game.run(steps).running,
        game.run(steps).aliens.len() == 0,
        game.run(steps).score == game.score,
    decreases steps.len(),
{
    if steps.len() > 0 {
        law_loss_lasts_the_whole_run(game, steps.drop_last());
        let previous = game.run(steps.drop_last());
        law_loss_is_final(previous, steps.last().controls, steps.last().dt);
        law_tick_keeps_the_game_valid(previous, steps.last().controls, steps.last().dt);
    }
}

/// Every run keeps a valid game valid and never lowers the score.
pub proof fn law_run_keeps_the_game_valid(game: GameModel, steps: Seq<Step>)
    requires
        game.wf(),
    ensures
        game.run(steps).wf(),
        game.run(steps).score >= game.score,
        game.run(steps).bullets.len() <= BULLET_LIMIT,
        TANK_LEFT_BOUND <= game.run(steps).tank.x <= TANK_RIGHT_BOUND,
    decreases steps.len(),
{
    if steps.len() > 0 {
        law_run_keeps_the_game_valid(game, steps.drop_last());
        let previous = game.run(steps.drop_last());
        law_tick_keeps_the_game_valid(previous, steps.last().controls, steps.last().dt);
        law_score_counts_hits(previous, steps.last().controls, steps.last().dt);
    }
}

/// The timer after a run shows at most what it showed before plus the
/// length of the run.
proof fn lemma_timer_is_bounded_by_the_run(game: GameModel, steps: Seq<Step>)
    ensures
        game.run(steps).time_since_last_shot <= game.time_since_last_shot + total_dt(steps),
    decreases steps.len(),
{
    if steps.len() > 0 {
        lemma_timer_is_bounded_by_the_run(game, steps.drop_last());
    }
}

/// Two pulls of the trigger within [`FIRE_INTERVAL`] of each other fire at
/// most one bullet: after a step that fires, and whatever happens in the
/// steps between, a step that ends no later than the interval after the
/// first one fires nothing.
pub proof fn law_cooldown_between_shots(
    game: GameModel,
    first: Step,
    between: Seq<Step>,
    second: Step,
)
    requires
        game.tick_fires(first.controls, first.dt),
        total_dt(between) + second.dt <= FIRE_INTERVAL,
    ensures
        game.tick(first.controls, first.dt).time_since_last_shot == 0,
        !game.tick(first.controls, first.dt).run(between).tick_fires(second.controls, second.dt),
{
    lemma_timer_is_bounded_by_the_run(game.tick(first.controls, first.dt), between);
}

/// The difficulty follows the wave number. A game starts on schedule and
/// every step keeps it there, and a cleared wave raises the wave number by
/// one and with it exactly one of rows, columns and speed.
pub proof fn law_difficulty_follows_the_wave_number(game: GameModel, controls: Controls, dt: nat)
    ensures
        GameModel::initial().on_schedule(),
        game.on_schedule() ==> game.tick(controls, dt).on_schedule(),
        game.wave_cleared() ==> {
            &&& game.check_win().level == game.level + 1
            &&& (game.check_win().rows - game.rows) + (game.check_win().columns - game.columns) == (
            if game.check_win().level % 3 == 2 {
                0int
            } else {
                1int
            })
            &&& game.check_win().rows >= game.rows
            &&& game.check_win().columns >= game.columns
            &&& game.check_win().alien_speed - game.alien_speed == (if game.check_win().level % 3
                == 2 {
                SPEED_STEP as int
            } else {
                0int
            })
            &&& game.check_win().aliens == alien_grid(
                game.check_win().rows,
                game.check_win().columns,
            )
        },
        !game.wave_cleared() ==> game.check_win() == game,
{
    let resolved = game.advance(controls, dt).check_for_collisions();
    assert(resolved.level == game.level);
    assert(resolved.rows == game.rows);
    assert(resolved.columns == game.columns);
    assert(resolved.alien_speed == game.alien_speed);
}

/// A fresh game is valid, and it can take a first step of `dt` microseconds
/// as long as an alien cannot leave the range of the positions from inside
/// the playfield in that time.
pub proof fn law_fresh_game_can_tick(controls: Controls, dt: nat)
    requires
        WINDOW_WIDTH + INITIAL_ALIEN_SPEED * dt <= i64::MAX,
    ensures
        GameModel::initial().wf(),
        GameModel::initial().tick_fits(controls, dt),
{
    let game = GameModel::initial();
    assert(game.bullets.len() == 0);
    assert(HORIZ_STEP == 36_000_000 && VERT_STEP == 28_000_000);
    assert forall|i: int| 0 <= i < game.aliens.len() implies move_alien(
        #[trigger] game.aliens[i],
        game.alien_speed,
        dt,
    ).representable() by {
        let alien = game.aliens[i];
        let row: int = i / 7;
        let column: int = i % 7;
        assert(game.aliens.len() == 28);
        assert(0 <= row <= 3 && 0 <= column <= 6);
        assert(alien.x == -108_000_000 + column * 36_000_000);
        assert(alien.y == 10_000_000 + row * 28_000_000);
        assert(game.alien_speed * dt * alien.direction.sign() == 10 * dt) by (nonlinear_arith)
            requires
                game.alien_speed == 10,
                alien.direction.sign() == 1,
        ;
    }
    let advanced = game.advance(controls, dt);
    law_tick_keeps_the_game_valid(game, controls, dt);
    law_hits_pair_bullets_with_aliens(advanced.bullets, advanced.aliens);
    assert(advanced.score == 0);
    assert(advanced.level == 1);
    assert(advanced.time_since_last_shot <= dt);
}

} // verus!
