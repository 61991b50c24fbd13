use space_invaders::config::UNIT;
use space_invaders::{
    spawn_aliens, Alien, Bullet, Controls, DirectionX, DirectionY, SpaceInvaders, TickReport,
};

const IDLE: Controls = Controls { left: false, right: false, fire: false };
const FIRE: Controls = Controls { left: false, right: false, fire: true };
const QUIET: TickReport =
    TickReport { fired: false, hits: 0, game_over: false, wave_cleared: false };

/// One step of a sixty-fourth of a second.
const STEP: u64 = 15_625;

fn alien(x: i64, y: i64) -> Alien {
    Alien { x, y, direction: DirectionX::Right, h_step: 0 }
}

fn bullet(x: i64, y: i64) -> Bullet {
    Bullet { x, y, direction: DirectionY::Up }
}

#[test]
fn tick_runs_every_system() {
    let mut game = SpaceInvaders::setup();
    game.bullets = vec![bullet(-300 * UNIT, 0)];
    game.time_since_last_shot = 400_000;
    let start = game.clone();
    let report = game.tick(Controls { left: false, right: true, fire: true }, STEP);
    assert_eq!(report, TickReport { fired: true, hits: 0, game_over: false, wave_cleared: false });
    for (now, then) in game.aliens.iter().zip(start.aliens.iter()) {
        assert_eq!(now.x, then.x + 156_250);
        assert_eq!(now.h_step, 156_250);
        assert_eq!(now.y, then.y);
    }
    assert_eq!(game.tank.x, 781_250);
    // The new bullet starts at the tank after the tank has moved, and flies
    // in the step in which it is fired.
    assert_eq!(
        game.bullets,
        vec![bullet(-300 * UNIT, 1_562_500), bullet(781_250, -150 * UNIT + 1_562_500)]
    );
    assert_eq!(game.time_since_last_shot, 0);
    assert_eq!(game.score, 0);
    assert!(game.is_valid());
}

#[test]
fn tick_without_input() {
    let mut game = SpaceInvaders::setup();
    let report = game.tick(IDLE, STEP);
    assert_eq!(report, QUIET);
    assert_eq!(game.time_since_last_shot, STEP);
    assert_eq!(game.tank.x, 0);
    assert!(game.bullets.is_empty());
    assert_eq!(game.aliens.len(), 28);
}

#[test]
fn collisions_see_the_positions_of_the_same_step() {
    let mut game = SpaceInvaders::setup();
    game.aliens = vec![alien(0, 50 * UNIT), alien(200 * UNIT, 50 * UNIT)];
    game.bullets = vec![bullet(0, 25 * UNIT)];
    // Before the step the bullet is 25 below the alien; the step takes it 10
    // up and the alien 1 to the right, and the two overlap.
    let report = game.tick(IDLE, 100_000);
    assert_eq!(report, TickReport { fired: false, hits: 1, game_over: false, wave_cleared: false });
    assert_eq!(game.score, 10);
    assert!(game.bullets.is_empty());
    assert_eq!(
        game.aliens,
        vec![Alien { x: 201 * UNIT, y: 50 * UNIT, direction: DirectionX::Right, h_step: UNIT }]
    );
}

#[test]
fn the_wave_check_sees_the_collisions_of_the_same_step() {
    let mut game = SpaceInvaders::setup();
    game.aliens = vec![alien(0, 50 * UNIT)];
    game.bullets = vec![bullet(0, 25 * UNIT)];
    game.score = 270;
    let report = game.tick(IDLE, 100_000);
    assert_eq!(report, TickReport { fired: false, hits: 1, game_over: false, wave_cleared: true });
    assert_eq!(game.score, 280);
    assert_eq!((game.level, game.rows, game.columns, game.alien_speed), (2, 4, 7, 15));
    assert_eq!(game.aliens, spawn_aliens(4, 7));
    assert!(game.bullets.is_empty());
    assert!(game.running);
}

#[test]
fn tick_loses_the_round_when_the_swarm_arrives() {
    let mut game = SpaceInvaders::setup();
    game.aliens = vec![
        Alien { x: 0, y: -74 * UNIT, direction: DirectionX::Right, h_step: 49_900_000 },
        Alien { x: 0, y: 200 * UNIT, direction: DirectionX::Right, h_step: 49_900_000 },
    ];
    game.score = 50;
    // The step takes the aliens to the reversal point: they drop a row, and
    // the lower one lands on the death line.
    let report = game.tick(IDLE, 10_000);
    assert_eq!(report, TickReport { fired: false, hits: 0, game_over: true, wave_cleared: false });
    assert!(!game.running);
    assert!(game.aliens.is_empty());
    assert_eq!(game.score, 50);
    assert_eq!(game.level, 1);
    assert!(game.is_valid());
}

#[test]
fn a_lost_round_stays_lost() {
    let mut game = SpaceInvaders::setup();
    game.aliens = vec![alien(0, -100 * UNIT)];
    game.score = 90;
    assert!(game.tick(IDLE, STEP).game_over);
    let mut timer = STEP;
    for step in 0..200u64 {
        let controls = Controls { left: step % 2 == 0, right: step % 3 == 0, fire: step % 5 == 0 };
        let bullets_before = game.bullets.len();
        let report = game.try_tick(controls, STEP).expect("the step fits");
        assert!(!report.game_over);
        assert!(!report.wave_cleared);
        assert_eq!(report.hits, 0);
        assert!(!game.running);
        assert!(game.aliens.is_empty());
        assert_eq!(game.score, 90);
        assert_eq!(game.level, 1);
        assert_eq!((game.rows, game.columns, game.alien_speed), (4, 7, 10));
        assert!(game.is_valid());
        timer = if report.fired { 0 } else { timer + STEP };
        assert_eq!(game.time_since_last_shot, timer);
        if report.fired {
            assert!(controls.fire && bullets_before < 5);
        }
    }
}

#[test]
fn two_pulls_within_a_quarter_second_fire_once() {
    let mut game = SpaceInvaders::setup();
    game.time_since_last_shot = 1_000_000;
    assert!(game.tick(FIRE, STEP).fired);
    let mut elapsed = 0;
    let mut fired_again_after = None;
    for _ in 0..40 {
        elapsed += STEP;
        if game.tick(FIRE, STEP).fired {
            fired_again_after = Some(elapsed);
            break;
        }
    }
    // Sixteen steps make exactly a quarter of a second, which is not enough.
    assert_eq!(fired_again_after, Some(17 * STEP));
    assert_eq!(game.bullets.len(), 2);
}

#[test]
fn at_most_five_bullets_fly() {
    let mut game = SpaceInvaders::setup();
    game.aliens = vec![alien(-400 * UNIT, 250 * UNIT)];
    game.alien_speed = 0;
    let mut most = 0;
    let mut shots = 0;
    for _ in 0..400 {
        let before = game.bullets.len();
        let report = game.tick(FIRE, 100_000);
        if report.fired {
            shots += 1;
            assert!(before < 5);
        }
        assert!(game.bullets.len() <= 5);
        most = most.max(game.bullets.len());
    }
    assert_eq!(most, 5);
    // A bullet flies 4.5 seconds and a shot needs 0.3 seconds: the cap, not
    // the timer, holds the fire back.
    assert!(shots < 400 / 3);
    assert!(shots >= 40);
}

#[test]
fn the_score_goes_up_by_ten_a_hit_and_never_down() {
    let mut game = SpaceInvaders::setup();
    let mut score = 0;
    let mut hits = 0;
    for step in 0..3_000u64 {
        let controls = Controls {
            left: (step / 150) % 2 == 1,
            right: (step / 150) % 2 == 0,
            fire: step % 7 == 0,
        };
        let report = game.try_tick(controls, STEP).expect("the step fits");
        assert_eq!(game.score, score + 10 * report.hits);
        score = game.score;
        hits += report.hits;
        assert!(game.is_valid());
    }
    assert!(hits > 0);
    assert_eq!(game.score, 10 * hits);
}

#[test]
fn an_untouched_swarm_lands_at_the_fourth_reversal() {
    // Ten units a second, a sixty-fourth of a second a step: 320 steps to the
    // first reversal and 640 between reversals. The bottom row starts at 10
    // and is on the death line after four drops of 28.
    let mut game = SpaceInvaders::setup();
    let mut lost_at = None;
    for step in 1..=3_000u32 {
        let report = game.try_tick(IDLE, STEP).expect("the step fits");
        if report.game_over {
            lost_at = Some(step);
            break;
        }
        assert_eq!(report, QUIET);
        let drops = if step < 320 { 0 } else { 1 + (step - 320) / 640 };
        assert_eq!(game.aliens[0].y, (10 - 28 * drops as i64) * UNIT);
        assert_eq!(game.aliens.len(), 28);
    }
    assert_eq!(lost_at, Some(320 + 3 * 640));
    assert!(!game.running);
    assert!(game.aliens.is_empty());
    assert_eq!(game.score, 0);
}

#[test]
fn try_tick_is_tick_where_the_step_fits() {
    let mut tried = SpaceInvaders::setup();
    let mut ticked = SpaceInvaders::setup();
    for step in 0..700u64 {
        let controls = Controls { left: step % 4 == 0, right: step % 4 != 0, fire: step % 3 == 0 };
        let report = tried.try_tick(controls, STEP);
        assert_eq!(report, Some(ticked.tick(controls, STEP)));
        assert_eq!(tried, ticked);
    }
    assert!(tried.score > 0);
}

#[test]
fn try_tick_gives_up_when_the_timer_overflows() {
    let mut game = SpaceInvaders::setup();
    game.time_since_last_shot = u64::MAX - 10;
    let before = game.clone();
    assert_eq!(game.try_tick(IDLE, 11), None);
    assert_eq!(game, before);
    // A shot restarts the timer, so the step fits.
    let report = game.try_tick(FIRE, 11).expect("the step fits");
    assert!(report.fired);
    assert_eq!(game.time_since_last_shot, 0);
    game.time_since_last_shot = u64::MAX - 10;
    assert_eq!(game.try_tick(IDLE, 10), Some(QUIET));
    assert_eq!(game.time_since_last_shot, u64::MAX);
}

#[test]
fn try_tick_gives_up_when_the_score_overflows() {
    let mut game = SpaceInvaders::setup();
    game.aliens = vec![alien(0, 50 * UNIT), alien(200 * UNIT, 50 * UNIT)];
    game.bullets = vec![bullet(0, 25 * UNIT)];
    game.score = u64::MAX - 9;
    let before = game.clone();
    assert_eq!(game.try_tick(IDLE, 100_000), None);
    assert_eq!(game, before);
    game.score = u64::MAX - 10;
    let report = game.try_tick(IDLE, 100_000).expect("the step fits");
    assert_eq!(report.hits, 1);
    assert_eq!(game.score, u64::MAX);
    // With the score at its end a step still fits while nothing is hit.
    assert_eq!(game.try_tick(IDLE, 100_000), Some(QUIET));
    assert_eq!(game.score, u64::MAX);
}

#[test]
fn try_tick_gives_up_when_an_alien_leaves_the_range() {
    let mut game = SpaceInvaders::setup();
    game.aliens[27].x = i64::MAX - 156_249;
    let before = game.clone();
    assert_eq!(game.try_tick(IDLE, STEP), None);
    assert_eq!(game, before);
    game.aliens[27].x = i64::MAX - 156_250;
    assert_eq!(game.try_tick(IDLE, STEP), Some(QUIET));
    assert_eq!(game.aliens[27].x, i64::MAX);
}

#[test]
fn try_tick_gives_up_when_the_next_wave_cannot_be_counted() {
    let mut game = SpaceInvaders::setup();
    game.level = u64::MAX;
    // With aliens left the wave number does not change.
    assert_eq!(game.try_tick(IDLE, STEP), Some(QUIET));
    game.aliens.clear();
    let before = game.clone();
    assert_eq!(game.try_tick(IDLE, STEP), None);
    assert_eq!(game, before);

    // The wave after u64::MAX - 1 adds a row.
    game.level = u64::MAX - 1;
    game.rows = u32::MAX;
    game.columns = 1;
    let before = game.clone();
    assert_eq!(game.try_tick(IDLE, STEP), None);
    assert_eq!(game, before);
    game.rows = 2;
    game.columns = 3;
    game.alien_speed = u32::MAX;
    let report = game.try_tick(IDLE, STEP).expect("the step fits");
    assert!(report.wave_cleared);
    assert_eq!((game.level, game.rows, game.columns, game.alien_speed), (u64::MAX, 3, 3, u32::MAX));
    assert_eq!(game.aliens.len(), 9);

    // The wave after 3 adds a column, the wave after 1 adds speed.
    game.aliens.clear();
    game.level = 3;
    game.columns = u32::MAX;
    assert_eq!(game.try_tick(IDLE, STEP), None);
    game.level = 1;
    game.rows = 1;
    game.columns = 1;
    game.alien_speed = u32::MAX - 4;
    assert_eq!(game.try_tick(IDLE, STEP), None);
    game.alien_speed = u32::MAX - 5;
    let report = game.try_tick(IDLE, STEP).expect("the step fits");
    assert!(report.wave_cleared);
    assert_eq!((game.level, game.rows, game.columns, game.alien_speed), (2, 1, 1, u32::MAX));
}

#[test]
fn try_tick_takes_an_hour_in_one_step() {
    let mut game = SpaceInvaders::setup();
    let report = game.try_tick(IDLE, 3_600_000_000).expect("the step fits");
    // Every alien has gone 36000 to the right, far beyond the threshold, and
    // dropped one row.
    assert_eq!(report, QUIET);
    assert_eq!(game.aliens[0].x, (36_000 - 108) * UNIT);
    assert_eq!(game.aliens[0].y, (10 - 28) * UNIT);
    assert_eq!(game.aliens[0].direction, DirectionX::Left);
}
