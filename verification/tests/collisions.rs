use space_invaders::config::UNIT;
use space_invaders::{Alien, Bullet, CollisionReport, DirectionX, DirectionY, SpaceInvaders};

fn alien(x: i64, y: i64) -> Alien {
    Alien { x, y, direction: DirectionX::Right, h_step: 0 }
}

fn bullet(x: i64, y: i64) -> Bullet {
    Bullet { x, y, direction: DirectionY::Up }
}

fn game_with(aliens: Vec<Alien>, bullets: Vec<Bullet>) -> SpaceInvaders {
    let mut game = SpaceInvaders::setup();
    game.aliens = aliens;
    game.bullets = bullets;
    game
}

const NOTHING: CollisionReport = CollisionReport { game_over: false, hits: 0 };

#[test]
fn nothing_collides_at_the_start() {
    let mut game = SpaceInvaders::setup();
    let before = game.clone();
    assert_eq!(game.check_for_collisions(), NOTHING);
    assert_eq!(game, before);
}

#[test]
fn an_alien_on_the_death_line_loses_the_round() {
    let mut game = game_with(
        vec![alien(0, 38 * UNIT), alien(36 * UNIT, -102 * UNIT), alien(72 * UNIT, 10 * UNIT)],
        vec![bullet(200 * UNIT, 0)],
    );
    game.score = 120;
    let report = game.check_for_collisions();
    assert_eq!(report, CollisionReport { game_over: true, hits: 0 });
    assert!(game.aliens.is_empty());
    assert!(!game.running);
    assert_eq!(game.score, 120);
    assert_eq!(game.bullets, vec![bullet(200 * UNIT, 0)]);
    assert!(game.is_valid());
}

#[test]
fn several_aliens_on_the_death_line_lose_the_round_once() {
    let mut game = game_with(
        vec![alien(-36 * UNIT, -100 * UNIT), alien(0, -100 * UNIT), alien(36 * UNIT, -100 * UNIT)],
        Vec::new(),
    );
    assert_eq!(game.check_for_collisions(), CollisionReport { game_over: true, hits: 0 });
    assert!(game.aliens.is_empty());
    assert!(!game.running);
    // Nothing is left to lose the round again.
    let lost = game.clone();
    assert_eq!(game.check_for_collisions(), NOTHING);
    assert_eq!(game, lost);
    assert_eq!(game.check_for_collisions(), NOTHING);
    assert_eq!(game, lost);
}

#[test]
fn the_death_line_is_met_from_ten_and_a_half_above() {
    // Half an alien is 10 high, half the line 0.5: the boxes overlap with
    // the centres less than 10.5 apart.
    let mut game = game_with(vec![alien(0, -89_500_000)], Vec::new());
    assert_eq!(game.check_for_collisions(), NOTHING);
    assert_eq!(game.aliens.len(), 1);
    assert!(game.running);
    game.aliens[0].y = -89_500_001;
    assert_eq!(game.check_for_collisions(), CollisionReport { game_over: true, hits: 0 });
}

#[test]
fn an_alien_below_the_death_line_has_passed_it() {
    let mut game = game_with(vec![alien(0, -110_500_000)], Vec::new());
    assert_eq!(game.check_for_collisions(), NOTHING);
    game.aliens[0].y = -110_499_999;
    assert_eq!(game.check_for_collisions(), CollisionReport { game_over: true, hits: 0 });
}

#[test]
fn the_death_line_spans_the_playfield() {
    // Half the line is 450 wide, half an alien 14.
    let mut game = game_with(vec![alien(464 * UNIT, -100 * UNIT)], Vec::new());
    assert_eq!(game.check_for_collisions(), NOTHING);
    game.aliens[0].x = -464 * UNIT;
    assert_eq!(game.check_for_collisions(), NOTHING);
    game.aliens[0].x = -464 * UNIT + 1;
    assert_eq!(game.check_for_collisions(), CollisionReport { game_over: true, hits: 0 });
}

#[test]
fn a_bullet_destroys_an_alien_and_scores_ten() {
    let mut game = game_with(
        vec![alien(0, 10 * UNIT), alien(36 * UNIT, 10 * UNIT), alien(72 * UNIT, 10 * UNIT)],
        vec![bullet(-200 * UNIT, 0), bullet(40 * UNIT, 0)],
    );
    game.score = 30;
    let report = game.check_for_collisions();
    assert_eq!(report, CollisionReport { game_over: false, hits: 1 });
    assert_eq!(game.score, 40);
    assert_eq!(game.aliens, vec![alien(0, 10 * UNIT), alien(72 * UNIT, 10 * UNIT)]);
    assert_eq!(game.bullets, vec![bullet(-200 * UNIT, 0)]);
    assert!(game.running);
}

#[test]
fn a_bullet_hits_from_sixteen_away() {
    // Half an alien is 14 wide and 10 high, half a bullet 2 wide and 6 high.
    let mut game = game_with(vec![alien(0, 0)], vec![bullet(16 * UNIT, 0)]);
    assert_eq!(game.check_for_collisions(), NOTHING);
    game.bullets[0] = bullet(0, -16 * UNIT);
    assert_eq!(game.check_for_collisions(), NOTHING);
    game.bullets[0] = bullet(16 * UNIT - 1, -16 * UNIT + 1);
    assert_eq!(game.check_for_collisions(), CollisionReport { game_over: false, hits: 1 });
    assert!(game.aliens.is_empty());
    assert!(game.bullets.is_empty());
    assert_eq!(game.score, 10);
}

#[test]
fn a_bullet_destroys_only_the_first_alien_it_overlaps() {
    let mut game = game_with(
        vec![alien(100 * UNIT, 0), alien(0, 0), alien(2 * UNIT, 4 * UNIT), alien(-UNIT, -UNIT)],
        vec![bullet(0, 0)],
    );
    assert_eq!(game.check_for_collisions(), CollisionReport { game_over: false, hits: 1 });
    assert_eq!(game.score, 10);
    assert_eq!(
        game.aliens,
        vec![alien(100 * UNIT, 0), alien(2 * UNIT, 4 * UNIT), alien(-UNIT, -UNIT)]
    );
    assert!(game.bullets.is_empty());
}

#[test]
fn an_alien_stops_only_the_first_bullet() {
    let mut game = game_with(
        vec![alien(0, 0)],
        vec![bullet(50 * UNIT, 0), bullet(UNIT, 0), bullet(-UNIT, 0)],
    );
    assert_eq!(game.check_for_collisions(), CollisionReport { game_over: false, hits: 1 });
    assert_eq!(game.score, 10);
    assert!(game.aliens.is_empty());
    assert_eq!(game.bullets, vec![bullet(50 * UNIT, 0), bullet(-UNIT, 0)]);
}

#[test]
fn later_bullets_take_the_aliens_that_are_left() {
    let mut game = game_with(
        vec![alien(0, 0), alien(20 * UNIT, 0), alien(40 * UNIT, 0)],
        vec![bullet(10 * UNIT, 0), bullet(12 * UNIT, 0), bullet(-300 * UNIT, 0), bullet(30 * UNIT, 0)],
    );
    // The first bullet overlaps the first two aliens and takes the first;
    // the second bullet then takes the second; the last takes the third.
    assert_eq!(game.check_for_collisions(), CollisionReport { game_over: false, hits: 3 });
    assert_eq!(game.score, 30);
    assert!(game.aliens.is_empty());
    assert_eq!(game.bullets, vec![bullet(-300 * UNIT, 0)]);
}

#[test]
fn five_bullets_score_fifty() {
    let aliens: Vec<Alien> = (0..7).map(|i| alien(40 * UNIT * i, 50 * UNIT)).collect();
    let bullets: Vec<Bullet> = (0..5).map(|i| bullet(40 * UNIT * (i + 1), 40 * UNIT)).collect();
    let mut game = game_with(aliens, bullets);
    game.score = 1_000;
    assert_eq!(game.check_for_collisions(), CollisionReport { game_over: false, hits: 5 });
    assert_eq!(game.score, 1_050);
    assert_eq!(game.aliens, vec![alien(0, 50 * UNIT), alien(240 * UNIT, 50 * UNIT)]);
    assert!(game.bullets.is_empty());
}

#[test]
fn a_lost_round_scores_nothing() {
    // One alien is on the death line while a bullet overlaps another.
    let mut game = game_with(
        vec![alien(0, 50 * UNIT), alien(100 * UNIT, -100 * UNIT)],
        vec![bullet(0, 50 * UNIT)],
    );
    game.score = 70;
    assert_eq!(game.check_for_collisions(), CollisionReport { game_over: true, hits: 0 });
    assert_eq!(game.score, 70);
    assert!(game.aliens.is_empty());
    assert_eq!(game.bullets, vec![bullet(0, 50 * UNIT)]);
    assert!(!game.running);
}

#[test]
fn collisions_leave_the_rest_alone() {
    let mut game = game_with(vec![alien(0, 0)], vec![bullet(0, 0)]);
    let before = game.clone();
    game.check_for_collisions();
    assert_eq!(game.tank, before.tank);
    assert_eq!(game.level, before.level);
    assert_eq!(game.rows, before.rows);
    assert_eq!(game.columns, before.columns);
    assert_eq!(game.alien_speed, before.alien_speed);
    assert_eq!(game.running, before.running);
    assert_eq!(game.time_since_last_shot, before.time_since_last_shot);
}

#[test]
fn no_bullet_that_is_left_overlaps_an_alien_that_is_left() {
    let aliens: Vec<Alien> = (0..6).map(|i| alien(10 * UNIT * i, 3 * UNIT * i)).collect();
    let bullets: Vec<Bullet> = (0..5).map(|i| bullet(25 * UNIT * i, 0)).collect();
    let mut game = game_with(aliens.clone(), bullets.clone());
    let report = game.check_for_collisions();
    assert_eq!(game.bullets.len() + report.hits as usize, bullets.len());
    assert_eq!(game.aliens.len() + report.hits as usize, aliens.len());
    assert_eq!(game.score, 10 * report.hits);
    for b in game.bullets.iter() {
        for a in game.aliens.iter() {
            assert!(!space_invaders::collide(&a.bounds(), &b.bounds()));
        }
    }
}
