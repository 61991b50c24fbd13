use space_invaders::config::{TANK_LEFT_BOUND, TANK_RIGHT_BOUND, TANK_WIDTH, UNIT, WINDOW_WIDTH};
use space_invaders::{SpaceInvaders, Tank};

#[test]
fn tank_bounds_keep_the_tank_on_the_playfield() {
    assert_eq!(TANK_LEFT_BOUND, -WINDOW_WIDTH / 2 + TANK_WIDTH / 2);
    assert_eq!(TANK_RIGHT_BOUND, WINDOW_WIDTH / 2 - TANK_WIDTH / 2);
    assert_eq!(TANK_LEFT_BOUND, -438 * UNIT);
    assert_eq!(TANK_RIGHT_BOUND, 438 * UNIT);
}

#[test]
fn move_tank_right_and_left() {
    let mut game = SpaceInvaders::setup();
    assert_eq!(game.tank, Tank { x: 0, y: -150 * UNIT });
    game.move_tank(false, true, 1_000_000);
    assert_eq!(game.tank, Tank { x: 50 * UNIT, y: -150 * UNIT });
    game.move_tank(true, false, 15_625);
    assert_eq!(game.tank, Tank { x: 50 * UNIT - 781_250, y: -150 * UNIT });
    game.move_tank(true, false, 2_000_000);
    assert_eq!(game.tank, Tank { x: -50 * UNIT - 781_250, y: -150 * UNIT });
}

#[test]
fn move_tank_without_keys_or_with_both() {
    let mut game = SpaceInvaders::setup();
    game.tank.x = 17;
    game.move_tank(false, false, 1_000_000);
    assert_eq!(game.tank.x, 17);
    game.move_tank(true, true, 1_000_000);
    assert_eq!(game.tank.x, 17);
    game.move_tank(true, false, 0);
    assert_eq!(game.tank.x, 17);
}

#[test]
fn move_tank_stops_at_the_bounds() {
    let mut game = SpaceInvaders::setup();
    game.move_tank(false, true, 8_760_000);
    assert_eq!(game.tank.x, 438 * UNIT);
    game.move_tank(false, true, 1);
    assert_eq!(game.tank.x, 438 * UNIT);
    game.move_tank(true, false, 1);
    assert_eq!(game.tank.x, 438 * UNIT - 50);
    game.move_tank(true, false, 60_000_000);
    assert_eq!(game.tank.x, -438 * UNIT);
    game.move_tank(true, false, 60_000_000);
    assert_eq!(game.tank.x, -438 * UNIT);
}

#[test]
fn move_tank_for_any_duration() {
    let mut game = SpaceInvaders::setup();
    game.move_tank(false, true, u64::MAX);
    assert_eq!(game.tank.x, TANK_RIGHT_BOUND);
    game.move_tank(true, false, u64::MAX);
    assert_eq!(game.tank.x, TANK_LEFT_BOUND);
    let mut x_held = 0u64;
    for _ in 0..2_000 {
        game.move_tank(false, true, 15_625);
        x_held += 15_625;
        assert!(TANK_LEFT_BOUND <= game.tank.x && game.tank.x <= TANK_RIGHT_BOUND);
        let expected = (-438 * UNIT + 50 * x_held as i64).min(438 * UNIT);
        assert_eq!(game.tank.x, expected);
    }
    assert_eq!(game.tank.x, TANK_RIGHT_BOUND);
}

#[test]
fn move_tank_brings_a_stray_tank_back() {
    let mut game = SpaceInvaders::setup();
    game.tank.x = i64::MAX;
    game.move_tank(false, true, u64::MAX);
    assert_eq!(game.tank.x, TANK_RIGHT_BOUND);
    game.tank.x = i64::MIN;
    game.move_tank(true, false, u64::MAX);
    assert_eq!(game.tank.x, TANK_LEFT_BOUND);
    game.tank.x = i64::MIN;
    game.move_tank(false, false, 0);
    assert_eq!(game.tank.x, TANK_LEFT_BOUND);
}

#[test]
fn move_tank_still_works_after_the_round_is_lost() {
    let mut game = SpaceInvaders::setup();
    game.running = false;
    game.aliens.clear();
    game.move_tank(false, true, 1_000_000);
    assert_eq!(game.tank.x, 50 * UNIT);
}

#[test]
fn move_tank_leaves_the_rest_alone() {
    let mut game = SpaceInvaders::setup();
    let before = game.clone();
    game.move_tank(true, false, 123_456);
    assert_eq!(game.tank.x, -50 * 123_456);
    game.tank = before.tank;
    assert_eq!(game, before);
}
