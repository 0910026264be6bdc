use arena_sim::arena::{clamped_add, floor_div, floor_mod, isqrt, scale, wrap, SPAN, UNIT};
use arena_sim::clock::Instant;
use arena_sim::game::{Config, EntitySnapshot, GameState, Intent, Kill, Torpedo};
use arena_sim::spatial::{cell, ShipGrid, SpatialHash};
use arena_sim::vehicle::{Heading, PlayerId, Vehicle};

fn at_rest(x: i64, y: i64, orientation: i64) -> Vehicle {
    Vehicle { x, y, orientation, vx: 0, vy: 0 }
}

fn quiet_config() -> Config {
    Config { friendly_fire: false, ..Config::classic() }
}

#[test]
fn wrap_boundary_crosses_to_opposite_edge() {
    let mut v = Vehicle { x: 999_000, y: 0, orientation: 0, vx: 10_000, vy: 0 };
    v.integrate(1_000_000);
    assert_eq!(v.x, -991_000);
    assert_eq!(v.y, 0);
}

#[test]
fn wrap_exact_edges() {
    assert_eq!(wrap(UNIT as i128), -UNIT);
    assert_eq!(wrap(-(UNIT as i128)), -UNIT);
    assert_eq!(wrap(UNIT as i128 - 1), UNIT - 1);
    assert_eq!(wrap(-(UNIT as i128) - 1), UNIT - 1);
    assert_eq!(wrap(3 * SPAN as i128 + 5), 5);
    assert_eq!(wrap(-(3 * SPAN as i128) + 5), 5);
}

#[test]
fn integrate_stays_in_arena() {
    let speeds = [i64::MIN, -1_999_999, -1, 0, 1, 7_654_321, i64::MAX];
    let spans = [0u64, 1, 16_667, 1_000_000, u64::MAX];
    for &vx in speeds.iter() {
        for &dt in spans.iter() {
            let mut v = Vehicle { x: 999_999, y: -1_000_000, orientation: 0, vx, vy: -vx / 3 };
            v.integrate(dt);
            assert!(-UNIT <= v.x && v.x < UNIT);
            assert!(-UNIT <= v.y && v.y < UNIT);
        }
    }
}

#[test]
fn integrate_moves_by_velocity() {
    let mut v = Vehicle { x: 100_000, y: -200_000, orientation: 5, vx: -300_000, vy: 50_000 };
    v.integrate(500_000);
    assert_eq!(v, Vehicle { x: -50_000, y: -175_000, orientation: 5, vx: -300_000, vy: 50_000 });
}

#[test]
fn fire_spawns_torpedo_with_impulse() {
    let mut g = GameState::new(Config::classic(), Instant(0));
    g.player_one = at_rest(0, 0, 0);
    g.apply_input(PlayerId::One, Intent::Fire(Heading { x: UNIT, y: 0 }));
    assert_eq!(g.torpedoes.len(), 1);
    let t = g.torpedoes[0];
    assert_eq!(t.body, Vehicle { x: 0, y: 0, orientation: 0, vx: 340_000, vy: 0 });
    assert_eq!(t.owner, PlayerId::One);
    assert_eq!(g.player_one, at_rest(0, 0, 0));
}

#[test]
fn torpedo_inherits_ship_momentum() {
    let mut g = GameState::new(Config::classic(), Instant(0));
    g.player_two = Vehicle { x: 10, y: 20, orientation: 7, vx: 1_000, vy: -2_000 };
    g.apply_input(PlayerId::Two, Intent::Fire(Heading { x: 0, y: -UNIT }));
    assert_eq!(g.torpedoes[0].body, Vehicle { x: 10, y: 20, orientation: 7, vx: 1_000, vy: -342_000 });
    assert_eq!(g.torpedoes[0].owner, PlayerId::Two);
}

#[test]
fn thrust_adds_to_momentum() {
    let mut g = GameState::new(Config::classic(), Instant(0));
    g.player_one.vx = 5_000;
    g.apply_input(PlayerId::One, Intent::Thrust(Heading { x: 600_000, y: 800_000 }));
    assert_eq!(g.player_one.vx, 5_000 + 48_000);
    assert_eq!(g.player_one.vy, 64_000);
    assert_eq!(g.player_one.speed(), 83_096);
    assert!(g.torpedoes.is_empty());
}

#[test]
fn rotation_steps_both_ways() {
    let mut g = GameState::new(Config::classic(), Instant(0));
    g.apply_input(PlayerId::One, Intent::RotateLeft);
    assert_eq!(g.player_one.orientation, 400_000);
    g.apply_input(PlayerId::Two, Intent::RotateRight);
    g.apply_input(PlayerId::Two, Intent::RotateRight);
    assert_eq!(g.player_two.orientation, -500_000);
    assert_eq!(g.player_one.orientation, 400_000);
}

#[test]
fn torpedo_leaving_arena_is_removed() {
    let mut g = GameState::new(Config::classic(), Instant(0));
    g.torpedoes.push(Torpedo {
        body: Vehicle { x: 999_000, y: 0, orientation: 0, vx: UNIT, vy: 0 },
        owner: PlayerId::Two,
    });
    let report = g.advance(10_000);
    assert!(g.torpedoes.is_empty());
    assert!(report.torpedoes.is_empty());
    assert_eq!(report.kill_event, None);
}

#[test]
fn torpedo_inside_arena_keeps_flying() {
    let mut g = GameState::new(Config::classic(), Instant(0));
    g.torpedoes.push(Torpedo {
        body: Vehicle { x: 0, y: 900_000, orientation: 3, vx: 0, vy: 100_000 },
        owner: PlayerId::One,
    });
    let report = g.advance(500_000);
    assert_eq!(g.torpedoes.len(), 1);
    assert_eq!(g.torpedoes[0].body.y, 950_000);
    assert_eq!(report.torpedoes, vec![EntitySnapshot { x: 0, y: 950_000, orientation: 3 }]);
}

#[test]
fn negative_span_counts_as_zero() {
    let mut g = GameState::new(Config::classic(), Instant(0));
    g.player_one.vx = 200_000;
    let report = g.advance(-5_000);
    assert_eq!(g.player_one.x, 341_000);
    assert_eq!(report.ship_one, EntitySnapshot { x: 341_000, y: 283_000, orientation: 300_000 });
}

#[test]
fn kill_event_then_cleared() {
    let mut g = GameState::new(quiet_config(), Instant(0));
    g.torpedoes.push(Torpedo {
        body: Vehicle { x: 341_000, y: 283_000, orientation: 0, vx: 0, vy: 0 },
        owner: PlayerId::Two,
    });
    let first = g.advance(16_000);
    assert_eq!(first.kill_event, Some(Kill { player: PlayerId::One, x: 341_000, y: 283_000 }));
    assert_eq!(g.last_kill_event, first.kill_event);
    assert!(g.torpedoes.is_empty());
    let second = g.advance(16_000);
    assert_eq!(second.kill_event, None);
    assert_eq!(g.last_kill_event, None);
}

#[test]
fn own_torpedo_spares_firer_without_friendly_fire() {
    let mut g = GameState::new(quiet_config(), Instant(0));
    g.apply_input(PlayerId::One, Intent::Fire(Heading { x: UNIT, y: 0 }));
    let report = g.advance(1_000);
    assert_eq!(report.kill_event, None);
    assert_eq!(g.torpedoes.len(), 1);
}

#[test]
fn own_torpedo_strikes_firer_with_friendly_fire() {
    let mut g = GameState::new(Config::classic(), Instant(0));
    g.apply_input(PlayerId::Two, Intent::Fire(Heading { x: UNIT, y: 0 }));
    let report = g.advance(1_000);
    assert_eq!(report.kill_event, Some(Kill { player: PlayerId::Two, x: -400_000, y: -400_000 }));
    assert!(g.torpedoes.is_empty());
}

#[test]
fn player_one_kill_takes_priority() {
    let mut g = GameState::new(quiet_config(), Instant(0));
    g.torpedoes.push(Torpedo { body: at_rest(-400_000, -400_000, 0), owner: PlayerId::One });
    g.torpedoes.push(Torpedo { body: at_rest(341_000, 283_000, 0), owner: PlayerId::Two });
    let report = g.advance(0);
    assert_eq!(report.kill_event, Some(Kill { player: PlayerId::One, x: 341_000, y: 283_000 }));
    assert!(g.torpedoes.is_empty());
}

#[test]
fn ships_in_contact_report_collision() {
    let mut g = GameState::new(Config::classic(), Instant(0));
    g.player_two = at_rest(341_000 + 19_000, 283_000, 0);
    let report = g.advance(0);
    assert!(report.vehicle_collision);
    assert_eq!(report.kill_event, None);
    g.player_two = at_rest(341_000 + 20_000, 283_000, 0);
    let report = g.advance(0);
    assert!(!report.vehicle_collision);
}

#[test]
fn torpedo_reach_limits_contact() {
    let mut g = GameState::new(quiet_config(), Instant(0));
    g.torpedoes.push(Torpedo { body: at_rest(341_000 + 15_000, 283_000, 0), owner: PlayerId::Two });
    let report = g.advance(0);
    assert_eq!(report.kill_event, None);
    assert_eq!(g.torpedoes.len(), 1);
    g.torpedoes[0].body.x = 341_000 + 14_999;
    let report = g.advance(0);
    assert_eq!(report.kill_event.map(|k| k.player), Some(PlayerId::One));
}

#[test]
fn contacts_do_not_depend_on_stamp_order() {
    let forward = ShipGrid::new(3, 4, 10, -2, 6);
    let backward = ShipGrid::new(10, -2, 3, 4, 6);
    let a = forward.contacts(7, 1, 2);
    let b = backward.contacts(7, 1, 2);
    assert_eq!(a.one, b.two);
    assert_eq!(a.two, b.one);
    assert!(a.one && a.two);

    let mut h1 = SpatialHash::new();
    h1.stamp(0, 0, 3, PlayerId::One);
    h1.stamp(4, 4, 2, PlayerId::Two);
    let mut h2 = SpatialHash::new();
    h2.stamp(4, 4, 2, PlayerId::Two);
    h2.stamp(0, 0, 3, PlayerId::One);
    for cx in -6..8 {
        for cy in -6..8 {
            assert_eq!(h1.probe(cx, cy, 1), h2.probe(cx, cy, 1));
        }
    }
    assert_eq!(h1.probe(2, 2, 1).one, true);
    assert_eq!(h1.probe(2, 2, 1).two, true);
    assert_eq!(h1.probe(-3, 5, 1).one, false);
}

#[test]
fn squares_meet_only_within_reach() {
    let grid = ShipGrid::new(0, 0, 100, 100, 10);
    assert!(grid.contacts(14, 0, 5).one);
    assert!(!grid.contacts(15, 0, 5).one);
    assert!(grid.contacts(-14, -14, 5).one);
    assert!(!grid.contacts(-15, -15, 5).one);
    assert!(!grid.contacts(-16, 0, 5).one);
    assert!(!grid.contacts(0, 0, 0).one);
}

#[test]
fn cells_round_down() {
    assert_eq!(cell(0), 0);
    assert_eq!(cell(999), 0);
    assert_eq!(cell(1_000), 1);
    assert_eq!(cell(-1), -1);
    assert_eq!(cell(-1_000), -1);
    assert_eq!(cell(-1_001), -2);
    assert_eq!(cell(-UNIT), -1_000);
    assert_eq!(cell(UNIT - 1), 999);
}

#[test]
fn floor_division_and_modulus() {
    assert_eq!(floor_div(7, 2), 3);
    assert_eq!(floor_div(-7, 2), -4);
    assert_eq!(floor_div(-8, 2), -4);
    assert_eq!(floor_mod(-7, 2), 1);
    assert_eq!(floor_mod(-8, 2), 0);
    assert_eq!(floor_mod(i128::MIN, 3), 1);
    assert_eq!(scale(-1, 340_000), -1);
    assert_eq!(scale(UNIT, 340_000), 340_000);
    assert_eq!(scale(-UNIT, 340_000), -340_000);
}

#[test]
fn velocity_saturates() {
    assert_eq!(clamped_add(i64::MAX, 5), i64::MAX);
    assert_eq!(clamped_add(i64::MIN, -5), i64::MIN);
    assert_eq!(clamped_add(-5, 3), -2);
    let mut v = Vehicle { x: 0, y: 0, orientation: i64::MAX, vx: i64::MAX, vy: 0 };
    v.apply_impulse(Heading { x: UNIT, y: 0 }, 1_000);
    assert_eq!(v.vx, i64::MAX);
    v.rotate(1);
    assert_eq!(v.orientation, i64::MAX);
}

#[test]
fn speed_is_floor_of_norm() {
    assert_eq!(Vehicle { x: 0, y: 0, orientation: 0, vx: 3, vy: -4 }.speed(), 5);
    assert_eq!(Vehicle { x: 0, y: 0, orientation: 0, vx: 1, vy: 1 }.speed(), 1);
    assert_eq!(Vehicle { x: 0, y: 0, orientation: 0, vx: 0, vy: 0 }.speed(), 0);
    assert_eq!(Vehicle { x: 0, y: 0, orientation: 0, vx: i64::MIN, vy: i64::MIN }.speed(), 13_043_817_825_332_782_212);
    assert_eq!(isqrt(99), 9);
    assert_eq!(isqrt(100), 10);
    assert_eq!(isqrt(1u128 << 127), 13_043_817_825_332_782_212);
}

#[test]
fn instant_arithmetic() {
    let a = Instant(1_000);
    let b = Instant(4_500);
    assert_eq!(b.duration_since(a), 3_500);
    assert_eq!(a.duration_since(b), 0);
    assert_eq!(a.checked_add(500), Some(Instant(1_500)));
    assert_eq!(Instant(u64::MAX).checked_add(1), None);
    assert_eq!(a.checked_sub(1_000), Some(Instant(0)));
    assert_eq!(a.checked_sub(1_001), None);
}

#[test]
fn session_clock() {
    let g = GameState::new(Config::classic(), Instant(2_000));
    assert_eq!(g.elapsed(Instant(5_000)), 3_000);
    assert_eq!(g.elapsed(Instant(1_000)), 0);
}

#[test]
fn new_game_layout() {
    let g = GameState::new(Config::classic(), Instant(0));
    assert_eq!(g.player_one, at_rest(341_000, 283_000, 300_000));
    assert_eq!(g.player_two, at_rest(-400_000, -400_000, -300_000));
    assert!(g.torpedoes.is_empty());
    assert_eq!(g.last_kill_event, None);
}

#[test]
fn fatal_collision_records_kill() {
    let config = Config { fatal_collisions: true, ..Config::classic() };
    let mut g = GameState::new(config, Instant(0));
    g.player_two = at_rest(341_000, 283_000 - 5_000, 0);
    let report = g.advance(0);
    assert!(report.vehicle_collision);
    assert_eq!(report.kill_event, Some(Kill { player: PlayerId::One, x: 341_000, y: 283_000 }));
    g.player_two = at_rest(0, 0, 0);
    let report = g.advance(0);
    assert!(!report.vehicle_collision);
    assert_eq!(report.kill_event, None);
}
