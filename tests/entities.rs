use asteroids_screensaver::ai::{nearest_target, pilot_decision, update_ship_ai, PilotAction};
use asteroids_screensaver::asteroid::{asteroid_points, Asteroid};
use asteroids_screensaver::bullet::Bullet;
use asteroids_screensaver::color::Color;
use asteroids_screensaver::fixed::{cos_u, isqrt, normalize_angle, scale, sin_u, HALF_PI_U, PI_U, TAU_U, UNIT};
use asteroids_screensaver::game::GameState;
use asteroids_screensaver::macos::ScreenSaverBridge;
use asteroids_screensaver::physics::rotate_point;
use asteroids_screensaver::saucer::{saucer_points, Saucer, SaucerSize};
use asteroids_screensaver::ship::{Ship, BURST_GAP, BURST_PERIOD};

#[test]
fn sine_and_cosine_at_quarter_turns() {
    assert_eq!(sin_u(0), 0);
    assert_eq!(sin_u(HALF_PI_U), 999_999);
    assert_eq!(sin_u(PI_U), 0);
    assert_eq!(sin_u(-HALF_PI_U), -999_999);
    assert_eq!(cos_u(0), 999_999);
    assert_eq!(cos_u(PI_U), -999_999);
}

#[test]
fn angles_reduce_into_one_turn() {
    assert_eq!(normalize_angle(TAU_U), 0);
    assert_eq!(normalize_angle(-1), TAU_U - 1);
    assert_eq!(normalize_angle(TAU_U + 5), 5);
    assert_eq!(normalize_angle(-TAU_U), 0);
}

#[test]
fn square_roots_round_down() {
    assert_eq!(isqrt(0), 0);
    assert_eq!(isqrt(15), 3);
    assert_eq!(isqrt(16), 4);
    assert_eq!(isqrt(250_000_000_000), 500_000);
}

#[test]
fn scaling_rounds_toward_zero() {
    assert_eq!(scale(600_000, 16_667), 10_000);
    assert_eq!(scale(-600_000, 16_667), -10_000);
    assert_eq!(scale(3, 1), 0);
}

#[test]
fn rotating_the_nose_offset() {
    assert_eq!(rotate_point(0, 48_000, 0), (0, 47_999));
    assert_eq!(rotate_point(0, 48_000, HALF_PI_U), (-47_999, 0));
}

#[test]
fn thrust_sets_forward_velocity_and_drains_energy() {
    let mut ship = Ship::new(0, 0, Color::arcade_green(), 0);
    ship.thrust(100_000);
    assert_eq!((ship.vx, ship.vy), (0, 599_999));
    assert_eq!(ship.energy, UNIT - 30_000);
    assert_eq!(ship.thrust_level, 2);
    ship.angle = HALF_PI_U;
    ship.thrust(10);
    assert_eq!((ship.vx, ship.vy), (-599_999, 0));
    assert_eq!(ship.energy, UNIT - 30_003);
}

#[test]
fn thrust_drain_saturates_at_zero() {
    let mut ship = Ship::new(0, 0, Color::arcade_green(), 0);
    ship.energy = 1_000;
    ship.thrust(1_000_000);
    assert_eq!(ship.energy, 0);
}

#[test]
fn rotation_is_applied_at_once() {
    let mut ship = Ship::new(0, 0, Color::arcade_green(), 0);
    ship.rotate(1, 100_000);
    assert_eq!(ship.angular_velocity, 3_000_000);
    assert_eq!(ship.angle, 300_000);
    ship.rotate(-1, 200_000);
    assert_eq!(ship.angular_velocity, -3_000_000);
    assert_eq!(ship.angle, TAU_U - 300_000);
}

#[test]
fn physics_step_moves_damps_and_recharges() {
    let mut ship = Ship::new(0, 0, Color::arcade_green(), 0);
    ship.vx = 600_000;
    ship.vy = -600_000;
    ship.energy = 500_000;
    ship.update(100_000);
    assert_eq!((ship.x, ship.y), (60_000, -60_000));
    assert_eq!((ship.vx, ship.vy), (570_000, -570_000));
    assert_eq!(ship.thrust_level, 3);
    assert_eq!(ship.energy, 500_000);
    ship.vx = 0;
    ship.vy = 0;
    ship.update(100_000);
    assert_eq!(ship.thrust_level, 0);
    assert_eq!(ship.energy, 650_000);
    ship.update(1_000_000);
    assert_eq!(ship.energy, UNIT);
}

#[test]
fn no_recharge_while_cooling_down() {
    let mut ship = Ship::new(0, 0, Color::arcade_green(), 0);
    ship.energy = 400_000;
    ship.shoot();
    ship.update(100_000);
    assert_eq!(ship.shoot_cooldown, BURST_PERIOD - 100_000);
    assert_eq!(ship.energy, 400_000);
}

#[test]
fn shooting_rules() {
    let mut ship = Ship::new(0, 0, Color::arcade_green(), 0);
    assert!(ship.can_shoot());
    ship.shoot();
    assert!(!ship.can_shoot());
    assert_eq!(ship.burst_count, 0);
    assert!(ship.update_burst());
    assert_eq!(ship.burst_count, 1);
    assert_eq!(ship.burst_cooldown, BURST_GAP);
    assert_eq!(ship.energy, UNIT - 100_000);
    assert!(!ship.update_burst());
    ship.energy = 99_999;
    ship.burst_cooldown = 0;
    assert!(!ship.update_burst());
}

#[test]
fn respawn_restores_the_spawn_state() {
    let mut ship = Ship::new(100_000, -200_000, Color::arcade_green(), 0);
    ship.x = 5;
    ship.vx = 10;
    ship.angle = 7;
    ship.energy = 3;
    ship.burst_count = 2;
    ship.burst_cooldown = 40_000;
    ship.respawn();
    assert_eq!((ship.x, ship.y, ship.vx, ship.vy, ship.angle), (100_000, -200_000, 0, 0, 0));
    assert_eq!(ship.energy, UNIT);
    assert_eq!((ship.burst_count, ship.burst_cooldown, ship.thrust_level), (0, 0, 0));
}

#[test]
fn nose_sits_ahead_of_the_ship() {
    let mut ship = Ship::new(100_000, 100_000, Color::arcade_green(), 0);
    assert_eq!(ship.get_nose_position(), (100_000, 147_999));
    ship.angle = HALF_PI_U;
    assert_eq!(ship.get_nose_position(), (52_001, 100_000));
}

#[test]
fn bullet_flies_along_heading_and_expires() {
    let mut b = Bullet::new(0, 0, 0, 0, Color::arcade_green());
    assert_eq!((b.vx, b.vy), (2, 1_999_998));
    b.update(1_000_000);
    assert_eq!((b.x, b.y), (2, 1_999_998));
    assert!(b.alive);
    b.update(1_000_000);
    assert!(!b.alive);
}

#[test]
fn aimed_bullet_heads_for_its_target() {
    let b = Bullet::aimed(0, 0, 300_000, 400_000, 4, Color::arcade_green());
    assert_eq!((b.vx, b.vy), (1_200_000, 1_600_000));
    assert_eq!(b.owner_id, 4);
    let c = Bullet::aimed(10, 10, 10, 10, 4, Color::arcade_green());
    assert_eq!((c.vx, c.vy), (2, 1_999_998));
}

#[test]
fn asteroid_points_by_tier() {
    assert_eq!(asteroid_points(3), 20);
    assert_eq!(asteroid_points(2), 50);
    assert_eq!(asteroid_points(1), 100);
}

#[test]
fn new_asteroid_drifts_and_keeps_its_outline() {
    let a = Asteroid::new(0, 0, 3, Color::arcade_green());
    let speed2 = a.vx * a.vx + a.vy * a.vy;
    assert!(speed2 <= 2 * 200_000 * 200_000);
    assert!(a.rotation_speed >= -UNIT && a.rotation_speed < UNIT);
    assert_eq!(a.outline.len(), 8);
    let mut b = a;
    b.update(1_000_000);
    assert_eq!(b.outline, a.outline);
    assert_eq!((b.x, b.y), (a.vx, a.vy));
}

#[test]
fn saucer_values_by_size() {
    assert_eq!(saucer_points(SaucerSize::Large), 200);
    assert_eq!(saucer_points(SaucerSize::Small), 1000);
    let large = Saucer::new(SaucerSize::Large, 1, Color::arcade_green());
    let small = Saucer::new(SaucerSize::Small, 2, Color::arcade_green());
    assert_eq!(large.get_size_value(), 70_000);
    assert_eq!(small.get_size_value(), 42_000);
    assert_eq!(large.get_collision_radius(), 105_000);
    assert_eq!(small.get_collision_radius(), 63_000);
}

#[test]
fn saucer_cooldown_by_size() {
    let mut large = Saucer::new(SaucerSize::Large, 1, Color::arcade_green());
    assert!(!large.can_shoot());
    large.shoot();
    assert_eq!(large.shoot_cooldown, 2_000_000);
    let mut small = Saucer::new(SaucerSize::Small, 2, Color::arcade_green());
    small.shoot();
    assert_eq!(small.shoot_cooldown, 1_000_000);
    small.shoot_cooldown = 0;
    assert!(small.can_shoot());
}

#[test]
fn saucers_enter_from_an_edge_within_the_lane() {
    for id in 1..200usize {
        let size = if id % 2 == 0 { SaucerSize::Large } else { SaucerSize::Small };
        let s = Saucer::new(size, id, Color::arcade_green());
        let speed = if id % 2 == 0 { 300_000 } else { 500_000 };
        assert!((s.x == -1_200_000 && s.vx == speed) || (s.x == 1_200_000 && s.vx == -speed));
        assert!(s.y >= -800_000 && s.y < 800_000);
        assert!(s.vy >= -100_000 && s.vy < 100_000);
        assert_eq!(s.shoot_cooldown, 1_000_000);
        assert!(s.alive);
    }
}

#[test]
fn nearest_target_takes_the_first_of_equals() {
    let targets = [(100i64, 0i64), (-100, 0), (50, 50)];
    assert_eq!(nearest_target(0, 0, &targets), 2);
    let ties = [(100i64, 0i64), (-100, 0)];
    assert_eq!(nearest_target(0, 0, &ties), 0);
}

#[test]
fn pilot_zones() {
    assert_eq!(pilot_decision(0, 0, 0, 0, 100_000), PilotAction::Evade(-1));
    assert_eq!(pilot_decision(0, 0, 0, 0, 300_000), PilotAction::Brake);
    assert_eq!(pilot_decision(0, 0, 0, 0, 1_000_000), PilotAction::Engage);
    assert_eq!(pilot_decision(0, 0, 0, 0, -100_000), PilotAction::Turn(-1));
    assert_eq!(pilot_decision(0, 0, 0, -1_000_000, 0), PilotAction::Turn(1));
    assert_eq!(pilot_decision(0, 0, 0, 1_000_000, 0), PilotAction::Turn(-1));
    assert_eq!(pilot_decision(0, 0, 0, 100_000, 100_000), PilotAction::Evade(1));
}

#[test]
fn pilot_without_threats_only_steps() {
    let mut ship = Ship::new(0, 0, Color::arcade_green(), 0);
    ship.vx = 100_000;
    update_ship_ai(&mut ship, &[], 100_000);
    assert_eq!(ship.x, 10_000);
    assert_eq!(ship.vx, 95_000);
}

#[test]
fn pilot_evades_close_threat_ahead() {
    let mut ship = Ship::new(0, 0, Color::arcade_green(), 0);
    update_ship_ai(&mut ship, &[(0, 100_000)], 100_000);
    assert_eq!(ship.angle, TAU_U - 300_000);
    assert_eq!(ship.angular_velocity, 0);
    assert_eq!((ship.vx, ship.vy), (0, 0));
}

#[test]
fn pilot_closes_in_on_aligned_far_threat() {
    let mut ship = Ship::new(0, 0, Color::arcade_green(), 0);
    update_ship_ai(&mut ship, &[(0, 1_000_000)], 100_000);
    assert_eq!((ship.vx, ship.vy), (0, 599_999));
    assert_eq!(ship.angular_velocity, 0);
}

#[test]
fn enemy_projectile_kills_the_ship() {
    let mut g = GameState::new();
    g.player_ship.x = 200_000;
    g.player_ship.energy = 10;
    g.bullets.push(Bullet::new(200_000, 50_000, 0, 5, g.game_color));
    assert!(g.check_collisions());
    assert!(!g.bullets[0].alive);
    assert_eq!((g.player_ship.x, g.player_ship.y), (0, 0));
    assert_eq!(g.player_ship.energy, UNIT);
    assert_eq!(g.deaths_in_short_time, 1);
    assert_eq!(g.time_since_last_death, 0);
}

#[test]
fn own_projectile_spares_the_ship() {
    let mut g = GameState::new();
    g.bullets.push(Bullet::new(0, 0, 0, 0, g.game_color));
    assert!(!g.check_collisions());
    assert!(g.bullets[0].alive);
    assert_eq!(g.deaths_in_short_time, 0);
}

#[test]
fn ship_and_saucer_collide() {
    let mut g = GameState::new();
    let mut s = Saucer::new(SaucerSize::Large, 1, g.game_color);
    s.x = 50_000;
    s.y = 0;
    g.saucers.push(s);
    assert!(g.check_collisions());
    assert!(!g.saucers[0].alive);
    assert_eq!(g.deaths_in_short_time, 1);
    assert_eq!(g.score, 0);
}

#[test]
fn shooting_a_small_saucer_scores_a_thousand() {
    let mut g = GameState::new();
    let mut s = Saucer::new(SaucerSize::Small, 1, g.game_color);
    s.x = 600_000;
    s.y = 600_000;
    g.saucers.push(s);
    g.bullets.push(Bullet::new(600_000, 620_000, 0, 0, g.game_color));
    g.bullets.push(Bullet::new(600_000, 600_000, 0, 1, g.game_color));
    assert!(!g.check_collisions());
    assert!(!g.saucers[0].alive);
    assert!(!g.bullets[0].alive);
    assert!(g.bullets[1].alive);
    assert_eq!(g.score, 1000);
}

#[test]
fn ship_hit_by_asteroid_forfeits_the_frame_points() {
    let mut g = GameState::new();
    g.asteroids.push(Asteroid::new(700_000, 700_000, 1, g.game_color));
    g.bullets.push(Bullet::new(700_000, 700_000, 0, 0, g.game_color));
    g.asteroids.push(Asteroid::new(20_000, 0, 3, g.game_color));
    assert!(g.check_collisions());
    assert_eq!(g.score, 0);
    assert_eq!(g.deaths_in_short_time, 1);
    assert_eq!(g.asteroids.len(), 1);
}

#[test]
fn score_saturates() {
    let mut g = GameState::new();
    g.score = u32::MAX - 5;
    g.asteroids.push(Asteroid::new(500_000, 500_000, 1, g.game_color));
    g.bullets.push(Bullet::new(500_000, 500_000, 0, 0, g.game_color));
    assert!(!g.check_collisions());
    assert_eq!(g.score, u32::MAX);
}

#[test]
fn spawns_follow_their_rules() {
    let mut g = GameState::new();
    g.spawn_asteroid();
    let a = g.asteroids[0];
    assert_eq!(a.size_level, 3);
    assert!(a.y == 1_200_000 || a.y == -1_200_000);
    assert!(a.x >= -UNIT && a.x < UNIT);
    g.spawn_saucer();
    g.spawn_saucer();
    assert_eq!(g.saucers[0].id, 1);
    assert_eq!(g.saucers[1].id, 2);
    assert_eq!(g.saucer_id_counter, 3);
}

#[test]
fn timers_drive_spawning() {
    let mut g = GameState::new();
    g.update(3_000_001);
    assert_eq!(g.asteroids.len(), 1);
    assert_eq!(g.time_since_asteroid_spawn, 0);
    let mut g = GameState::new();
    g.time_since_saucer_spawn = 10_000_000;
    g.update(1);
    assert_eq!(g.saucers.len(), 1);
    assert_eq!(g.time_since_saucer_spawn, 0);
}

#[test]
fn asteroid_population_is_capped() {
    let mut g = GameState::new();
    for i in 0..12i64 {
        g.asteroids.push(Asteroid::new(-1_100_000 + i * 150_000, 1_100_000, 1, g.game_color));
    }
    g.time_since_asteroid_spawn = 3_000_000;
    g.update(1);
    assert!(g.time_since_asteroid_spawn > 3_000_000);
}

#[test]
fn negative_step_changes_nothing() {
    let mut g = GameState::new();
    g.update(-50_000);
    assert_eq!(g.time_since_last_death, 10 * UNIT);
    assert_eq!(g.time_since_asteroid_spawn, 0);
    assert_eq!((g.player_ship.x, g.player_ship.y), (0, 0));
    assert!(g.bullets.is_empty());
}

#[test]
fn bullet_angle_is_taken_modulo_a_turn() {
    let a = Bullet::new(0, 0, 0, 0, Color::arcade_green());
    let b = Bullet::new(0, 0, TAU_U, 0, Color::arcade_green());
    let c = Bullet::new(0, 0, -TAU_U, 0, Color::arcade_green());
    assert_eq!((a.vx, a.vy), (b.vx, b.vy));
    assert_eq!((a.vx, a.vy), (c.vx, c.vy));
}

#[test]
fn asteroid_outline_lies_on_its_ring() {
    for _ in 0..50 {
        let a = Asteroid::new(0, 0, 3, Color::arcade_green());
        assert!(a.rotation_speed >= -UNIT && a.rotation_speed < UNIT);
        for p in a.outline.iter() {
            let r2 = p.0 * p.0 + p.1 * p.1;
            assert!(r2 < UNIT * UNIT + 10_000_000_000);
            assert!(r2 > 480_000_000_000);
        }
    }
}

#[test]
fn saucer_tags_stay_distinct_over_a_long_run() {
    let mut g = GameState::new();
    for _ in 0..4_000 {
        g.update(16_667);
        assert!(g.saucers.len() <= 2);
        for (i, s) in g.saucers.iter().enumerate() {
            assert!(s.id >= 1 && s.id < g.saucer_id_counter);
            assert!(g.saucers.iter().skip(i + 1).all(|t| t.id != s.id));
        }
    }
}

#[test]
fn long_run_keeps_everything_on_the_field() {
    let mut g = GameState::new();
    for _ in 0..3_000 {
        g.update(16_667);
        assert!(g.player_ship.x.abs() <= 1_200_000 && g.player_ship.y.abs() <= 1_200_000);
        assert!(g.player_ship.energy >= 0 && g.player_ship.energy <= UNIT);
        assert!(g.bullets.iter().all(|b| b.x.abs() <= 1_200_000 && b.y.abs() <= 1_200_000));
        assert!(g.asteroids.iter().all(|a| a.x.abs() <= 1_200_000 && (1..=3).contains(&a.size_level)));
        assert!(g.saucers.iter().all(|s| s.x.abs() <= 1_500_000 && s.y.abs() <= 1_500_000));
        assert!(g.saucers.len() <= 2);
    }
}

#[test]
fn resize_records_the_display() {
    let mut g = GameState::default();
    g.resize(800, 600);
    assert_eq!((g.width, g.height), (800, 600));
}

#[test]
fn bridge_holds_nothing() {
    let _b = ScreenSaverBridge::new();
    let _d = ScreenSaverBridge::default();
}

#[test]
fn marking_and_removing_asteroids() {
    let mut g = GameState::new();
    g.asteroids.push(Asteroid::new(-600_000, 600_000, 2, g.game_color));
    g.asteroids.push(Asteroid::new(600_000, 600_000, 1, g.game_color));
    g.asteroids.push(Asteroid::new(600_000, -600_000, 3, g.game_color));
    g.bullets.push(Bullet::new(600_000, 610_000, 0, 0, g.game_color));
    g.bullets.push(Bullet::new(0, -900_000, 0, 0, g.game_color));
    let (points, children) = g.mark_asteroid_hits();
    assert_eq!(points, 100);
    assert!(children.is_empty());
    assert!(!g.bullets[0].alive);
    assert!(g.bullets[1].alive);
    assert!(g.asteroids[0].alive && !g.asteroids[1].alive && g.asteroids[2].alive);
    g.remove_destroyed_asteroids(children);
    assert_eq!(g.asteroids.len(), 2);
    assert_eq!(g.asteroids[0].x, -600_000);
    assert_eq!(g.asteroids[1].x, 600_000);
    assert_eq!(g.asteroids[1].y, -600_000);
}

#[test]
fn status_readouts() {
    let mut ship = Ship::new(0, 0, Color::arcade_green(), 0);
    assert_eq!(ship.heading_degrees(), 0);
    ship.angle = HALF_PI_U;
    assert_eq!(ship.heading_degrees(), 89);
    ship.angle = PI_U;
    assert_eq!(ship.heading_degrees(), 180);
    ship.angle = TAU_U - 1;
    assert_eq!(ship.heading_degrees(), 359);
    ship.vx = 600_000;
    ship.vy = 0;
    assert_eq!(ship.speed_digit(), 6);
    ship.vx = 1_000_000;
    ship.vy = 1_000_000;
    assert_eq!(ship.speed_digit(), 9);
    ship.vx = 30_000;
    ship.vy = 40_000;
    assert_eq!(ship.speed_digit(), 0);
    assert_eq!(ship.energy_percent(), 100);
    ship.energy = 999_999;
    assert_eq!(ship.energy_percent(), 99);
    ship.energy = 0;
    assert_eq!(ship.energy_percent(), 0);
}
