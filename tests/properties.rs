use asteroids_screensaver::asteroid::{collision_radius, Asteroid};
use asteroids_screensaver::bullet::Bullet;
use asteroids_screensaver::color::Color;
use asteroids_screensaver::fixed::UNIT;
use asteroids_screensaver::game::{GameState, SPAWN_GRACE};
use asteroids_screensaver::physics::wrap_position;
use asteroids_screensaver::saucer::{Saucer, SaucerSize};
use asteroids_screensaver::ship::{Ship, BURST_GAP};

#[test]
fn radius_grows_with_tier() {
    assert_eq!(collision_radius(1), 50_000);
    assert_eq!(collision_radius(2), 100_000);
    assert_eq!(collision_radius(3), 150_000);
    assert!(collision_radius(1) < collision_radius(2));
    assert!(collision_radius(2) < collision_radius(3));
}

#[test]
fn splitting_tier_three_gives_two_tier_two_children() {
    let color = Color { r: 10, g: 20, b: 30, a: 255 };
    let parent = Asteroid::new(300_000, -200_000, 3, color);
    let children = parent.split();
    assert_eq!(children.len(), 2);
    assert_eq!(children[0].x, 350_000);
    assert_eq!(children[1].x, 250_000);
    for c in &children {
        assert_eq!(c.y, -200_000);
        assert_eq!(c.size_level, 2);
        assert_eq!(c.size, 100_000);
        assert_eq!(c.color, color);
        assert!(c.alive);
    }
}

#[test]
fn splitting_tier_two_gives_two_tier_one_children() {
    let parent = Asteroid::new(0, 0, 2, Color::arcade_green());
    let children = parent.split();
    assert_eq!(children.len(), 2);
    assert!(children.iter().all(|c| c.size_level == 1 && c.size == 50_000));
}

#[test]
fn smallest_tier_does_not_split() {
    let parent = Asteroid::new(0, 0, 1, Color::arcade_green());
    assert!(parent.split().is_empty());
}

#[test]
fn energy_stays_in_range_over_a_run_of_calls() {
    let mut ship = Ship::new(0, 0, Color::arcade_green(), 0);
    let steps: [i64; 6] = [0, 1, 16_667, 100_000, 1_000_000, 5_000_000];
    for round in 0..300usize {
        let dt = steps[round % steps.len()];
        match round % 5 {
            0 | 3 => ship.thrust(dt),
            1 => {
                ship.update_burst();
            }
            2 => ship.shoot(),
            _ => {
                ship.update(dt);
                ship.x = 0;
                ship.y = 0;
            }
        }
        assert!(ship.energy >= 0 && ship.energy <= UNIT, "energy {}", ship.energy);
    }
}

#[test]
fn burst_fires_at_most_three_spaced_shots() {
    let mut ship = Ship::new(0, 0, Color::arcade_green(), 0);
    ship.shoot();
    let dt: i64 = 16_667;
    let mut clock: i64 = 0;
    let mut shots: Vec<i64> = Vec::new();
    for _ in 0..60 {
        if ship.update_burst() {
            shots.push(clock);
        }
        ship.update(dt);
        clock += dt;
    }
    assert_eq!(shots.len(), 3);
    for pair in shots.windows(2) {
        assert!(pair[1] - pair[0] >= BURST_GAP);
    }
}

#[test]
fn wrap_leaves_threshold_and_flips_past_it() {
    let (mut x, mut y) = (1_200_000i64, -1_200_000i64);
    wrap_position(&mut x, &mut y);
    assert_eq!((x, y), (1_200_000, -1_200_000));
    let (mut x, mut y) = (1_200_001i64, -1_200_001i64);
    wrap_position(&mut x, &mut y);
    assert_eq!((x, y), (-1_200_000, 1_200_000));
    let (mut x, mut y) = (-1_200_001i64, 1_200_001i64);
    wrap_position(&mut x, &mut y);
    assert_eq!((x, y), (1_200_000, -1_200_000));
    let (mut x2, mut y2) = (x, y);
    wrap_position(&mut x2, &mut y2);
    assert_eq!((x2, y2), (x, y));
}

fn crowded_game() -> GameState {
    let mut g = GameState::new();
    g.asteroids.push(Asteroid::new(900_000, 900_000, 3, g.game_color));
    g.asteroids.push(Asteroid::new(-900_000, 900_000, 2, g.game_color));
    g.bullets.push(Bullet::new(-500_000, -500_000, 0, 7, g.game_color));
    g
}

#[test]
fn three_quick_deaths_clear_the_field() {
    let mut g = crowded_game();
    g.handle_player_death();
    assert_eq!(g.deaths_in_short_time, 1);
    assert_eq!(g.asteroids.len(), 2);
    g.time_since_last_death = 1_000_000;
    g.handle_player_death();
    assert_eq!(g.deaths_in_short_time, 2);
    assert_eq!(g.asteroids.len(), 2);
    assert_eq!(g.bullets.len(), 1);
    g.time_since_last_death = 2_999_999;
    g.handle_player_death();
    assert!(g.asteroids.is_empty());
    assert!(g.bullets.is_empty());
    assert_eq!(g.time_since_asteroid_spawn, SPAWN_GRACE);
    assert_eq!(g.deaths_in_short_time, 0);
}

#[test]
fn two_quick_deaths_do_not_clear_the_field() {
    let mut g = crowded_game();
    g.handle_player_death();
    g.time_since_last_death = 500_000;
    g.handle_player_death();
    assert_eq!(g.asteroids.len(), 2);
    assert_eq!(g.bullets.len(), 1);
    assert_eq!(g.time_since_asteroid_spawn, 0);
}

#[test]
fn slow_deaths_restart_the_count() {
    let mut g = crowded_game();
    g.handle_player_death();
    g.time_since_last_death = 1_000_000;
    g.handle_player_death();
    g.time_since_last_death = 3_000_000;
    g.handle_player_death();
    assert_eq!(g.deaths_in_short_time, 1);
    assert_eq!(g.asteroids.len(), 2);
}

#[test]
fn new_game_state_is_empty() {
    let g = GameState::new();
    assert_eq!((g.player_ship.x, g.player_ship.y), (0, 0));
    assert_eq!((g.player_ship.vx, g.player_ship.vy), (0, 0));
    assert_eq!(g.player_ship.energy, UNIT);
    assert_eq!(g.player_ship.id, 0);
    assert_eq!(g.asteroids.len(), 0);
    assert_eq!(g.saucers.len(), 0);
    assert_eq!(g.bullets.len(), 0);
    assert_eq!(g.score, 0);
}

#[test]
fn zero_time_steps_change_no_motion_or_score() {
    let mut g = GameState::new();
    g.update(16_667);
    g.asteroids.push(Asteroid::new(900_000, -900_000, 3, g.game_color));
    let snapshot = |g: &GameState| {
        (
            (g.player_ship.x, g.player_ship.y, g.player_ship.vx, g.player_ship.vy),
            g.bullets.iter().map(|b| (b.x, b.y, b.vx, b.vy)).collect::<Vec<_>>(),
            g.asteroids.iter().map(|a| (a.x, a.y, a.vx, a.vy)).collect::<Vec<_>>(),
            g.saucers.iter().map(|s| (s.x, s.y, s.vx, s.vy)).collect::<Vec<_>>(),
            g.score,
        )
    };
    let before = snapshot(&g);
    for _ in 0..20 {
        g.update(0);
        assert_eq!(snapshot(&g), before);
    }
}

#[test]
fn projectile_on_tier_three_asteroid() {
    let mut g = GameState::new();
    g.asteroids.push(Asteroid::new(500_000, 500_000, 3, g.game_color));
    g.bullets.push(Bullet::new(500_000, 500_000, 0, 0, g.game_color));
    assert!(!g.check_collisions());
    assert!(!g.bullets[0].alive);
    assert_eq!(g.score, 20);
    assert_eq!(g.asteroids.len(), 2);
    assert!(g.asteroids.iter().all(|a| a.size_level == 2 && a.alive));
    assert_eq!(g.asteroids[0].x, 550_000);
    assert_eq!(g.asteroids[1].x, 450_000);
}

#[test]
fn thrust_without_energy_changes_nothing() {
    let mut ship = Ship::new(0, 0, Color::arcade_green(), 0);
    ship.energy = 0;
    ship.vx = 123_000;
    ship.vy = -45_000;
    ship.thrust_level = 2;
    ship.thrust(16_667);
    assert_eq!((ship.vx, ship.vy), (123_000, -45_000));
    assert_eq!(ship.thrust_level, 0);
    assert_eq!(ship.energy, 0);
}

#[test]
fn saucer_past_the_edge_dies_on_next_update() {
    let mut s = Saucer::new(SaucerSize::Large, 1, Color::arcade_green());
    s.x = 1_600_000;
    s.y = 0;
    s.vx = -300_000;
    s.update(16_000);
    assert!(!s.alive);

    let mut s = Saucer::new(SaucerSize::Small, 2, Color::arcade_green());
    s.x = 0;
    s.y = -1_500_001;
    s.vy = 0;
    s.update(0);
    assert!(!s.alive);

    let mut s = Saucer::new(SaucerSize::Small, 3, Color::arcade_green());
    s.x = 1_500_000;
    s.y = 0;
    s.update(0);
    assert!(s.alive);
}

#[test]
fn projectile_and_tier_three_asteroid_both_marked_dead() {
    let mut g = GameState::new();
    g.asteroids.push(Asteroid::new(-400_000, 700_000, 3, g.game_color));
    g.bullets.push(Bullet::new(-400_000, 700_000, 0, 0, g.game_color));
    let (points, children) = g.mark_asteroid_hits();
    assert!(!g.bullets[0].alive);
    assert!(!g.asteroids[0].alive);
    assert_eq!(points, 20);
    assert_eq!(children.len(), 2);
    assert!(children.iter().all(|c| c.size_level == 2));
}

#[test]
fn saucer_already_off_field_dies_even_when_heading_back() {
    let mut s = Saucer::new(SaucerSize::Large, 1, Color::arcade_green());
    s.x = 1_510_000;
    s.y = 0;
    s.vx = -1_000_000;
    s.update(16_000);
    assert_eq!(s.x, 1_494_000);
    assert!(!s.alive);
}
