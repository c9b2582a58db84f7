use balls::engine::Engine;
use balls::style::{Style, Tunables};

const SCALE: i64 = 1_000_000;

fn tunables(speed: i64, count: u32, period: u32, throttled: bool) -> Tunables {
    Tunables {
        disappear_speed: speed,
        spawn_count: count,
        star_throttle_period: period,
        throttle_enabled: throttled,
    }
}

#[test]
fn random_spawns_one_more_than_count() {
    let mut e = Engine::new(5);
    let tun = tunables(200_000, 2, 5, false);
    // A zero-length frame spawns and updates, but nothing moves or ages.
    let cmds = e.advance(0, 1, 600 * SCALE, 400 * SCALE, Style::Random, &tun);
    assert_eq!(e.particles.len(), 3);
    assert_eq!(cmds.len(), 3);
    for p in &e.particles {
        // Spawned at the pointer; radius drawn from [5, 25] and already
        // shrunk once; alpha at least the normalized eight-bit 128,
        // faded once by 99/100.
        assert_eq!(p.pos_x, 600 * SCALE);
        assert_eq!(p.pos_y, 400 * SCALE);
        assert!(p.radius >= 5 * SCALE - 200_000 && p.radius <= 25 * SCALE - 200_000);
        assert!(p.color.a >= 501_960 * 99 / 100 && p.color.a <= SCALE * 99 / 100);
        assert!(p.color.r >= 0 && p.color.r <= SCALE);
        assert!(p.color.g >= 0 && p.color.g <= SCALE);
        assert!(p.color.b >= 0 && p.color.b <= SCALE);
        // Velocity is a direction of length at most one, scaled by at
        // most 200 units a second.
        assert!(p.vel_x.abs() <= 200 * SCALE && p.vel_y.abs() <= 200 * SCALE);
        assert!(p.vel_x != 0 || p.vel_y != 0);
    }
}

#[test]
fn largest_spawn_count_gives_eleven() {
    let mut e = Engine::new(5);
    let tun = tunables(200_000, 10, 5, false);
    e.advance(0, 1, 0, 0, Style::Random, &tun);
    assert_eq!(e.particles.len(), 11);
}

#[test]
fn trail_styles_force_spawn_count_to_one() {
    for style in [Style::TrailFade, Style::TrailGrow] {
        let mut e = Engine::new(5);
        let tun = tunables(200_000, 10, 5, false);
        e.advance(0, 1, 0, 0, style, &tun);
        assert_eq!(e.particles.len(), 2);
    }
}

#[test]
fn trail_fade_spawn_values() {
    let mut e = Engine::new(5);
    let tun = tunables(200_000, 10, 5, false);
    e.advance(0, 1, 50 * SCALE, 60 * SCALE, Style::TrailFade, &tun);
    for p in &e.particles {
        assert_eq!(p.pos_x, 50 * SCALE);
        assert_eq!(p.pos_y, 60 * SCALE);
        assert_eq!((p.vel_x, p.vel_y), (0, 0));
        // Magenta, faded once; radius 30, shrunk once.
        assert_eq!((p.color.r, p.color.g, p.color.b), (SCALE, 0, SCALE));
        assert_eq!(p.color.a, 990_000);
        assert_eq!(p.radius, 30 * SCALE - 200_000);
        assert_eq!(p.time_remaining, SCALE);
    }
}

#[test]
fn trail_grow_spawn_values() {
    let mut e = Engine::new(5);
    let tun = tunables(300_000, 10, 5, false);
    e.advance(0, 1, 0, 0, Style::TrailGrow, &tun);
    for p in &e.particles {
        assert_eq!((p.vel_x, p.vel_y), (0, 0));
        // Orange, faded once by 97/100; radius 5, grown once.
        assert_eq!((p.color.r, p.color.g, p.color.b), (SCALE, 630_000, 0));
        assert_eq!(p.color.a, 970_000);
        assert_eq!(p.radius, 5 * SCALE + 300_000);
    }
}

#[test]
fn star_spawn_values() {
    let mut e = Engine::new(5);
    let tun = tunables(200_000, 1, 5, false);
    e.advance(0, 1, 300 * SCALE, 200 * SCALE, Style::Stars, &tun);
    assert_eq!(e.particles.len(), 2);
    for p in &e.particles {
        // Born within 100 units of the pointer on each axis.
        assert!((p.pos_x - 300 * SCALE).abs() <= 100 * SCALE);
        assert!((p.pos_y - 200 * SCALE).abs() <= 100 * SCALE);
        // White, with the near-zero spawn alpha raised once by 0.01
        // (seven seconds left is above the brightening threshold).
        assert_eq!((p.color.r, p.color.g, p.color.b), (SCALE, SCALE, SCALE));
        assert_eq!(p.color.a, 3_921 + 10_000);
        assert_eq!(p.radius, 5 * SCALE);
        assert_eq!(p.time_remaining, 7 * SCALE);
        assert!(p.vel_x.abs() <= 50 * SCALE && p.vel_y.abs() <= 50 * SCALE);
    }
}

#[test]
fn throttled_stars_spawn_nothing_midway() {
    let mut e = Engine::new(4);
    let tun = tunables(200_000, 10, 4, true);
    e.advance(0, 1, 0, 0, Style::Stars, &tun);
    assert_eq!(e.particles.len(), 0);
    assert_eq!(e.throttle, 3);
    // Disabling the throttle restores the full spawn.
    let tun = tunables(200_000, 3, 4, false);
    e.advance(0, 1, 0, 0, Style::Stars, &tun);
    assert_eq!(e.particles.len(), 4);
    assert_eq!(e.throttle, 3);
}
