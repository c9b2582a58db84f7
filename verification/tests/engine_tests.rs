use balls::engine::Engine;
use balls::particle::{Particle, Rgba};
use balls::style::{Style, Tunables};

const SCALE: i64 = 1_000_000;

fn tunables(speed: i64, count: u32, period: u32, throttled: bool) -> Tunables {
    Tunables {
        disappear_speed: speed,
        spawn_count: count,
        star_throttle_period: period,
        throttle_enabled: throttled,
    }
}

fn plain_particle(radius: i64, alpha: i64, time_remaining: i64) -> Particle {
    Particle {
        pos_x: 0,
        pos_y: 0,
        vel_x: 0,
        vel_y: 0,
        color: Rgba { r: SCALE, g: SCALE, b: SCALE, a: alpha },
        radius,
        time_remaining,
    }
}

#[test]
fn new_engine_is_empty() {
    let e = Engine::new(5);
    assert_eq!(e.particles.len(), 0);
    assert_eq!(e.throttle, 5);
}

#[test]
fn no_movement_never_grows_any_style() {
    for style in [Style::Random, Style::TrailFade, Style::TrailGrow, Style::Stars] {
        let mut e = Engine::new(5);
        e.particles.push(plain_particle(20 * SCALE, 800_000, 5 * SCALE));
        e.particles.push(plain_particle(10 * SCALE, 600_000, 2 * SCALE));
        let tun = tunables(200_000, 10, 5, false);
        for _ in 0..10 {
            let before = e.particles.len();
            e.advance(16_666, 0, 0, 0, style, &tun);
            assert!(e.particles.len() <= before);
        }
    }
}

#[test]
fn removal_happens_before_update() {
    // Random: a particle at the radius floor goes; one above stays and
    // is then updated, even past the floor.
    let mut e = Engine::new(5);
    e.particles.push(plain_particle(SCALE, 500_000, SCALE));
    e.particles.push(plain_particle(3 * SCALE / 2, 500_000, SCALE));
    let tun = tunables(200_000, 1, 5, false);
    e.advance(16_666, 0, 0, 0, Style::Random, &tun);
    assert_eq!(e.particles.len(), 1);
    assert_eq!(e.particles[0].radius, 1_300_000);
}

#[test]
fn removal_per_style_predicate() {
    // TrailGrow removes by alpha, not by radius.
    let mut e = Engine::new(5);
    e.particles.push(plain_particle(SCALE / 2, 9_000, SCALE));
    e.particles.push(plain_particle(SCALE / 2, 11_000, SCALE));
    let tun = tunables(100_000, 1, 5, false);
    e.advance(16_666, 0, 0, 0, Style::TrailGrow, &tun);
    assert_eq!(e.particles.len(), 1);
    // Stars remove by remaining lifetime.
    let mut e = Engine::new(5);
    e.particles.push(plain_particle(5 * SCALE, 100_000, 0));
    e.particles.push(plain_particle(5 * SCALE, 100_000, SCALE));
    e.advance(16_666, 0, 0, 0, Style::Stars, &tun);
    assert_eq!(e.particles.len(), 1);
}

#[test]
fn random_decay_scenario() {
    // A radius-25, alpha-1 particle under Random at speed 0.2: the
    // radius loses exactly 0.2 per frame and survives 120 frames; the
    // alpha is scaled by 99/100 each frame.
    let mut e = Engine::new(5);
    e.particles.push(plain_particle(25 * SCALE, SCALE, SCALE));
    let tun = tunables(200_000, 1, 5, false);
    let mut expected_alpha: i64 = SCALE;
    for frame in 1..=120i64 {
        let before = e.particles[0].radius;
        e.advance(16_666, 0, 0, 0, Style::Random, &tun);
        assert_eq!(e.particles.len(), 1, "died early at frame {frame}");
        assert_eq!(e.particles[0].radius, before - 200_000);
        assert_eq!(e.particles[0].radius, 25 * SCALE - frame * 200_000);
        expected_alpha = expected_alpha * 99 / 100;
        assert_eq!(e.particles[0].color.a, expected_alpha);
    }
    assert_eq!(e.particles[0].radius, SCALE);
    // The next frame's removal phase sees radius at the floor.
    e.advance(16_666, 0, 0, 0, Style::Random, &tun);
    assert_eq!(e.particles.len(), 0);
}

#[test]
fn trail_fade_shrinks_in_place() {
    let mut e = Engine::new(5);
    let mut p = plain_particle(30 * SCALE, SCALE, SCALE);
    p.pos_x = 7 * SCALE;
    p.pos_y = -3 * SCALE;
    e.particles.push(p);
    let tun = tunables(700_000, 1, 5, false);
    e.advance(16_666, 0, 0, 0, Style::TrailFade, &tun);
    assert_eq!(e.particles[0].radius, 30 * SCALE - 700_000);
    assert_eq!(e.particles[0].color.a, 990_000);
    // No motion under TrailFade.
    assert_eq!(e.particles[0].pos_x, 7 * SCALE);
    assert_eq!(e.particles[0].pos_y, -3 * SCALE);
}

#[test]
fn style_switch_applies_current_rules() {
    // Particles born under Random, engine switched to TrailGrow: the
    // next frame grows the radius, fades alpha by 97/100 and removes by
    // the TrailGrow predicate.
    let mut e = Engine::new(5);
    e.particles.push(plain_particle(20 * SCALE, 800_000, SCALE));
    e.particles.push(plain_particle(20 * SCALE, 9_000, SCALE));
    let tun = tunables(200_000, 1, 5, false);
    e.advance(16_666, 0, 0, 0, Style::Random, &tun);
    assert_eq!(e.particles.len(), 2);
    e.advance(16_666, 0, 0, 0, Style::TrailGrow, &tun);
    // The low-alpha particle fell to TrailGrow's removal rule
    // (0.99-faded to 8_910, below the 0.01 floor).
    assert_eq!(e.particles.len(), 1);
    assert_eq!(e.particles[0].radius, 20 * SCALE - 200_000 + 200_000);
    assert_eq!(e.particles[0].color.a, 800_000 * 99 / 100 * 97 / 100);
}

#[test]
fn star_throttle_spawns_once_per_period() {
    let mut e = Engine::new(5);
    let tun = tunables(200_000, 10, 5, true);
    for frame in 1..=25usize {
        e.advance(16_666, 1, 0, 0, Style::Stars, &tun);
        assert_eq!(e.particles.len(), frame / 5, "wrong count at frame {frame}");
    }
}

#[test]
fn star_throttle_counter_resets() {
    let mut e = Engine::new(3);
    let tun = tunables(200_000, 10, 3, true);
    e.advance(16_666, 1, 0, 0, Style::Stars, &tun);
    assert_eq!(e.throttle, 2);
    e.advance(16_666, 1, 0, 0, Style::Stars, &tun);
    assert_eq!(e.throttle, 1);
    e.advance(16_666, 1, 0, 0, Style::Stars, &tun);
    assert_eq!(e.throttle, 3);
    assert_eq!(e.particles.len(), 1);
    // Unthrottled frames leave the counter alone.
    e.advance(16_666, 1, 0, 0, Style::Random, &tun);
    assert_eq!(e.throttle, 3);
}

#[test]
fn stars_alpha_rises_then_clamps_then_dims() {
    // The boundary scenario: a Star with the spawn alpha, stepped by a
    // tenth of a second. Above 5.5 seconds left it brightens by 0.01 a
    // frame; between 5.5 and 5.0 it holds; below 5.0 it dims by 0.005.
    let mut e = Engine::new(5);
    e.particles.push(plain_particle(5 * SCALE, 3_921, 7 * SCALE));
    let tun = tunables(200_000, 1, 5, false);
    for frame in 1..=71i64 {
        e.advance(100_000, 0, 0, 0, Style::Stars, &tun);
        if frame <= 70 {
            assert_eq!(e.particles.len(), 1, "died early at frame {frame}");
            let alpha = e.particles[0].color.a;
            assert_eq!(e.particles[0].time_remaining, 7 * SCALE - frame * 100_000);
            if frame <= 14 {
                assert_eq!(alpha, 3_921 + frame * 10_000);
            } else if frame <= 20 {
                assert_eq!(alpha, 143_921);
            } else if frame <= 48 {
                assert_eq!(alpha, 143_921 - (frame - 20) * 5_000);
            } else if frame == 49 {
                // The dimming crosses zero here (3_921 - 5_000).
                assert_eq!(alpha, -1_079);
            } else {
                // The clamp pulls the alpha back to zero each frame, so
                // it settles one dimming step below zero.
                assert_eq!(alpha, -5_000);
            }
            assert!(alpha <= SCALE / 2);
            assert!(alpha >= -5_000);
        } else {
            assert_eq!(e.particles.len(), 0);
        }
    }
}

#[test]
fn stars_alpha_clamped_at_cap() {
    let mut e = Engine::new(5);
    e.particles.push(plain_particle(5 * SCALE, 495_000, 7 * SCALE));
    let tun = tunables(200_000, 1, 5, false);
    e.advance(100_000, 0, 0, 0, Style::Stars, &tun);
    // 495_000 + 10_000 would pass the cap of one half: clamped.
    assert_eq!(e.particles[0].color.a, 500_000);
    e.advance(100_000, 0, 0, 0, Style::Stars, &tun);
    assert_eq!(e.particles[0].color.a, 500_000);
}

#[test]
fn stars_motion_follows_velocity() {
    let mut e = Engine::new(5);
    let mut p = plain_particle(5 * SCALE, 100_000, 7 * SCALE);
    p.vel_x = 40 * SCALE;
    p.vel_y = -20 * SCALE;
    e.particles.push(p);
    let tun = tunables(200_000, 1, 5, false);
    // A quarter second: position moves by velocity / 4.
    e.advance(250_000, 0, 0, 0, Style::Stars, &tun);
    assert_eq!(e.particles[0].pos_x, 10 * SCALE);
    assert_eq!(e.particles[0].pos_y, -5 * SCALE);
    assert_eq!(e.particles[0].time_remaining, 7 * SCALE - 250_000);
}
