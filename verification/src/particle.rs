//! Particles, their per-style spawn values, and the per-style update and
//! removal rules applied to every live particle each frame.

use vstd::prelude::*;
use crate::num::{
    clip, clip_spec, decay, decay_spec, div_scaled, channel_value, isqrt, mul_div_spec,
    scale_mul, DT_MAX, POS_MAX, PTR_MAX, RADIUS_MAX, SCALE, VEL_MAX,
};
use crate::rng::gen_range_i64;
use crate::style::{Style, SPEED_MAX, SPEED_MIN};

verus! {

/// A color with each channel a fixed-point fraction of one: `SCALE`
/// stands for a full channel. Only the alpha channel is ever updated.
#[derive(Clone, Copy, Debug, PartialEq, Eq, Structural)]
pub struct Rgba {
    pub r: i64,
    pub g: i64,
    pub b: i64,
    pub a: i64,
}

/// One live particle: a disc with a position, a velocity in units per
/// second, a color, a radius, and a remaining lifetime in seconds that
/// only the Stars rules read.
#[derive(Clone, Copy, Debug, PartialEq, Eq, Structural)]
pub struct Particle {
    pub pos_x: i64,
    pub pos_y: i64,
    pub vel_x: i64,
    pub vel_y: i64,
    pub color: Rgba,
    pub radius: i64,
    pub time_remaining: i64,
}

/// One filled-circle draw command, the engine's only output.
#[derive(Clone, Copy, Debug, PartialEq, Eq, Structural)]
pub struct DrawCommand {
    pub x: i64,
    pub y: i64,
    pub radius: i64,
    pub color: Rgba,
}

/// Random and TrailFade remove a particle once its radius is one unit
/// or less.
pub const RADIUS_FLOOR: i64 = SCALE;

/// TrailGrow removes a particle once its alpha is 0.01 or less.
pub const ALPHA_FLOOR: i64 = 10_000;

/// Above this remaining lifetime a Star still brightens.
pub const STAR_TIME_HI: i64 = 5_500_000;

/// Below this remaining lifetime a Star dims.
pub const STAR_TIME_LO: i64 = 5_000_000;

/// Per-frame alpha gain of a young Star (0.01).
pub const STAR_ALPHA_UP: i64 = 10_000;

/// Per-frame alpha loss of an old Star (0.005).
pub const STAR_ALPHA_DOWN: i64 = 5_000;

/// A Star's alpha is clamped to at most one half.
pub const STAR_ALPHA_CAP: i64 = 500_000;

/// Hundredths kept per frame by the Random and TrailFade fade (x 0.99).
pub const FADE_KEEP: i64 = 99;

/// Hundredths kept per frame by the TrailGrow fade (x 0.97).
pub const GROW_KEEP: i64 = 97;

/// Smallest spawned Random radius (5 units).
pub const RANDOM_RADIUS_MIN: i64 = 5 * SCALE;

/// Largest spawned Random radius (25 units).
pub const RANDOM_RADIUS_MAX: i64 = 25 * SCALE;

/// Smallest spawned speed (1 unit per second).
pub const MAG_MIN: i64 = SCALE;

/// Largest spawned Random speed (200 units per second).
pub const RANDOM_MAG_MAX: i64 = 200 * SCALE;

/// Largest spawned Star speed (50 units per second).
pub const STAR_MAG_MAX: i64 = 50 * SCALE;

/// Smallest spawned Random alpha: the eight-bit value 128, normalized
/// (`128 * SCALE / 255`, truncated).
pub const RANDOM_ALPHA_MIN: i64 = 501_960;

/// A Star spawns within this offset of the pointer on each axis.
pub const STAR_OFFSET: i64 = 100 * SCALE;

/// A Star's spawn alpha: the eight-bit value 1, normalized
/// (`SCALE / 255`, truncated).
pub const STAR_ALPHA_START: i64 = 3_921;

/// A Star lives seven seconds.
pub const STAR_LIFETIME: i64 = 7 * SCALE;

/// Lifetime written by styles whose removal rule never reads it.
pub const PLACEHOLDER_LIFETIME: i64 = SCALE;

/// Spawned TrailFade radius (30 units).
pub const TRAIL_FADE_RADIUS: i64 = 30 * SCALE;

/// Spawned TrailGrow radius (5 units).
pub const TRAIL_GROW_RADIUS: i64 = 5 * SCALE;

/// The saturated magenta of TrailFade particles.
pub open spec fn magenta() -> Rgba {
    Rgba { r: SCALE, g: 0, b: SCALE, a: SCALE }
}

/// The green channel of the TrailGrow orange (0.63).
pub const ORANGE_G: i64 = 630_000;

/// The saturated orange of TrailGrow particles (1.0, 0.63, 0.0).
pub open spec fn orange() -> Rgba {
    Rgba { r: SCALE, g: ORANGE_G, b: 0, a: SCALE }
}

/// The near-invisible white of a newborn Star.
pub open spec fn star_white() -> Rgba {
    Rgba { r: SCALE, g: SCALE, b: SCALE, a: STAR_ALPHA_START }
}

impl Particle {
    /// Bounds that every particle the engine holds satisfies: they keep
    /// each frame's arithmetic within `i64`.
    pub open spec fn wf(self) -> bool {
        &&& -POS_MAX <= self.pos_x <= POS_MAX
        &&& -POS_MAX <= self.pos_y <= POS_MAX
        &&& -VEL_MAX <= self.vel_x <= VEL_MAX
        &&& -VEL_MAX <= self.vel_y <= VEL_MAX
        &&& 0 <= self.radius <= RADIUS_MAX
        &&& 0 <= self.color.r <= SCALE
        &&& 0 <= self.color.g <= SCALE
        &&& 0 <= self.color.b <= SCALE
        &&& -STAR_ALPHA_DOWN <= self.color.a <= SCALE
        &&& -DT_MAX <= self.time_remaining <= STAR_LIFETIME
    }

    /// The draw command a particle is emitted as.
    pub open spec fn draw(self) -> DrawCommand {
        DrawCommand { x: self.pos_x, y: self.pos_y, radius: self.radius, color: self.color }
    }
}

/// The removal predicate, negated: whether the current style's removal
/// phase keeps the particle.
pub open spec fn keeps(style: Style, p: Particle) -> bool {
    match style {
        Style::Random | Style::TrailFade => p.radius > RADIUS_FLOOR,
        Style::TrailGrow => p.color.a > ALPHA_FLOOR,
        Style::Stars => p.time_remaining > 0,
    }
}

/// `keeps` as a function value, so that every contract names the same
/// predicate term.
pub open spec fn keeps_fn(style: Style) -> spec_fn(Particle) -> bool {
    |p: Particle| keeps(style, p)
}

/// A position advanced by one frame of a velocity component, clamped to
/// the coordinate range.
pub open spec fn stepped_pos(pos: i64, vel: i64, dt: i64) -> i64 {
    clip_spec(
        pos + mul_div_spec(vel as int, dt as int, SCALE as int),
        -POS_MAX as int,
        POS_MAX as int,
    ) as i64
}

/// The current style's per-frame update of one surviving particle.
pub open spec fn step(style: Style, p: Particle, dt: i64, speed: i64) -> Particle {
    match style {
        Style::Random => Particle {
            pos_x: stepped_pos(p.pos_x, p.vel_x, dt),
            pos_y: stepped_pos(p.pos_y, p.vel_y, dt),
            radius: (p.radius - speed) as i64,
            color: Rgba { a: decay_spec(p.color.a as int, FADE_KEEP as int) as i64, ..p.color },
            ..p
        },
        Style::TrailFade => Particle {
            radius: (p.radius - speed) as i64,
            color: Rgba { a: decay_spec(p.color.a as int, FADE_KEEP as int) as i64, ..p.color },
            ..p
        },
        Style::TrailGrow => Particle {
            radius: clip_spec(p.radius + speed, 0, RADIUS_MAX as int) as i64,
            color: Rgba { a: decay_spec(p.color.a as int, GROW_KEEP as int) as i64, ..p.color },
            ..p
        },
        Style::Stars => {
            let time = p.time_remaining - dt;
            let raised = if time > STAR_TIME_HI {
                p.color.a + STAR_ALPHA_UP
            } else {
                p.color.a as int
            };
            let clamped = clip_spec(raised, 0, STAR_ALPHA_CAP as int);
            let lowered = if time < STAR_TIME_LO {
                clamped - STAR_ALPHA_DOWN
            } else {
                clamped
            };
            Particle {
                pos_x: stepped_pos(p.pos_x, p.vel_x, dt),
                pos_y: stepped_pos(p.pos_y, p.vel_y, dt),
                color: Rgba { a: lowered as i64, ..p.color },
                time_remaining: time as i64,
                ..p
            }
        },
    }
}

/// `step` as a function value, so that every contract names the same
/// transform term.
pub open spec fn step_fn(style: Style, dt: i64, speed: i64) -> spec_fn(Particle) -> Particle {
    |p: Particle| step(style, p, dt, speed)
}

/// A velocity built from a random direction `(dx, dy)` normalized by the
/// integer square root `len` of its squared length and scaled by `mag`;
/// a zero-length direction falls back to the unit direction (1, 0).
pub open spec fn dir_scaled(dx: int, dy: int, len: int, mag: int, vx: int, vy: int) -> bool {
    &&& -SCALE <= dx <= SCALE
    &&& -SCALE <= dy <= SCALE
    &&& 0 <= len
    &&& len * len <= dx * dx + dy * dy < (len + 1) * (len + 1)
    &&& if len == 0 {
        vx == mag && vy == 0
    } else {
        vx == mul_div_spec(dx, mag, len) && vy == mul_div_spec(dy, mag, len)
    }
}

/// What a spawned velocity is: some random direction scaled by some
/// random magnitude in `[mag_lo, mag_hi]`.
pub open spec fn spawned_vel(vx: int, vy: int, mag_lo: int, mag_hi: int) -> bool {
    exists|dx: int, dy: int, len: int, mag: int|
        mag_lo <= mag <= mag_hi && #[trigger] dir_scaled(dx, dy, len, mag, vx, vy)
}

/// The spawn rule: what `Particle::new` guarantees of a particle born
/// under `style` at pointer position `(px, py)`.
pub open spec fn spawn_shape(style: Style, px: i64, py: i64, p: Particle) -> bool {
    match style {
        Style::Random => {
            &&& p.pos_x == px
            &&& p.pos_y == py
            &&& spawned_vel(p.vel_x as int, p.vel_y as int, MAG_MIN as int, RANDOM_MAG_MAX as int)
            &&& 0 <= p.color.r <= SCALE
            &&& 0 <= p.color.g <= SCALE
            &&& 0 <= p.color.b <= SCALE
            &&& RANDOM_ALPHA_MIN <= p.color.a <= SCALE
            &&& RANDOM_RADIUS_MIN <= p.radius <= RANDOM_RADIUS_MAX
            &&& p.time_remaining == PLACEHOLDER_LIFETIME
        },
        Style::TrailFade => {
            &&& p.pos_x == px
            &&& p.pos_y == py
            &&& p.vel_x == 0
            &&& p.vel_y == 0
            &&& p.color == magenta()
            &&& p.radius == TRAIL_FADE_RADIUS
            &&& p.time_remaining == PLACEHOLDER_LIFETIME
        },
        Style::TrailGrow => {
            &&& p.pos_x == px
            &&& p.pos_y == py
            &&& p.vel_x == 0
            &&& p.vel_y == 0
            &&& p.color == orange()
            &&& p.radius == TRAIL_GROW_RADIUS
            &&& p.time_remaining == PLACEHOLDER_LIFETIME
        },
        Style::Stars => {
            &&& px - STAR_OFFSET <= p.pos_x <= px + STAR_OFFSET
            &&& py - STAR_OFFSET <= p.pos_y <= py + STAR_OFFSET
            &&& spawned_vel(p.vel_x as int, p.vel_y as int, MAG_MIN as int, STAR_MAG_MAX as int)
            &&& p.color == star_white()
            &&& p.radius == TRAIL_GROW_RADIUS
            &&& p.time_remaining == STAR_LIFETIME
        },
    }
}

/// A random direction scaled by a random magnitude in `[mag_lo, mag_hi]`.
fn random_velocity(mag_lo: i64, mag_hi: i64) -> (v: (i64, i64))
    requires
        SCALE <= mag_lo < mag_hi <= RANDOM_MAG_MAX,
    ensures
        spawned_vel(v.0 as int, v.1 as int, mag_lo as int, mag_hi as int),
        -mag_hi <= v.0 <= mag_hi,
        -mag_hi <= v.1 <= mag_hi,
{
    let dx = gen_range_i64(-SCALE, SCALE);
    let dy = gen_range_i64(-SCALE, SCALE);
    let mag = gen_range_i64(mag_lo, mag_hi);
    proof {
        assert(0 <= dx * dx <= 1_000_000_000_000 && 0 <= dy * dy <= 1_000_000_000_000)
            by (nonlinear_arith)
            requires -SCALE <= dx <= SCALE && -SCALE <= dy <= SCALE;
    }
    let sq = (dx * dx + dy * dy) as u64;
    let len64 = isqrt(sq);
    let len = len64 as i64;
    if len == 0 {
        let v = (mag, 0i64);
        proof {
            assert(dir_scaled(dx as int, dy as int, 0, mag as int, v.0 as int, v.1 as int));
        }
        v
    } else {
        proof {
            assert(len * len <= 2_000_000_000_000 ==> len <= 1_500_000) by (nonlinear_arith);
            assert(dx * dx <= sq && dy * dy <= sq) by (nonlinear_arith)
                requires sq == dx * dx + dy * dy;
            assert(-len <= dx <= len && -len <= dy <= len) by (nonlinear_arith)
                requires
                    dx * dx < (len + 1) * (len + 1),
                    dy * dy < (len + 1) * (len + 1),
                    0 < len,
            ;
        }
        let vx = div_scaled(dx, mag, len);
        let vy = div_scaled(dy, mag, len);
        let v = (vx, vy);
        proof {
            assert(dir_scaled(dx as int, dy as int, len as int, mag as int, v.0 as int, v.1 as int));
        }
        v
    }
}

impl Particle {
    /// Spawn one particle under `style` at the pointer. Every randomized
    /// field is drawn fresh; the contract states the ranges and fixed
    /// values of the style's spawn rule.
    pub fn new(style: Style, pointer_x: i64, pointer_y: i64) -> (p: Particle)
        requires
            -PTR_MAX <= pointer_x <= PTR_MAX,
            -PTR_MAX <= pointer_y <= PTR_MAX,
        ensures
            spawn_shape(style, pointer_x, pointer_y, p),
            p.wf(),
    {
        match style {
            Style::Random => {
                let (vel_x, vel_y) = random_velocity(MAG_MIN, RANDOM_MAG_MAX);
                let r8 = gen_range_i64(0, 255);
                let g8 = gen_range_i64(0, 255);
                let b8 = gen_range_i64(0, 255);
                let a8 = gen_range_i64(128, 255);
                let radius = gen_range_i64(RANDOM_RADIUS_MIN, RANDOM_RADIUS_MAX);
                let alpha = channel_value(a8);
                proof {
                    assert(128 * (SCALE as int) / 255 <= a8 * (SCALE as int) / 255)
                        by (nonlinear_arith)
                        requires 128 <= a8;
                }
                Particle {
                    pos_x: pointer_x,
                    pos_y: pointer_y,
                    vel_x,
                    vel_y,
                    color: Rgba {
                        r: channel_value(r8),
                        g: channel_value(g8),
                        b: channel_value(b8),
                        a: alpha,
                    },
                    radius,
                    time_remaining: PLACEHOLDER_LIFETIME,
                }
            },
            Style::TrailFade => Particle {
                pos_x: pointer_x,
                pos_y: pointer_y,
                vel_x: 0,
                vel_y: 0,
                color: Rgba { r: SCALE, g: 0, b: SCALE, a: SCALE },
                radius: TRAIL_FADE_RADIUS,
                time_remaining: PLACEHOLDER_LIFETIME,
            },
            Style::TrailGrow => Particle {
                pos_x: pointer_x,
                pos_y: pointer_y,
                vel_x: 0,
                vel_y: 0,
                color: Rgba { r: SCALE, g: ORANGE_G, b: 0, a: SCALE },
                radius: TRAIL_GROW_RADIUS,
                time_remaining: PLACEHOLDER_LIFETIME,
            },
            Style::Stars => {
                let off_x = gen_range_i64(-STAR_OFFSET, STAR_OFFSET);
                let off_y = gen_range_i64(-STAR_OFFSET, STAR_OFFSET);
                let (vel_x, vel_y) = random_velocity(MAG_MIN, STAR_MAG_MAX);
                Particle {
                    pos_x: pointer_x + off_x,
                    pos_y: pointer_y + off_y,
                    vel_x,
                    vel_y,
                    color: Rgba { r: SCALE, g: SCALE, b: SCALE, a: STAR_ALPHA_START },
                    radius: TRAIL_GROW_RADIUS,
                    time_remaining: STAR_LIFETIME,
                }
            },
        }
    }
}

/// Apply the current style's update rule to one particle that survived
/// this frame's removal phase.
pub fn step_particle(style: Style, p: Particle, dt: i64, speed: i64) -> (q: Particle)
    requires
        p.wf(),
        keeps(style, p),
        0 <= dt <= DT_MAX,
        SPEED_MIN <= speed <= SPEED_MAX,
    ensures
        q == step(style, p, dt, speed),
        q.wf(),
{
    match style {
        Style::Random => {
            let delta_x = scale_mul(p.vel_x, dt);
            let delta_y = scale_mul(p.vel_y, dt);
            Particle {
                pos_x: clip(p.pos_x + delta_x, -POS_MAX, POS_MAX),
                pos_y: clip(p.pos_y + delta_y, -POS_MAX, POS_MAX),
                radius: p.radius - speed,
                color: Rgba { a: decay(p.color.a, FADE_KEEP), ..p.color },
                ..p
            }
        },
        Style::TrailFade => Particle {
            radius: p.radius - speed,
            color: Rgba { a: decay(p.color.a, FADE_KEEP), ..p.color },
            ..p
        },
        Style::TrailGrow => Particle {
            radius: clip(p.radius + speed, 0, RADIUS_MAX),
            color: Rgba { a: decay(p.color.a, GROW_KEEP), ..p.color },
            ..p
        },
        Style::Stars => {
            let delta_x = scale_mul(p.vel_x, dt);
            let delta_y = scale_mul(p.vel_y, dt);
            let time = p.time_remaining - dt;
            let raised = if time > STAR_TIME_HI {
                p.color.a + STAR_ALPHA_UP
            } else {
                p.color.a
            };
            let clamped = clip(raised, 0, STAR_ALPHA_CAP);
            let lowered = if time < STAR_TIME_LO {
                clamped - STAR_ALPHA_DOWN
            } else {
                clamped
            };
            Particle {
                pos_x: clip(p.pos_x + delta_x, -POS_MAX, POS_MAX),
                pos_y: clip(p.pos_y + delta_y, -POS_MAX, POS_MAX),
                color: Rgba { a: lowered, ..p.color },
                time_remaining: time,
                ..p
            }
        },
    }
}

} // verus!
