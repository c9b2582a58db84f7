//! Frame-to-frame laws of the engine, stated over the same spec
//! functions as the engine's contracts and proved for all inputs.

use vstd::prelude::*;
use crate::engine::{spawn_total, throttle_after};
use crate::num::{decay_spec, DT_MAX, RADIUS_MAX};
use crate::particle::{
    keeps, keeps_fn, step, step_fn, Particle, FADE_KEEP, GROW_KEEP, STAR_ALPHA_CAP,
    STAR_ALPHA_DOWN, STAR_TIME_LO,
};
use crate::style::{Style, Tunables};

verus! {

/// Removal correctness: every particle that survives a removal phase
/// fails its style's removal predicate at that moment — the filtered
/// collection contains only particles the predicate keeps.
pub proof fn lemma_removal_correct(s: Seq<Particle>, style: Style)
    ensures
        forall|i: int|
            0 <= i < s.filter(keeps_fn(style)).len() ==> keeps(
                style,
                #[trigger] s.filter(keeps_fn(style))[i],
            ),
{
    broadcast use vstd::seq_lib::group_filter_ensures;

    assert forall|i: int| 0 <= i < s.filter(keeps_fn(style)).len() implies keeps(
        style,
        #[trigger] s.filter(keeps_fn(style))[i],
    ) by {
        assert(keeps_fn(style)(s.filter(keeps_fn(style))[i]));
    }
}

/// After a full frame, every remaining particle is the current style's
/// update of a particle that passed this frame's removal predicate —
/// position `i` of the frame's output is the update of position `i` of
/// the filtered input. The update itself may push a particle past the
/// predicate; the next frame then removes it.
pub proof fn lemma_post_frame_particles(
    s: Seq<Particle>,
    style: Style,
    dt: i64,
    speed: i64,
    out: Seq<Particle>,
)
    requires
        out == s.filter(keeps_fn(style)).map_values(step_fn(style, dt, speed)),
    ensures
        out.len() == s.filter(keeps_fn(style)).len(),
        forall|i: int|
            0 <= i < out.len() ==> keeps(style, #[trigger] s.filter(keeps_fn(style))[i]),
        forall|i: int|
            0 <= i < out.len() ==> #[trigger] out[i] == step(
                style,
                s.filter(keeps_fn(style))[i],
                dt,
                speed,
            ),
{
    lemma_removal_correct(s, style);
    let kept = s.filter(keeps_fn(style));
    assert forall|i: int| 0 <= i < out.len() implies #[trigger] out[i] == step(
        style,
        s.filter(keeps_fn(style))[i],
        dt,
        speed,
    ) by {
        assert(out[i] == step_fn(style, dt, speed)(kept[i]));
    }
}

/// Monotonic decay: with a positive decay step, Random and TrailFade
/// shrink a particle's radius by exactly the step, so strictly; TrailGrow
/// grows it by exactly the step (strictly, until the radius cap) and
/// scales its alpha by exactly 97/100, strictly down while it is
/// positive. Random and TrailFade scale alpha by exactly 99/100.
pub proof fn lemma_monotonic_decay(p: Particle, dt: i64, speed: i64)
    requires
        p.wf(),
        0 < speed,
    ensures
        step(Style::Random, p, dt, speed).radius == p.radius - speed,
        step(Style::Random, p, dt, speed).radius < p.radius,
        step(Style::TrailFade, p, dt, speed).radius == p.radius - speed,
        step(Style::TrailFade, p, dt, speed).radius < p.radius,
        p.radius + speed <= RADIUS_MAX ==> step(Style::TrailGrow, p, dt, speed).radius == p.radius
            + speed > p.radius,
        step(Style::TrailGrow, p, dt, speed).color.a == decay_spec(
            p.color.a as int,
            GROW_KEEP as int,
        ),
        0 < p.color.a ==> step(Style::TrailGrow, p, dt, speed).color.a < p.color.a,
        step(Style::Random, p, dt, speed).color.a == decay_spec(p.color.a as int, FADE_KEEP as int),
        step(Style::TrailFade, p, dt, speed).color.a == decay_spec(
            p.color.a as int,
            FADE_KEEP as int,
        ),
        0 < p.color.a ==> step(Style::Random, p, dt, speed).color.a < p.color.a,
{
    if 0 < p.color.a {
        assert(p.color.a * 97 / 100 < p.color.a) by (nonlinear_arith)
            requires 0 < p.color.a;
        assert(p.color.a * 99 / 100 < p.color.a) by (nonlinear_arith)
            requires 0 < p.color.a;
    }
}

/// Alpha clamp for Stars: one update leaves alpha at most the cap of one
/// half, and at least zero until the particle has entered its dimming
/// phase (below that, one dimming step under zero is reachable).
pub proof fn lemma_star_alpha_clamped(p: Particle, dt: i64, speed: i64)
    requires
        p.wf(),
        0 <= dt <= DT_MAX,
    ensures
        -STAR_ALPHA_DOWN <= step(Style::Stars, p, dt, speed).color.a <= STAR_ALPHA_CAP,
        step(Style::Stars, p, dt, speed).time_remaining >= STAR_TIME_LO ==> 0 <= step(
            Style::Stars,
            p,
            dt,
            speed,
        ).color.a,
{
}

/// The spawn count of the frames of a window, each with the same style,
/// tunables and movement, chained through the throttle counter.
pub open spec fn spawns_within(
    style: Style,
    tun: Tunables,
    movement: i64,
    throttle: u32,
    frames: nat,
) -> nat
    decreases frames,
{
    if frames == 0 {
        0
    } else {
        spawn_total(style, tun, movement, throttle) + spawns_within(
            style,
            tun,
            movement,
            throttle_after(style, tun, movement, throttle),
            (frames - 1) as nat,
        )
    }
}

proof fn lemma_throttle_window(style: Style, tun: Tunables, movement: i64, throttle: u32, k: nat)
    requires
        style is Stars,
        tun.valid(),
        tun.throttle_enabled,
        movement > 0,
        1 <= throttle <= tun.star_throttle_period,
        k <= tun.star_throttle_period,
    ensures
        spawns_within(style, tun, movement, throttle, k) == if throttle as nat <= k {
            1nat
        } else {
            0nat
        },
    decreases k,
{
    if k > 0 {
        if throttle == 1 {
            lemma_throttle_window(style, tun, movement, tun.star_throttle_period, (k - 1) as nat);
        } else {
            lemma_throttle_window(style, tun, movement, (throttle - 1) as u32, (k - 1) as nat);
        }
    }
}

/// Throttle fidelity: under throttled Stars with movement every frame,
/// no frame spawns more than one particle, and any window of exactly the
/// throttle period, starting anywhere in the countdown, spawns exactly
/// one.
pub proof fn lemma_throttle_period(style: Style, tun: Tunables, movement: i64, throttle: u32)
    requires
        style is Stars,
        tun.valid(),
        tun.throttle_enabled,
        movement > 0,
        1 <= throttle <= tun.star_throttle_period,
    ensures
        spawns_within(style, tun, movement, throttle, tun.star_throttle_period as nat) == 1,
        forall|c: u32| spawn_total(style, tun, movement, c) <= 1,
{
    lemma_throttle_window(style, tun, movement, throttle, tun.star_throttle_period as nat);
}

/// Spawn gating: a frame without movement spawns nothing, whatever the
/// style, the tunables and the throttle counter.
pub proof fn lemma_spawn_gating(style: Style, tun: Tunables, throttle: u32)
    ensures
        spawn_total(style, tun, 0, throttle) == 0,
        throttle_after(style, tun, 0, throttle) == throttle,
{
}

} // verus!
