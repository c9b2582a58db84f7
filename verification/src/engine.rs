//! The particle engine: it owns the live particles and the Star throttle
//! counter, and runs the spawn, removal, update and emit phases of each
//! frame.

use vstd::prelude::*;
use crate::num::{DT_MAX, PTR_MAX};
use crate::particle::{
    keeps, keeps_fn, spawn_shape, step_fn, step_particle, DrawCommand, Particle, ALPHA_FLOOR,
    RADIUS_FLOOR,
};
use crate::style::{Style, Tunables, SPEED_MAX, SPEED_MIN, THROTTLE_PERIOD_MAX};

verus! {

/// The nominal spawn count of one movement event: the configured count,
/// forced to one for the two trail styles.
pub open spec fn effective_count(style: Style, tun: Tunables) -> u32 {
    if style is TrailFade || style is TrailGrow {
        1
    } else {
        tun.spawn_count
    }
}

/// How many particles one frame spawns: none without movement; one more
/// than the nominal count on the unthrottled path; under Star throttling
/// exactly one on the frame the counter runs out, none otherwise.
pub open spec fn spawn_total(style: Style, tun: Tunables, movement: i64, throttle: u32) -> nat {
    if movement <= 0 {
        0
    } else if !(style is Stars) || !tun.throttle_enabled {
        (effective_count(style, tun) + 1) as nat
    } else if throttle == 1 {
        1
    } else {
        0
    }
}

/// The throttle counter after one frame: it counts down only on moving
/// frames under throttled Stars, and resets to the period when it runs
/// out.
pub open spec fn throttle_after(style: Style, tun: Tunables, movement: i64, throttle: u32) -> u32 {
    if movement > 0 && style is Stars && tun.throttle_enabled {
        if throttle == 1 {
            tun.star_throttle_period
        } else {
            (throttle - 1) as u32
        }
    } else {
        throttle
    }
}

/// Whether this frame's removal phase keeps `p`.
fn keeps_particle(style: Style, p: &Particle) -> (b: bool)
    ensures
        b == keeps(style, *p),
{
    match style {
        Style::Random | Style::TrailFade => p.radius > RADIUS_FLOOR,
        Style::TrailGrow => p.color.a > ALPHA_FLOOR,
        Style::Stars => p.time_remaining > 0,
    }
}

/// Spawn `n` particles under `style` at the pointer.
fn spawn_batch(n: u32, style: Style, px: i64, py: i64) -> (out: Vec<Particle>)
    requires
        -PTR_MAX <= px <= PTR_MAX,
        -PTR_MAX <= py <= PTR_MAX,
    ensures
        out@.len() == n,
        forall|i: int| 0 <= i < out@.len() ==> spawn_shape(style, px, py, #[trigger] out@[i]),
        forall|i: int| 0 <= i < out@.len() ==> (#[trigger] out@[i]).wf(),
{
    let mut out: Vec<Particle> = Vec::new();
    let mut i: u32 = 0;
    while i < n
        invariant
            i <= n,
            out@.len() == i,
            -PTR_MAX <= px <= PTR_MAX,
            -PTR_MAX <= py <= PTR_MAX,
            forall|j: int| 0 <= j < out@.len() ==> spawn_shape(style, px, py, #[trigger] out@[j]),
            forall|j: int| 0 <= j < out@.len() ==> (#[trigger] out@[j]).wf(),
        decreases n - i,
    {
        let p = Particle::new(style, px, py);
        out.push(p);
        i = i + 1;
    }
    out
}

/// The engine. The particle order is insertion order; it decides only
/// draw order.
pub struct Engine {
    /// The live particles.
    pub particles: Vec<Particle>,
    /// The Star throttle counter, counting down to the next throttled
    /// spawn.
    pub throttle: u32,
}

impl Engine {
    /// Every held particle is well-formed and the throttle counter is a
    /// live countdown value.
    pub open spec fn wf(self) -> bool {
        &&& forall|i: int|
            0 <= i < self.particles@.len() ==> (#[trigger] self.particles@[i]).wf()
        &&& 1 <= self.throttle <= THROTTLE_PERIOD_MAX
    }

    /// An engine with no particles, its throttle counter set to the
    /// configured period.
    pub fn new(star_throttle_period: u32) -> (e: Engine)
        requires
            1 <= star_throttle_period <= THROTTLE_PERIOD_MAX,
        ensures
            e.wf(),
            e.particles@.len() == 0,
            e.throttle == star_throttle_period,
    {
        Engine { particles: Vec::new(), throttle: star_throttle_period }
    }

    /// The removal phase: drop every particle that the current style's
    /// removal predicate condemns, keeping the order of the rest.
    fn retain_live(&mut self, style: Style)
        requires
            old(self).wf(),
        ensures
            final(self).particles@ == old(self).particles@.filter(keeps_fn(style)),
            final(self).throttle == old(self).throttle,
            final(self).wf(),
            forall|i: int|
                0 <= i < final(self).particles@.len() ==> keeps(
                    style,
                    #[trigger] final(self).particles@[i],
                ),
    {
        let ghost pre = self.particles@;
        let mut kept: Vec<Particle> = Vec::new();
        let n = self.particles.len();
        let mut i: usize = 0;
        while i < n
            invariant
                i <= n,
                n == pre.len(),
                self.particles@ == pre,
                forall|j: int| 0 <= j < pre.len() ==> (#[trigger] pre[j]).wf(),
                kept@ == pre.subrange(0, i as int).filter(keeps_fn(style)),
                forall|j: int|
                    0 <= j < kept@.len() ==> keeps(style, #[trigger] kept@[j]) && kept@[j].wf(),
            decreases n - i,
        {
            let p = self.particles[i];
            proof {
                assert(keeps_fn(style)(p) == keeps(style, p));
                assert(pre.subrange(0, i + 1 as int) =~= pre.subrange(0, i as int).push(
                    pre[i as int],
                ));
                pre.subrange(0, i as int).lemma_filter_push(pre[i as int], keeps_fn(style));
            }
            if keeps_particle(style, &p) {
                kept.push(p);
            }
            i = i + 1;
        }
        proof {
            assert(pre.subrange(0, n as int) =~= pre);
        }
        self.particles = kept;
    }

    /// The update phase: apply the current style's update rule to every
    /// surviving particle, in place.
    fn update_all(&mut self, style: Style, dt: i64, speed: i64)
        requires
            old(self).wf(),
            forall|i: int|
                0 <= i < old(self).particles@.len() ==> keeps(
                    style,
                    #[trigger] old(self).particles@[i],
                ),
            0 <= dt <= DT_MAX,
            SPEED_MIN <= speed <= SPEED_MAX,
        ensures
            final(self).particles@ == old(self).particles@.map_values(step_fn(style, dt, speed)),
            final(self).throttle == old(self).throttle,
            final(self).wf(),
    {
        let ghost pre = self.particles@;
        let mut updated: Vec<Particle> = Vec::new();
        let n = self.particles.len();
        let mut i: usize = 0;
        while i < n
            invariant
                i <= n,
                n == pre.len(),
                self.particles@ == pre,
                forall|j: int| 0 <= j < pre.len() ==> (#[trigger] pre[j]).wf(),
                forall|j: int| 0 <= j < pre.len() ==> keeps(style, #[trigger] pre[j]),
                0 <= dt <= DT_MAX,
                SPEED_MIN <= speed <= SPEED_MAX,
                updated@ == pre.subrange(0, i as int).map_values(step_fn(style, dt, speed)),
                forall|j: int| 0 <= j < updated@.len() ==> (#[trigger] updated@[j]).wf(),
            decreases n - i,
        {
            let p = self.particles[i];
            let q = step_particle(style, p, dt, speed);
            proof {
                assert(step_fn(style, dt, speed)(p) == q);
                assert(pre.subrange(0, i + 1 as int).map_values(step_fn(style, dt, speed))
                    =~= pre.subrange(0, i as int).map_values(step_fn(style, dt, speed)).push(q));
            }
            updated.push(q);
            i = i + 1;
        }
        proof {
            assert(pre.subrange(0, n as int) =~= pre);
        }
        self.particles = updated;
    }

    /// The emit phase: one draw command per live particle, in collection
    /// order.
    fn emit(&self) -> (cmds: Vec<DrawCommand>)
        ensures
            cmds@.len() == self.particles@.len(),
            forall|i: int|
                0 <= i < cmds@.len() ==> cmds@[i] == (#[trigger] self.particles@[i]).draw(),
    {
        let mut cmds: Vec<DrawCommand> = Vec::new();
        let n = self.particles.len();
        let mut i: usize = 0;
        while i < n
            invariant
                i <= n,
                n == self.particles@.len(),
                cmds@.len() == i,
                forall|j: int|
                    0 <= j < cmds@.len() ==> cmds@[j] == (#[trigger] self.particles@[j]).draw(),
            decreases n - i,
        {
            let p = &self.particles[i];
            cmds.push(DrawCommand { x: p.pos_x, y: p.pos_y, radius: p.radius, color: p.color });
            i = i + 1;
        }
        cmds
    }

    /// One frame: spawn on movement, then remove, then update, then emit.
    ///
    /// The final particles are exactly the old ones followed by the
    /// spawned ones, filtered by the current style's removal predicate
    /// and transformed by its update rule; the draw list mirrors them
    /// one for one. Without movement the particle count cannot grow.
    pub fn advance(
        &mut self,
        dt: i64,
        movement: i64,
        pointer_x: i64,
        pointer_y: i64,
        style: Style,
        tun: &Tunables,
    ) -> (cmds: Vec<DrawCommand>)
        requires
            old(self).wf(),
            tun.valid(),
            0 <= dt <= DT_MAX,
            0 <= movement,
            -PTR_MAX <= pointer_x <= PTR_MAX,
            -PTR_MAX <= pointer_y <= PTR_MAX,
        ensures
            final(self).wf(),
            final(self).throttle == throttle_after(style, *tun, movement, old(self).throttle),
            exists|sp: Seq<Particle>|
                #![trigger sp.len()]
                {
                    &&& sp.len() == spawn_total(style, *tun, movement, old(self).throttle)
                    &&& (forall|i: int|
                        0 <= i < sp.len() ==> spawn_shape(style, pointer_x, pointer_y, #[trigger] sp[i]))
                    &&& final(self).particles@ == (old(self).particles@ + sp).filter(
                        keeps_fn(style),
                    ).map_values(step_fn(style, dt, tun.disappear_speed))
                },
            movement == 0 ==> final(self).particles@.len() <= old(self).particles@.len(),
            final(self).particles@.len() <= old(self).particles@.len() + spawn_total(
                style,
                *tun,
                movement,
                old(self).throttle,
            ),
            cmds@.len() == final(self).particles@.len(),
            forall|i: int|
                0 <= i < cmds@.len() ==> cmds@[i] == (#[trigger] final(self).particles@[i]).draw(),
    {
        let ghost pre = self.particles@;
        let n: u32;
        if movement > 0 {
            let is_stars = match style {
                Style::Stars => true,
                _ => false,
            };
            if !(is_stars && tun.throttle_enabled) {
                let count: u32 = match style {
                    Style::TrailFade | Style::TrailGrow => 1,
                    _ => tun.spawn_count,
                };
                n = count + 1;
            } else if self.throttle == 1 {
                self.throttle = tun.star_throttle_period;
                n = 1;
            } else {
                self.throttle = self.throttle - 1;
                n = 0;
            }
        } else {
            n = 0;
        }
        assert(n as nat == spawn_total(style, *tun, movement, old(self).throttle));
        assert(self.throttle == throttle_after(style, *tun, movement, old(self).throttle));

        let mut spawned = spawn_batch(n, style, pointer_x, pointer_y);
        let ghost sp = spawned@;
        self.particles.append(&mut spawned);
        assert(self.particles@ == pre + sp);
        assert forall|i: int| 0 <= i < self.particles@.len() implies (
        #[trigger] self.particles@[i]).wf() by {
            if i < pre.len() {
                assert(self.particles@[i] == pre[i]);
            } else {
                assert(self.particles@[i] == sp[i - pre.len()]);
            }
        }

        self.retain_live(style);
        self.update_all(style, dt, tun.disappear_speed);

        proof {
            (pre + sp).lemma_filter_len(keeps_fn(style));
            if movement == 0 {
                assert(sp.len() == 0);
                assert(pre + sp =~= pre);
                pre.lemma_filter_len(keeps_fn(style));
            }
        }
        self.emit()
    }
}

} // verus!
