//! The four particle styles and the user-tunable parameters that the
//! control panel hands to the engine each frame.

use vstd::prelude::*;

verus! {

/// One of the four fixed particle behaviours. The engine dispatches the
/// spawn, update and removal rules of every frame on the style that is
/// current on that frame, whatever style a particle was born under.
#[derive(Clone, Copy, Debug, PartialEq, Eq, Structural)]
pub enum Style {
    /// Discs at the pointer that fly off in a random direction, shrink
    /// and fade.
    Random,
    /// A vanishing trail: magenta discs that shrink and fade in place.
    TrailFade,
    /// An exploding trail: orange discs that grow while they fade.
    TrailGrow,
    /// Faint white discs near the pointer that drift, brighten and die
    /// after a fixed lifetime.
    Stars,
}

/// Slowest radius/alpha decay step the panel offers (0.1 per frame).
pub const SPEED_MIN: i64 = 100_000;

/// Fastest radius/alpha decay step the panel offers (0.7 per frame).
pub const SPEED_MAX: i64 = 700_000;

/// Most particles one movement event may ask for.
pub const SPAWN_COUNT_MAX: u32 = 10;

/// Longest throttle period the panel offers, in frames.
pub const THROTTLE_PERIOD_MAX: u32 = 10;

/// The scalar parameters read by the engine each frame. The control
/// panel pins each to its range; the engine requires the same ranges.
#[derive(Clone, Copy, Debug, PartialEq, Eq, Structural)]
pub struct Tunables {
    /// Per-frame radius/alpha step for Random, TrailFade and TrailGrow,
    /// in `SCALE`-ths of a unit.
    pub disappear_speed: i64,
    /// Nominal number of particles per movement event; one more than
    /// this is actually spawned.
    pub spawn_count: u32,
    /// Frames between Star spawns while throttling is enabled.
    pub star_throttle_period: u32,
    /// Whether Star spawning is throttled; meaningless for other styles.
    pub throttle_enabled: bool,
}

impl Tunables {
    /// The ranges the control panel enforces.
    pub open spec fn valid(self) -> bool {
        &&& SPEED_MIN <= self.disappear_speed <= SPEED_MAX
        &&& 1 <= self.spawn_count <= SPAWN_COUNT_MAX
        &&& 1 <= self.star_throttle_period <= THROTTLE_PERIOD_MAX
    }
}

} // verus!
