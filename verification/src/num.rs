//! Fixed-point arithmetic: every scalar of the engine (coordinates,
//! radii, color channels, seconds) is an `i64` counting `SCALE`-ths of
//! a unit. The helpers here keep all executable division on
//! non-negative operands, where Rust's truncating division and the
//! mathematical (Euclidean) division agree.

use vstd::prelude::*;

verus! {

/// Sub-units per unit: `SCALE` stands for 1.0.
pub const SCALE: i64 = 1_000_000;

/// Largest frame time the engine accepts (ten seconds).
pub const DT_MAX: i64 = 10_000_000;

/// Coordinates are kept within `[-POS_MAX, POS_MAX]`.
pub const POS_MAX: i64 = 1_000_000_000_000;

/// Radii are kept within `[0, RADIUS_MAX]`.
pub const RADIUS_MAX: i64 = 1_000_000_000_000;

/// Velocity components stay within `[-VEL_MAX, VEL_MAX]`.
pub const VEL_MAX: i64 = 1_000_000_000;

/// Pointer coordinates the engine accepts.
pub const PTR_MAX: i64 = 100_000_000_000;

pub open spec fn clip_spec(v: int, lo: int, hi: int) -> int {
    if v < lo {
        lo
    } else if v > hi {
        hi
    } else {
        v
    }
}

/// Clamp `v` into `[lo, hi]`.
pub fn clip(v: i64, lo: i64, hi: i64) -> (r: i64)
    requires
        lo <= hi,
    ensures
        r == clip_spec(v as int, lo as int, hi as int),
{
    if v < lo {
        lo
    } else if v > hi {
        hi
    } else {
        v
    }
}

/// Truncating (round-toward-zero) quotient of `a * b / d`: what Rust's
/// integer `/` computes, for either sign of `a`.
pub open spec fn mul_div_spec(a: int, b: int, d: int) -> int {
    if a >= 0 {
        a * b / d
    } else {
        -((-a) * b / d)
    }
}

/// Largest per-frame position change: `VEL_MAX * DT_MAX / SCALE`.
pub const DELTA_MAX: i64 = 10_000_000_000;

/// `a * b / SCALE` with truncation toward zero; `b` and the divisor are
/// non-negative, so the executable division runs on non-negative values.
pub fn scale_mul(a: i64, b: i64) -> (r: i64)
    requires
        -VEL_MAX <= a <= VEL_MAX,
        0 <= b <= DT_MAX,
    ensures
        r == mul_div_spec(a as int, b as int, SCALE as int),
        -DELTA_MAX <= r <= DELTA_MAX,
{
    proof {
        lemma_mul_div_bound(
            a as int,
            b as int,
            SCALE as int,
            VEL_MAX as int,
            DT_MAX as int,
            DELTA_MAX as int,
        );
    }
    if a >= 0 {
        ((a as u64 * b as u64) / SCALE as u64) as i64
    } else {
        let neg: i64 = -a;
        -(((neg as u64 * b as u64) / SCALE as u64) as i64)
    }
}

/// `|a| <= m`, `0 <= b <= c` and `m * c <= q * d` keep the truncating
/// quotient of `a * b / d` within `[-q, q]`.
proof fn lemma_mul_div_bound(a: int, b: int, d: int, m: int, c: int, q: int)
    requires
        -m <= a <= m,
        0 <= b <= c,
        0 < d,
        0 <= m,
        0 <= q,
        m * c <= q * d,
    ensures
        -q <= mul_div_spec(a, b, d) <= q,
        a >= 0 ==> 0 <= mul_div_spec(a, b, d),
        a < 0 ==> mul_div_spec(a, b, d) <= 0,
{
    if a >= 0 {
        assert(a * b <= m * c) by (nonlinear_arith)
            requires 0 <= a <= m && 0 <= b <= c;
        assert(a * b >= 0) by (nonlinear_arith)
            requires 0 <= a && 0 <= b;
        assert(a * b / d <= q) by (nonlinear_arith)
            requires a * b <= q * d && 0 < d && 0 <= q && 0 <= a * b;
        assert(a * b / d >= 0) by (nonlinear_arith)
            requires 0 <= a * b && 0 < d;
    } else {
        let n = -a;
        assert(n * b <= m * c) by (nonlinear_arith)
            requires 0 <= n <= m && 0 <= b <= c;
        assert(n * b >= 0) by (nonlinear_arith)
            requires 0 <= n && 0 <= b;
        assert(n * b / d <= q) by (nonlinear_arith)
            requires n * b <= q * d && 0 < d && 0 <= q && 0 <= n * b;
        assert(n * b / d >= 0) by (nonlinear_arith)
            requires 0 <= n * b && 0 < d;
    }
}

/// Truncating `a * num / 100`, the fixed-point form of scaling `a` by a
/// fade factor of `num` hundredths.
pub open spec fn decay_spec(a: int, num: int) -> int {
    if a >= 0 {
        a * num / 100
    } else {
        -((-a) * num / 100)
    }
}

/// Scale `a` by `num / 100`, truncating toward zero. The result never
/// grows in magnitude and never changes sign.
pub fn decay(a: i64, num: i64) -> (r: i64)
    requires
        -4 * SCALE <= a <= 4 * SCALE,
        0 <= num <= 100,
    ensures
        r == decay_spec(a as int, num as int),
        a >= 0 ==> 0 <= r <= a,
        a < 0 ==> a <= r <= 0,
{
    proof {
        lemma_decay_bound(a as int, num as int);
    }
    if a >= 0 {
        ((a as u64 * num as u64) / 100) as i64
    } else {
        let neg: i64 = -a;
        -(((neg as u64 * num as u64) / 100) as i64)
    }
}

proof fn lemma_decay_bound(a: int, num: int)
    requires
        0 <= num <= 100,
    ensures
        a >= 0 ==> 0 <= decay_spec(a, num) <= a,
        a < 0 ==> a <= decay_spec(a, num) <= 0,
{
    if a >= 0 {
        assert(0 <= a * num <= a * 100) by (nonlinear_arith)
            requires 0 <= a && 0 <= num <= 100;
        assert(0 <= a * num / 100 <= a) by (nonlinear_arith)
            requires 0 <= a * num <= a * 100 && 0 <= a;
    } else {
        let n = -a;
        assert(0 <= n * num <= n * 100) by (nonlinear_arith)
            requires 0 <= n && 0 <= num <= 100;
        assert(0 <= n * num / 100 <= n) by (nonlinear_arith)
            requires 0 <= n * num <= n * 100 && 0 <= n;
    }
}

/// Map an eight-bit channel value to its fixed-point fraction of one,
/// `v * SCALE / 255`, as `Color::from_rgba` does with `v / 255.0`.
pub fn channel_value(v: i64) -> (r: i64)
    requires
        0 <= v <= 255,
    ensures
        r == v * SCALE / 255,
        0 <= r <= SCALE,
{
    proof {
        assert(0 <= v * SCALE <= 255 * SCALE) by (nonlinear_arith)
            requires 0 <= v <= 255;
        assert(v * SCALE / 255 <= 255 * SCALE / 255) by (nonlinear_arith)
            requires v * SCALE <= 255 * SCALE;
    }
    ((v as u64 * SCALE as u64) / 255) as i64
}

/// Truncating `a * b / d` for `|a| <= d`: scaling a component of a
/// vector by `b / d` keeps it within `[-b, b]`.
pub fn div_scaled(a: i64, b: i64, d: i64) -> (r: i64)
    requires
        -d <= a <= d,
        0 < d <= 2_000_000,
        0 <= b <= 1_000_000_000,
    ensures
        r == mul_div_spec(a as int, b as int, d as int),
        -b <= r <= b,
{
    proof {
        lemma_mul_div_bound(a as int, b as int, d as int, d as int, b as int, b as int);
        assert(-2_000_000_000_000_000 <= a * b <= 2_000_000_000_000_000) by (nonlinear_arith)
            requires -2_000_000 <= a <= 2_000_000 && 0 <= b <= 1_000_000_000;
    }
    if a >= 0 {
        ((a as u64 * b as u64) / d as u64) as i64
    } else {
        let neg: i64 = -a;
        proof {
            assert(0 <= neg * b <= 2_000_000_000_000_000) by (nonlinear_arith)
                requires 0 <= neg <= 2_000_000 && 0 <= b <= 1_000_000_000;
        }
        -(((neg as u64 * b as u64) / d as u64) as i64)
    }
}

/// Integer square root: the greatest `r` with `r * r <= n`.
pub fn isqrt(n: u64) -> (r: u64)
    requires
        n <= 8_000_000_000_000,
    ensures
        r * r <= n < (r + 1) * (r + 1),
        r <= 3_000_000,
{
    let mut r: u64 = 0;
    while (r + 1) * (r + 1) <= n
        invariant
            r * r <= n,
            n <= 8_000_000_000_000,
            r <= 3_000_000,
            r <= n,
            (r + 1) * (r + 1) <= 18_000_000_000_000,
        decreases n - r,
    {
        r = r + 1;
        proof {
            assert(r <= 3_000_000 && r <= n && (r + 1) * (r + 1) <= 18_000_000_000_000)
                by (nonlinear_arith)
                requires
                    r * r <= n,
                    n <= 8_000_000_000_000,
                    1 <= r,
            ;
        }
    }
    r
}

} // verus!
