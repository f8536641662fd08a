//! Deterministic fixed-point scalar arithmetic.
//!
//! Every quantity in this crate is a signed 64-bit integer counting
//! micro-units: the value 1.0 is `SCALE` = 1 000 000.  All operations round
//! toward negative infinity, so results are identical on every platform, which
//! is what lets a CPU physics query and an independently written GPU
//! transcription of the same formulas agree.

use vstd::prelude::*;

verus! {

/// Number of micro-units in 1.0.
pub const SCALE: i64 = 1_000_000;

/// The half turn, pi, in micro-units.
pub const PI_FX: i64 = 3_141_593;

/// The full turn, 2*pi, in micro-units.  Kept as exactly `2 * PI_FX` so the
/// two half-waves of the sine approximation have the same width.
pub const TAU_FX: i64 = 6_283_186;

/// A quarter turn, pi/2, in micro-units.
pub const HALF_PI_FX: i64 = 1_570_796;

/// Divisor of the sine parabola, chosen so that the peak of
/// `4*y*(PI_FX - y)` over the integers, which is `PI_FX*PI_FX - 1`, maps to
/// exactly `SCALE`.
pub const SIN_DENOM: i64 = 9_869_606;

/// Clamp an integer into `[lo, hi]`.
pub open spec fn iclamp(x: int, lo: int, hi: int) -> int {
    if x < lo {
        lo
    } else if x > hi {
        hi
    } else {
        x
    }
}

/// Magnitude of an integer.
pub open spec fn iabs(x: int) -> int {
    if x < 0 {
        -x
    } else {
        x
    }
}

/// What the fixed-point multiply returns: the product scaled back down,
/// rounded toward negative infinity.
pub open spec fn spec_mul_fx(a: int, b: int) -> int {
    (a * b) / (SCALE as int)
}

/// Fixed-point multiply.  The intermediate product is exact in 128 bits; the
/// caller only has to know that the scaled-down result fits in 64 bits.
pub fn mul_fx(a: i64, b: i64) -> (r: i64)
    requires
        -0x7fff_ffff_ffff_ffff * (SCALE as int) <= a * b <= 0x7fff_ffff_ffff_ffff * (
        SCALE as int),
    ensures
        r == spec_mul_fx(a as int, b as int),
{
    let p: i128 = (a as i128) * (b as i128);
    let s: i128 = SCALE as i128;
    if p >= 0 {
        (p / s) as i64
    } else {
        let m: i128 = -p;
        -((m + (s - 1)) / s) as i64
    }
}

/// Floor division by a positive divisor.
pub fn fdiv(a: i64, d: i64) -> (r: i64)
    requires
        d > 0,
    ensures
        r == a as int / d as int,
{
    if a >= 0 {
        a / d
    } else {
        let m: i128 = -(a as i128);
        let dw: i128 = d as i128;
        let q0: i128 = m / dw;
        let r0: i128 = m % dw;
        let q: i128 = if r0 == 0 {
            -q0
        } else {
            -q0 - 1
        };
        proof {
            vstd::arithmetic::div_mod::lemma_fundamental_div_mod(m as int, dw as int);
            assert((-q0) * dw == -(dw * q0) && (-q0 - 1) * dw + (dw - r0) == -(dw * q0
                + r0)) by (nonlinear_arith);
            if r0 == 0 {
                vstd::arithmetic::div_mod::lemma_fundamental_div_mod_converse(
                    a as int,
                    d as int,
                    -q0 as int,
                    0,
                );
            } else {
                vstd::arithmetic::div_mod::lemma_fundamental_div_mod_converse(
                    a as int,
                    d as int,
                    (-q0 - 1) as int,
                    (dw - r0) as int,
                );
            }
            assert(q0 * dw >= q0) by (nonlinear_arith)
                requires
                    dw >= 1,
                    q0 >= 0,
            ;
        }
        q as i64
    }
}

/// The fractional part of a fixed-point value: `x - floor(x)`, always in
/// `[0, 1)`.
pub open spec fn spec_fract(x: int) -> int {
    x % (SCALE as int)
}

/// Fractional part, as the `fract` of the shader language computes it:
/// `x - floor(x)`.
pub fn fract(x: i64) -> (r: i64)
    ensures
        r == spec_fract(x as int),
        0 <= r < SCALE,
{
    let m: i64 = x % SCALE;
    if m < 0 {
        m + SCALE
    } else {
        m
    }
}

/// The whole (lattice) part of a fixed-point value, in whole units:
/// `floor(x)`.
pub open spec fn spec_floor_units(x: int) -> int {
    x / (SCALE as int)
}

/// Whole part of a fixed-point value, counted in whole units rather than
/// micro-units.
pub fn floor_units(x: i64) -> (r: i64)
    ensures
        r == spec_floor_units(x as int),
{
    let f = fract(x);
    ((x as i128 - f as i128) / (SCALE as i128)) as i64
}

/// Linear interpolation `x*(1-a) + y*a`, with `a` a fixed-point weight.
pub open spec fn spec_mix(x: int, y: int, a: int) -> int {
    spec_mul_fx(x, SCALE as int - a) + spec_mul_fx(y, a)
}

/// Linear interpolation between `x` and `y` by the weight `a` in `[0, 1]`.
/// Exact at both endpoints: weight 0 returns `x`, weight 1 returns `y`.
pub fn mix(x: i64, y: i64, a: i64) -> (r: i64)
    requires
        0 <= a <= SCALE,
        -4_000_000_000_000 <= x <= 4_000_000_000_000,
        -4_000_000_000_000 <= y <= 4_000_000_000_000,
    ensures
        r == spec_mix(x as int, y as int, a as int),
        a == 0 ==> r == x,
        a == SCALE ==> r == y,
{
    proof {
        lemma_mul_fx_in(x as int, SCALE - a, 4_000_000_000_000, SCALE as int);
        lemma_mul_fx_in(y as int, a as int, 4_000_000_000_000, SCALE as int);
    }
    let xs = mul_fx(x, SCALE - a);
    let ys = mul_fx(y, a);
    proof {
        if a == 0 {
            assert(x * (SCALE - 0) / (SCALE as int) == x) by (nonlinear_arith)
                requires
                    SCALE == 1_000_000,
            ;
            assert(y * 0 == 0) by (nonlinear_arith);
        }
        if a == SCALE {
            assert(y * (SCALE as int) / (SCALE as int) == y) by (nonlinear_arith)
                requires
                    SCALE == 1_000_000,
            ;
            assert(x * 0 == 0) by (nonlinear_arith);
        }
    }
    xs + ys
}

/// The rising smoothstep on edges `e0 < e1`: the Hermite cubic
/// `t*t*(3 - 2*t)` of the clamped normalized position `t`.
pub open spec fn spec_smoothstep_up(e0: int, e1: int, x: int) -> int {
    let t = iclamp((x - e0) * (SCALE as int) / (e1 - e0), 0, SCALE as int);
    t * t * (3 * (SCALE as int) - 2 * t) / ((SCALE as int) * (SCALE as int))
}

/// The clamped cubic smoothstep.  Falling edges (`e0 > e1`) mirror the rising
/// curve, which is the identity `smoothstep(e1, e0, x) == 1 - smoothstep(e0,
/// e1, x)` of the real-valued function, taken here as the definition.
pub open spec fn spec_smoothstep(e0: int, e1: int, x: int) -> int {
    if e0 < e1 {
        spec_smoothstep_up(e0, e1, x)
    } else {
        SCALE - spec_smoothstep_up(e1, e0, x)
    }
}

/// The Hermite cubic of a clamped weight stays within `[0, 1]`.
proof fn lemma_hermite_cubic_range(t: int)
    requires
        0 <= t <= SCALE,
    ensures
        0 <= t * t <= (SCALE as int) * (SCALE as int),
        0 <= t * t * (3 * (SCALE as int) - 2 * t) <= (SCALE as int) * (SCALE as int) * (
        SCALE as int),
        0 <= t * t * (3 * (SCALE as int) - 2 * t) / ((SCALE as int) * (SCALE as int))
            <= SCALE as int,
{
    let s = SCALE as int;
    assert(0 <= t * t <= s * s && 0 <= t * t * (3 * s - 2 * t) && s * s * s - t * t * (3 * s - 2
        * t) == (s - t) * (s - t) * (s + 2 * t) && (s - t) * (s - t) * (s + 2 * t)
        >= 0) by (nonlinear_arith)
        requires
            0 <= t <= s,
    ;
    assert(0 <= t * t * (3 * s - 2 * t) / (s * s) <= s) by (nonlinear_arith)
        requires
            0 <= t * t * (3 * s - 2 * t) <= s * s * s,
            s == 1_000_000,
    ;
}

/// Standard clamped cubic smoothstep between the edges `e0` and `e1`.
pub fn smoothstep(e0: i64, e1: i64, x: i64) -> (r: i64)
    requires
        e0 != e1,
        -10_000_000 <= e0 <= 10_000_000,
        -10_000_000 <= e1 <= 10_000_000,
        -10_000_000 <= x <= 10_000_000,
    ensures
        r == spec_smoothstep(e0 as int, e1 as int, x as int),
        0 <= r <= SCALE,
{
    if e0 < e1 {
        smoothstep_up(e0, e1, x)
    } else {
        SCALE - smoothstep_up(e1, e0, x)
    }
}

/// The rising-edge core of `smoothstep`.
fn smoothstep_up(e0: i64, e1: i64, x: i64) -> (r: i64)
    requires
        e0 < e1,
        -10_000_000 <= e0 <= 10_000_000,
        -10_000_000 <= e1 <= 10_000_000,
        -10_000_000 <= x <= 10_000_000,
    ensures
        r == spec_smoothstep_up(e0 as int, e1 as int, x as int),
        0 <= r <= SCALE,
{
    let t0 = fdiv((x - e0) * SCALE, e1 - e0);
    let t = if t0 < 0 {
        0
    } else if t0 > SCALE {
        SCALE
    } else {
        t0
    };
    proof {
        lemma_hermite_cubic_range(t as int);
    }
    let tt = t * t;
    let cubic = tt * (3 * SCALE - 2 * t);
    cubic / (SCALE * SCALE)
}

/// The unit smoothstep is exact at its edges: 0 maps to 0 and 1 maps to 1.
pub proof fn lemma_smoothstep_unit_edges()
    ensures
        spec_smoothstep(0, SCALE as int, 0) == 0,
        spec_smoothstep(0, SCALE as int, SCALE as int) == SCALE,
{
    let s = SCALE as int;
    assert(0 * s / s == 0 && s * s / s == s && 0 * 0 * (3 * s - 2 * 0) == 0 && s * s * (3 * s - 2
        * s) == s * s * s && s * s * s / (s * s) == s && 0int / (s * s) == 0) by (nonlinear_arith)
        requires
            s == 1_000_000,
    ;
}

/// The unit smoothstep never decreases: on `0 <= x1 <= x2 <= 1` the curve at
/// `x1` lies at or below the curve at `x2`.
pub proof fn lemma_smoothstep_unit_monotone(x1: int, x2: int)
    requires
        0 <= x1 <= x2 <= SCALE,
    ensures
        spec_smoothstep(0, SCALE as int, x1) <= spec_smoothstep(0, SCALE as int, x2),
{
    let s = SCALE as int;
    assert(x1 * s / s == x1 && x2 * s / s == x2) by (nonlinear_arith)
        requires
            s == 1_000_000,
    ;
    assert(x1 * x1 * (3 * s - 2 * x1) <= x2 * x2 * (3 * s - 2 * x2)) by (nonlinear_arith)
        requires
            0 <= x1 <= x2 <= s,
    ;
    vstd::arithmetic::div_mod::lemma_div_is_ordered(
        x1 * x1 * (3 * s - 2 * x1),
        x2 * x2 * (3 * s - 2 * x2),
        s * s,
    );
}

/// What the sine approximation returns on `[0, pi)`: the parabola
/// `4*y*(pi - y) / pi^2`, scaled so its integer peak is exactly 1.
pub open spec fn spec_sin_arch(y: int) -> int {
    4 * y * (PI_FX - y) / (SIN_DENOM as int)
}

/// The deterministic sine: the argument reduced into `[0, 2*pi)`, a positive
/// parabola arch on the first half turn and its negated mirror on the second.
pub open spec fn spec_sin(x: int) -> int {
    let r = x % (TAU_FX as int);
    if r < PI_FX {
        spec_sin_arch(r)
    } else {
        -spec_sin_arch(r - PI_FX)
    }
}

/// The deterministic cosine: the sine a quarter turn ahead.
pub open spec fn spec_cos(x: int) -> int {
    spec_sin(x + HALF_PI_FX)
}

/// One arch of the parabola stays within `[0, 1]`; the peak over the integer
/// grid is `PI_FX*PI_FX - 1`, which `SIN_DENOM` maps to exactly `SCALE`.
proof fn lemma_sin_arch_range(y: int)
    requires
        0 <= y < PI_FX,
    ensures
        0 <= 4 * y * (PI_FX - y) <= 9_869_606_577_648,
        0 <= spec_sin_arch(y) <= SCALE,
{
    let k = PI_FX - 2 * y;
    assert(k % 2 == 1) by {
        assert(PI_FX == 2 * 1_570_796 + 1);
    }
    assert(k != 0);
    assert(4 * y * (PI_FX - y) == PI_FX * PI_FX - k * k && k * k >= 1 && 0 <= 4 * y * (PI_FX
        - y)) by (nonlinear_arith)
        requires
            k == PI_FX - 2 * y,
            k != 0,
            0 <= y < PI_FX,
    ;
    assert(PI_FX * PI_FX - 1 == 9_869_606_577_648) by (nonlinear_arith)
        requires
            PI_FX == 3_141_593,
    ;
    assert(0 <= 4 * y * (PI_FX - y) / (SIN_DENOM as int) <= SCALE) by (nonlinear_arith)
        requires
            0 <= 4 * y * (PI_FX - y) <= 9_869_606_577_648,
            SIN_DENOM == 9_869_606,
            SCALE == 1_000_000,
    ;
}

/// Sine of a fixed-point angle in radians; always within `[-1, 1]`.
pub fn sin_fx(x: i64) -> (r: i64)
    requires
        -8_000_000_000_000_000_000 <= x <= 8_000_000_000_000_000_000,
    ensures
        r == spec_sin(x as int),
        -SCALE <= r <= SCALE,
{
    let m: i64 = x % TAU_FX;
    let red: i64 = if m < 0 {
        m + TAU_FX
    } else {
        m
    };
    let y: i64 = if red < PI_FX {
        red
    } else {
        red - PI_FX
    };
    proof {
        lemma_sin_arch_range(y as int);
    }
    let arch = (4 * y * (PI_FX - y)) / SIN_DENOM;
    if red < PI_FX {
        arch
    } else {
        -arch
    }
}

/// Cosine of a fixed-point angle in radians; always within `[-1, 1]`.
pub fn cos_fx(x: i64) -> (r: i64)
    requires
        -4_000_000_000_000_000_000 <= x <= 4_000_000_000_000_000_000,
    ensures
        r == spec_cos(x as int),
        -SCALE <= r <= SCALE,
{
    sin_fx(x + HALF_PI_FX)
}

/// Magnitude of a fixed-point value.
pub fn abs_fx(x: i64) -> (r: i64)
    requires
        x > i64::MIN,
    ensures
        r == iabs(x as int),
{
    if x < 0 {
        -x
    } else {
        x
    }
}

/// The integer square root, defined by counting up: the greatest `r` with
/// `r * r <= n` (and 0 for negative arguments).
pub open spec fn spec_isqrt(n: int) -> int
    decreases n,
{
    if n < 1 {
        0
    } else {
        let below = spec_isqrt(n - 1);
        if (below + 1) * (below + 1) <= n {
            below + 1
        } else {
            below
        }
    }
}

/// The defining property of the integer square root.
pub proof fn lemma_isqrt_props(n: int)
    requires
        n >= 0,
    ensures
        0 <= spec_isqrt(n),
        spec_isqrt(n) * spec_isqrt(n) <= n,
        n < (spec_isqrt(n) + 1) * (spec_isqrt(n) + 1),
    decreases n,
{
    if n == 0 {
        assert(spec_isqrt(0) == 0);
    } else {
        lemma_isqrt_props(n - 1);
        let below = spec_isqrt(n - 1);
        if (below + 1) * (below + 1) <= n {
            assert(n - 1 < (below + 1) * (below + 1));
            assert(n < (below + 2) * (below + 2)) by (nonlinear_arith)
                requires
                    n <= (below + 1) * (below + 1),
                    below >= 0,
            ;
        }
    }
}

/// Any value whose square brackets `n` is the integer square root of `n`.
pub proof fn lemma_isqrt_unique(n: int, r: int)
    requires
        0 <= r,
        r * r <= n,
        n < (r + 1) * (r + 1),
    ensures
        r == spec_isqrt(n),
{
    lemma_isqrt_props(n);
    let q = spec_isqrt(n);
    assert(q == r) by (nonlinear_arith)
        requires
            0 <= r,
            0 <= q,
            r * r <= n < (r + 1) * (r + 1),
            q * q <= n < (q + 1) * (q + 1),
    ;
}

/// Integer square root of a 64-bit value, by bisection.
pub fn isqrt64(n: u64) -> (r: u64)
    ensures
        r == spec_isqrt(n as int),
        r * r <= n,
        n < (r + 1) * (r + 1),
        r < 4_294_967_296,
{
    let mut lo: u64 = 0;
    let mut hi: u64 = 4_294_967_296;
    proof {
        assert((4_294_967_296 as int) * (4_294_967_296 as int) > u64::MAX as int) by (nonlinear_arith);
    }
    while lo + 1 < hi
        invariant
            lo < hi <= 4_294_967_296,
            (lo as int) * (lo as int) <= n as int,
            (n as int) < (hi as int) * (hi as int),
        decreases hi - lo,
    {
        let mid = lo + (hi - lo) / 2;
        proof {
            assert((mid as int) * (mid as int) <= 0x1_0000_0000_0000_0000) by (nonlinear_arith)
                requires
                    0 <= mid <= 4_294_967_296,
            ;
        }
        if (mid as u128) * (mid as u128) <= n as u128 {
            lo = mid;
        } else {
            hi = mid;
        }
    }
    proof {
        lemma_isqrt_unique(n as int, lo as int);
    }
    lo
}

/// Integer square root of a wider value, by bisection; enough range for the
/// squared length of a surface normal before normalization.
pub fn isqrt128(n: u128) -> (r: u64)
    requires
        n < 121_000_000_000_000_000_000,
    ensures
        r == spec_isqrt(n as int),
        r * r <= n,
        (n as int) < (r as int + 1) * (r as int + 1),
        r < 11_000_000_000,
{
    let mut lo: u64 = 0;
    let mut hi: u64 = 11_000_000_000;
    proof {
        assert((11_000_000_000 as int) * (11_000_000_000 as int)
            >= 121_000_000_000_000_000_000) by (nonlinear_arith);
    }
    while lo + 1 < hi
        invariant
            lo < hi <= 11_000_000_000,
            (lo as int) * (lo as int) <= n as int,
            (n as int) < (hi as int) * (hi as int),
        decreases hi - lo,
    {
        let mid = lo + (hi - lo) / 2;
        proof {
            assert((mid as int) * (mid as int) < 0x1_0000_0000_0000_0000_0000) by (nonlinear_arith)
                requires
                    0 <= mid <= 11_000_000_000,
            ;
        }
        if (mid as u128) * (mid as u128) <= n {
            lo = mid;
        } else {
            hi = mid;
        }
    }
    proof {
        lemma_isqrt_unique(n as int, lo as int);
        assert((lo as int) * (lo as int) <= n as int);
    }
    lo
}

/// A linear interpolation of values from `[-hi, hi]` by a weight in `[0, 1]`
/// stays within `[-hi - 2, hi]`: the two weights are complementary, so the
/// terms cannot both be extreme, and flooring costs at most one unit per term.
pub proof fn lemma_mix_range_signed(x: int, y: int, a: int, hi: int)
    requires
        -hi <= x <= hi,
        -hi <= y <= hi,
        0 <= a <= SCALE,
        0 <= hi <= 4_000_000_000_000,
    ensures
        -hi - 2 <= spec_mix(x, y, a) <= hi,
{
    let s = SCALE as int;
    assert(-hi * s <= x * (s - a) + y * a <= hi * s) by (nonlinear_arith)
        requires
            -hi <= x <= hi,
            -hi <= y <= hi,
            0 <= a <= s,
    ;
    assert(-hi - 2 <= x * (s - a) / s + y * a / s <= hi) by (nonlinear_arith)
        requires
            -hi * s <= x * (s - a) + y * a <= hi * s,
            s == 1_000_000,
            0 <= hi,
    ;
}

/// The scaled-down product of two values bounded by `ba` and `bb` lies within
/// the scaled-down bound, up to the one unit lost to flooring.
pub proof fn lemma_mul_fx_in(a: int, b: int, ba: int, bb: int)
    requires
        iabs(a) <= ba,
        iabs(b) <= bb,
    ensures
        -(ba * bb) <= a * b <= ba * bb,
        -(ba * bb) / (SCALE as int) - 1 <= spec_mul_fx(a, b) <= (ba * bb) / (SCALE as int),
{
    assert(-(ba * bb) <= a * b <= ba * bb) by (nonlinear_arith)
        requires
            iabs(a) <= ba,
            iabs(b) <= bb,
    ;
    assert(-(ba * bb) / (SCALE as int) - 1 <= (a * b) / (SCALE as int) <= (ba * bb) / (
    SCALE as int)) by (nonlinear_arith)
        requires
            -(ba * bb) <= a * b <= ba * bb,
            SCALE == 1_000_000,
    ;
}

} // verus!
