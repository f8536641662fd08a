//! Small fixed-point vector types used by the wave field, and the integer
//! normalization that keeps wave directions unit length.

use vstd::prelude::*;

use crate::fixed::{fdiv, iabs, isqrt128, isqrt64, lemma_isqrt_props, spec_isqrt, SCALE};

verus! {

/// A 2-component fixed-point vector (micro-units per component).
#[derive(Clone, Copy, PartialEq, Eq, Structural, Debug)]
pub struct Vec2Fx {
    pub x: i64,
    pub y: i64,
}

/// A 3-component fixed-point vector (micro-units per component); `y` is up.
#[derive(Clone, Copy, PartialEq, Eq, Structural, Debug)]
pub struct Vec3Fx {
    pub x: i64,
    pub y: i64,
    pub z: i64,
}

/// Both components within `b` micro-units of zero.
pub open spec fn vec2_bounded(v: Vec2Fx, b: int) -> bool {
    -b <= v.x <= b && -b <= v.y <= b
}

impl Vec2Fx {
    /// Build a vector from its components.
    pub fn new(x: i64, y: i64) -> (r: Vec2Fx)
        ensures
            r == (Vec2Fx { x, y }),
    {
        Vec2Fx { x, y }
    }
}

impl Vec3Fx {
    /// Build a vector from its components.
    pub fn new(x: i64, y: i64, z: i64) -> (r: Vec3Fx)
        ensures
            r == (Vec3Fx { x, y, z }),
    {
        Vec3Fx { x, y, z }
    }
}

/// Tolerance on the squared length of a normalized direction: integer
/// normalization lands within 9 millionths of exactly unit length.
pub const UNIT_TOL: i64 = 9_000_000;

/// Below this squared length a vector counts as zero for normalization: a
/// direction shorter than half a unit carries no usable direction information
/// on the integer grid.
pub const NORM_MIN_SQ: i64 = 250_000_000_000;

/// Largest component magnitude accepted by `normalize_or_zero`.
pub const NORM_IN_LIM: i64 = 2_000_000_000;

/// The squared length of a 2-d vector.
pub open spec fn spec_sq_len(x: int, y: int) -> int {
    x * x + y * y
}

/// First component of the normalized direction; the zero vector (and anything
/// within the dead band around it) normalizes to zero.
pub open spec fn spec_norm_x(x: int, y: int) -> int {
    if spec_sq_len(x, y) < NORM_MIN_SQ {
        0
    } else {
        x * (SCALE as int) / spec_isqrt(spec_sq_len(x, y))
    }
}

/// Second component of the normalized direction.
pub open spec fn spec_norm_y(x: int, y: int) -> int {
    if spec_sq_len(x, y) < NORM_MIN_SQ {
        0
    } else {
        y * (SCALE as int) / spec_isqrt(spec_sq_len(x, y))
    }
}

/// A well-formed direction: the zero vector, or unit length up to the
/// normalization tolerance, with both components within `[-1, 1]`.
pub open spec fn is_unit_or_zero(v: Vec2Fx) -> bool {
    ||| (v.x == 0 && v.y == 0)
    ||| (-(SCALE as int) <= v.x <= SCALE as int && -(SCALE as int) <= v.y <= SCALE as int
        && (SCALE as int) * (SCALE as int) - UNIT_TOL <= spec_sq_len(v.x as int, v.y as int)
        <= (SCALE as int) * (SCALE as int) + UNIT_TOL)
}

/// Integer normalization of a vector at least half a unit long stays within
/// `UNIT_TOL` of unit squared length, with components within `[-1, 1]`.
proof fn lemma_norm_unit(x: int, y: int)
    requires
        NORM_MIN_SQ <= spec_sq_len(x, y) <= 0x7000_0000_0000_0000_0000,
    ensures
        ({
            let s = SCALE as int;
            let len = spec_isqrt(spec_sq_len(x, y));
            let nx = x * s / len;
            let ny = y * s / len;
            -s <= nx <= s && -s <= ny <= s && s * s - UNIT_TOL <= nx * nx + ny * ny <= s * s
                + UNIT_TOL
        }),
{
    let s = SCALE as int;
    let sq = spec_sq_len(x, y);
    lemma_isqrt_props(sq);
    let len = spec_isqrt(sq);
    assert((len + 1) * (len + 1) == len * len + 2 * len + 1) by (nonlinear_arith);
    assert(len * len <= sq <= len * len + 2 * len);
    assert(len >= 500_000) by (nonlinear_arith)
        requires
            len >= 0,
            sq >= 250_000_000_000,
            sq < (len + 1) * (len + 1),
    ;
    assert(-len <= x <= len && -len <= y <= len) by (nonlinear_arith)
        requires
            sq == x * x + y * y,
            sq < (len + 1) * (len + 1),
            0 <= len,
    ;
    let nx = x * s / len;
    let ny = y * s / len;
    let ex = (x * s) % len;
    let ey = (y * s) % len;
    vstd::arithmetic::div_mod::lemma_fundamental_div_mod(x * s, len);
    vstd::arithmetic::div_mod::lemma_fundamental_div_mod(y * s, len);
    vstd::arithmetic::div_mod::lemma_mod_bound(x * s, len);
    vstd::arithmetic::div_mod::lemma_mod_bound(y * s, len);
    assert(len * nx == x * s - ex && len * ny == y * s - ey);
    assert(-s <= nx <= s && -s <= ny <= s) by (nonlinear_arith)
        requires
            len * nx == x * s - ex,
            len * ny == y * s - ey,
            0 <= ex < len,
            0 <= ey < len,
            -len <= x <= len,
            -len <= y <= len,
            500_000 <= len,
            s == 1_000_000,
    ;
    assert(x * x * (s * s) - 2 * s * (len * len) <= (len * nx) * (len * nx) <= x * x * (s * s) + 2
        * s * (len * len) + len * len) by (nonlinear_arith)
        requires
            len * nx == x * s - ex,
            0 <= ex < len,
            -len <= x <= len,
            0 < len,
            0 < s,
    ;
    assert(y * y * (s * s) - 2 * s * (len * len) <= (len * ny) * (len * ny) <= y * y * (s * s) + 2
        * s * (len * len) + len * len) by (nonlinear_arith)
        requires
            len * ny == y * s - ey,
            0 <= ey < len,
            -len <= y <= len,
            0 < len,
            0 < s,
    ;
    assert((len * nx) * (len * nx) + (len * ny) * (len * ny) == (len * len) * (nx * nx + ny
        * ny)) by (nonlinear_arith);
    assert((len * len) * (s * s - 9 * s) <= sq * (s * s) - 4 * s * (len * len) && sq * (s * s) + 4
        * s * (len * len) + 2 * (len * len) <= (len * len) * (s * s + 9 * s)) by (nonlinear_arith)
        requires
            len * len <= sq <= len * len + 2 * len,
            500_000 <= len,
            s == 1_000_000,
    ;
    assert(sq * (s * s) == x * x * (s * s) + y * y * (s * s)) by (nonlinear_arith)
        requires
            sq == x * x + y * y,
    ;
    assert(s * s - 9 * s <= nx * nx + ny * ny <= s * s + 9 * s) by (nonlinear_arith)
        requires
            (len * len) * (s * s - 9 * s) <= (len * len) * (nx * nx + ny * ny) <= (len * len) * (s
                * s + 9 * s),
            0 < len,
    ;
}

/// Largest slope magnitude accepted by `normal_from_slopes`.
pub const SLOPE_LIM: i64 = 7_000_000_000;

/// First component of the normalized surface normal built from the two
/// forward-difference slopes: the vector `(dx, 1, dz)` scaled to unit length.
pub open spec fn spec_normal3_x(dx: int, dz: int) -> int {
    let s = SCALE as int;
    dx * s / spec_isqrt(dx * dx + s * s + dz * dz)
}

/// Vertical component of the normalized surface normal; always positive.
pub open spec fn spec_normal3_y(dx: int, dz: int) -> int {
    let s = SCALE as int;
    s * s / spec_isqrt(dx * dx + s * s + dz * dz)
}

/// Third component of the normalized surface normal.
pub open spec fn spec_normal3_z(dx: int, dz: int) -> int {
    let s = SCALE as int;
    dz * s / spec_isqrt(dx * dx + s * s + dz * dz)
}

/// Scaling the upward vector `(dx, 1, dz)` by one over its integer length
/// lands within `UNIT_TOL` of unit squared length.
proof fn lemma_normal3_unit(dx: int, dz: int)
    requires
        iabs(dx) <= SLOPE_LIM as int,
        iabs(dz) <= SLOPE_LIM as int,
    ensures
        ({
            let s = SCALE as int;
            let len = spec_isqrt(dx * dx + s * s + dz * dz);
            let nx = dx * s / len;
            let ny = s * s / len;
            let nz = dz * s / len;
            s * s - UNIT_TOL <= nx * nx + ny * ny + nz * nz <= s * s + UNIT_TOL
        }),
{
    let s = SCALE as int;
    assert(0 <= dx * dx <= 49_000_000_000_000_000_000int && 0 <= dz * dz
        <= 49_000_000_000_000_000_000int) by (nonlinear_arith)
        requires
            iabs(dx) <= 7_000_000_000,
            iabs(dz) <= 7_000_000_000,
    ;
    let sq = dx * dx + s * s + dz * dz;
    lemma_isqrt_props(sq);
    let len = spec_isqrt(sq);
    assert((len + 1) * (len + 1) == len * len + 2 * len + 1) by (nonlinear_arith);
    assert(len * len <= sq <= len * len + 2 * len);
    assert(len >= 1_000_000) by (nonlinear_arith)
        requires
            len >= 0,
            sq >= 1_000_000_000_000,
            sq < (len + 1) * (len + 1),
    ;
    assert(-len <= dx <= len && -len <= dz <= len && s <= len) by (nonlinear_arith)
        requires
            sq == dx * dx + s * s + dz * dz,
            sq < (len + 1) * (len + 1),
            0 <= len,
            0 < s,
            0 <= dx * dx,
            0 <= dz * dz,
    ;
    let nx = dx * s / len;
    let ny = s * s / len;
    let nz = dz * s / len;
    let ex = (dx * s) % len;
    let ey = (s * s) % len;
    let ez = (dz * s) % len;
    vstd::arithmetic::div_mod::lemma_fundamental_div_mod(dx * s, len);
    vstd::arithmetic::div_mod::lemma_fundamental_div_mod(s * s, len);
    vstd::arithmetic::div_mod::lemma_fundamental_div_mod(dz * s, len);
    vstd::arithmetic::div_mod::lemma_mod_bound(dx * s, len);
    vstd::arithmetic::div_mod::lemma_mod_bound(s * s, len);
    vstd::arithmetic::div_mod::lemma_mod_bound(dz * s, len);
    assert(len * nx == dx * s - ex && len * ny == s * s - ey && len * nz == dz * s - ez);
    assert(dx * dx * (s * s) - 2 * s * (len * len) <= (len * nx) * (len * nx) <= dx * dx * (s * s)
        + 2 * s * (len * len) + len * len) by (nonlinear_arith)
        requires
            len * nx == dx * s - ex,
            0 <= ex < len,
            -len <= dx <= len,
            0 < len,
            0 < s,
    ;
    assert(s * s * (s * s) - 2 * s * (len * len) <= (len * ny) * (len * ny) <= s * s * (s * s) + 2
        * s * (len * len) + len * len) by (nonlinear_arith)
        requires
            len * ny == s * s - ey,
            0 <= ey < len,
            s <= len,
            0 < len,
            0 < s,
    ;
    assert(dz * dz * (s * s) - 2 * s * (len * len) <= (len * nz) * (len * nz) <= dz * dz * (s * s)
        + 2 * s * (len * len) + len * len) by (nonlinear_arith)
        requires
            len * nz == dz * s - ez,
            0 <= ez < len,
            -len <= dz <= len,
            0 < len,
            0 < s,
    ;
    assert((len * nx) * (len * nx) + (len * ny) * (len * ny) + (len * nz) * (len * nz) == (len
        * len) * (nx * nx + ny * ny + nz * nz)) by (nonlinear_arith);
    assert((len * len) * (s * s - 9 * s) <= sq * (s * s) - 6 * s * (len * len) && sq * (s * s) + 6
        * s * (len * len) + 3 * (len * len) <= (len * len) * (s * s + 9 * s)) by (nonlinear_arith)
        requires
            len * len <= sq <= len * len + 2 * len,
            1_000_000 <= len,
            s == 1_000_000,
    ;
    assert(sq * (s * s) == dx * dx * (s * s) + s * s * (s * s) + dz * dz * (s * s)) by (nonlinear_arith)
        requires
            sq == dx * dx + s * s + dz * dz,
    ;
    assert(s * s - 9 * s <= nx * nx + ny * ny + nz * nz <= s * s + 9 * s) by (nonlinear_arith)
        requires
            dx * dx * (s * s) - 2 * s * (len * len) <= (len * nx) * (len * nx) <= dx * dx * (s
                * s) + 2 * s * (len * len) + len * len,
            s * s * (s * s) - 2 * s * (len * len) <= (len * ny) * (len * ny) <= s * s * (s * s) + 2
                * s * (len * len) + len * len,
            dz * dz * (s * s) - 2 * s * (len * len) <= (len * nz) * (len * nz) <= dz * dz * (s
                * s) + 2 * s * (len * len) + len * len,
            (len * nx) * (len * nx) + (len * ny) * (len * ny) + (len * nz) * (len * nz) == (len
                * len) * (nx * nx + ny * ny + nz * nz),
            sq * (s * s) == dx * dx * (s * s) + s * s * (s * s) + dz * dz * (s * s),
            (len * len) * (s * s - 9 * s) <= sq * (s * s) - 6 * s * (len * len),
            sq * (s * s) + 6 * s * (len * len) + 3 * (len * len) <= (len * len) * (s * s + 9 * s),
            0 < len,
    ;
}

/// Normalizes the upward vector `(dx, 1, dz)` given by two height slopes.
/// The result always points up, its components stay within `[-1, 1]`, and its
/// squared length is unit up to the normalization tolerance.
pub fn normal_from_slopes(dx: i64, dz: i64) -> (r: Vec3Fx)
    requires
        -SLOPE_LIM <= dx <= SLOPE_LIM,
        -SLOPE_LIM <= dz <= SLOPE_LIM,
    ensures
        r.x == spec_normal3_x(dx as int, dz as int),
        r.y == spec_normal3_y(dx as int, dz as int),
        r.z == spec_normal3_z(dx as int, dz as int),
        -(SCALE as int) <= r.x <= SCALE as int,
        1 <= r.y <= SCALE,
        -(SCALE as int) <= r.z <= SCALE as int,
        (SCALE as int) * (SCALE as int) - UNIT_TOL <= r.x * r.x + r.y * r.y + r.z * r.z <= (
        SCALE as int) * (SCALE as int) + UNIT_TOL,
{
    let s = SCALE;
    proof {
        lemma_normal3_unit(dx as int, dz as int);
        let dxi = dx as int;
        let dzi = dz as int;
        assert(0 <= dxi * dxi <= 49_000_000_000_000_000_000int) by (nonlinear_arith)
            requires
                -7_000_000_000 <= dxi <= 7_000_000_000,
        ;
        assert(0 <= dzi * dzi <= 49_000_000_000_000_000_000int) by (nonlinear_arith)
            requires
                -7_000_000_000 <= dzi <= 7_000_000_000,
        ;
    }
    let sq: u128 = ((dx as i128) * (dx as i128) + (s as i128) * (s as i128) + (dz as i128) * (
    dz as i128)) as u128;
    let len: u64 = isqrt128(sq);
    proof {
        let l = len as int;
        let sqi = sq as int;
        assert((l + 1) * (l + 1) == l * l + 2 * l + 1) by (nonlinear_arith);
        assert(l >= 1_000_000) by (nonlinear_arith)
            requires
                l >= 0,
                sqi >= 1_000_000_000_000,
                sqi < (l + 1) * (l + 1),
        ;
        assert(-l <= dx as int <= l && -l <= dz as int <= l) by (nonlinear_arith)
            requires
                sqi == dx as int * dx as int + 1_000_000_000_000 + dz as int * dz as int,
                sqi < (l + 1) * (l + 1),
                0 <= l,
        ;
        assert(dx as int * (s as int) / l <= s as int && -(s as int) <= dx as int * (s as int)
            / l) by (nonlinear_arith)
            requires
                -l <= dx as int <= l,
                l >= 1_000_000,
                s == 1_000_000,
        ;
        assert(dz as int * (s as int) / l <= s as int && -(s as int) <= dz as int * (s as int)
            / l) by (nonlinear_arith)
            requires
                -l <= dz as int <= l,
                l >= 1_000_000,
                s == 1_000_000,
        ;
        vstd::arithmetic::div_mod::lemma_fundamental_div_mod(1_000_000_000_000int, l);
        vstd::arithmetic::div_mod::lemma_mod_bound(1_000_000_000_000int, l);
        let q = 1_000_000_000_000int / l;
        let rm = 1_000_000_000_000int % l;
        assert(1 <= q <= s as int) by (nonlinear_arith)
            requires
                1_000_000_000_000int == l * q + rm,
                0 <= rm < l,
                1_000_000 <= l < 11_000_000_000,
                s == 1_000_000,
        ;
    }
    let nx = fdiv(dx * s, len as i64);
    let ny = fdiv(s * s, len as i64);
    let nz = fdiv(dz * s, len as i64);
    Vec3Fx { x: nx, y: ny, z: nz }
}

/// Normalizes a vector to unit length in fixed point; the zero vector, and
/// anything within half a unit of it, collapses to the zero vector instead of
/// failing.
pub fn normalize_or_zero(v: Vec2Fx) -> (r: Vec2Fx)
    requires
        vec2_bounded(v, NORM_IN_LIM as int),
    ensures
        r.x == spec_norm_x(v.x as int, v.y as int),
        r.y == spec_norm_y(v.x as int, v.y as int),
        is_unit_or_zero(r),
{
    proof {
        assert(v.x as int * v.x as int + v.y as int * v.y as int
            <= 8_000_000_000_000_000_000) by (nonlinear_arith)
            requires
                -(NORM_IN_LIM as int) <= v.x as int <= NORM_IN_LIM as int,
                -(NORM_IN_LIM as int) <= v.y as int <= NORM_IN_LIM as int,
        ;
        assert(v.x as int * v.x as int >= 0 && v.y as int * v.y as int >= 0) by (nonlinear_arith);
    }
    let sq128: i128 = (v.x as i128) * (v.x as i128) + (v.y as i128) * (v.y as i128);
    let sq: u64 = sq128 as u64;
    proof {
        assert(sq as int == spec_sq_len(v.x as int, v.y as int));
    }
    if sq < NORM_MIN_SQ as u64 {
        Vec2Fx { x: 0, y: 0 }
    } else {
        let len: u64 = isqrt64(sq);
        proof {
            lemma_norm_unit(v.x as int, v.y as int);
            lemma_isqrt_props(sq as int);
            assert(len >= 500_000) by (nonlinear_arith)
                requires
                    len as int >= 0,
                    sq as int >= 250_000_000_000,
                    (sq as int) < (len as int + 1) * (len as int + 1),
            ;
        }
        let nx = fdiv(v.x * SCALE, len as i64);
        let ny = fdiv(v.y * SCALE, len as i64);
        Vec2Fx { x: nx, y: ny }
    }
}

} // verus!
