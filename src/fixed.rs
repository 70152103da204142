use vstd::prelude::*;

verus! {

/// Ticks in one screen unit.
pub const SCALE: i64 = 1000;

/// The fixed-point value of 1 in a unit vector.
pub const ONE: i64 = 1000;

/// Microseconds in one second.
pub const MICROS: i64 = 1_000_000;

/// The longest frame the core accepts, in microseconds. Within one frame a
/// coordinate then moves by at most `VMAX` and an angle by less than a turn;
/// a driver hands longer pauses in as frames of at most this length.
pub const MAX_DT: i64 = 1_000_000;

/// Coordinates saturate at this magnitude, in ticks.
pub const LIMIT: i64 = 0x100_0000_0000;

/// Velocity components saturate at this magnitude, in ticks per second.
pub const VMAX: i64 = 0x10_0000_0000;

/// The largest screen extent the core accepts, in ticks.
pub const MAX_EXTENT: i64 = 0x4000_0000;

/// A point or vector in ticks (or, for velocities, ticks per second).
#[derive(Clone, Copy, Debug, PartialEq, Eq, Structural)]
pub struct Vec2i {
    pub x: i64,
    pub y: i64,
}

/// A direction: a vector whose length is about `ONE`.
#[derive(Clone, Copy, Debug, PartialEq, Eq, Structural)]
pub struct Dir {
    pub x: i64,
    pub y: i64,
}

impl Dir {
    pub open spec fn wf(self) -> bool {
        -ONE <= self.x <= ONE && -ONE <= self.y <= ONE
    }
}

pub open spec fn in_limit(v: int) -> bool {
    -LIMIT <= v <= LIMIT
}

pub open spec fn point_in_limit(p: Vec2i) -> bool {
    in_limit(p.x as int) && in_limit(p.y as int)
}

pub open spec fn speed_ok(v: Vec2i) -> bool {
    -VMAX <= v.x <= VMAX && -VMAX <= v.y <= VMAX
}

pub open spec fn clamp_spec(v: int, lo: int, hi: int) -> int {
    if v < lo {
        lo
    } else if v > hi {
        hi
    } else {
        v
    }
}

/// `a / b` rounded down.
pub fn floor_div(a: i64, b: i64) -> (r: i64)
    requires
        b > 0,
    ensures
        r == a as int / b as int,
{
    if a >= 0 {
        ((a as u64) / (b as u64)) as i64
    } else {
        let n: u64 = (-(a + 1)) as u64;
        let q: u64 = n / (b as u64);
        proof {
            let ai = a as int;
            let bi = b as int;
            let ni = n as int;
            let qi = q as int;
            let ri = ni % bi;
            assert(ni == qi * bi + ri) by (nonlinear_arith)
                requires qi == ni / bi, ri == ni % bi, bi > 0;
            assert(0 <= ri < bi);
            assert(ai == (-qi - 1) * bi + (bi - 1 - ri)) by (nonlinear_arith)
                requires ai == -(ni + 1), ni == qi * bi + ri;
            vstd::arithmetic::div_mod::lemma_fundamental_div_mod_converse(
                ai, bi, -qi - 1, bi - 1 - ri);
        }
        -(q as i64) - 1
    }
}

/// `v` brought into `[lo, hi]`.
pub fn clamp(v: i64, lo: i64, hi: i64) -> (r: i64)
    requires
        lo <= hi,
    ensures
        r == clamp_spec(v as int, lo as int, hi as int),
{
    if v < lo {
        lo
    } else if v > hi {
        hi
    } else {
        v
    }
}

pub open spec fn time_scaled(v: int, dt: int) -> int {
    (v * dt) / (MICROS as int)
}

/// The distance covered in `dt` microseconds at `v` per second, rounded down.
pub fn scale_by_time(v: i64, dt: i64) -> (r: i64)
    requires
        -VMAX <= v <= VMAX,
        0 <= dt <= MAX_DT,
    ensures
        r == time_scaled(v as int, dt as int),
        v >= 0 ==> 0 <= r <= v,
        v < 0 ==> v <= r <= 0,
        -VMAX <= r <= VMAX,
{
    assert(-VMAX * MAX_DT <= v * dt <= VMAX * MAX_DT) by (nonlinear_arith)
        requires -VMAX <= v <= VMAX, 0 <= dt <= MAX_DT;
    let r = floor_div(v * dt, MICROS);
    proof {
        let p = v as int * dt as int;
        let m = MICROS as int;
        if v >= 0 {
            assert(0 <= p <= v * m) by (nonlinear_arith)
                requires v >= 0, 0 <= dt <= m, p == v * dt;
            vstd::arithmetic::div_mod::lemma_div_is_ordered(p, v * m, m);
            vstd::arithmetic::div_mod::lemma_div_is_ordered(0, p, m);
            vstd::arithmetic::div_mod::lemma_div_by_multiple(v as int, m);
        } else {
            assert(v * m <= p <= 0) by (nonlinear_arith)
                requires v < 0, 0 <= dt <= m, p == v * dt;
            vstd::arithmetic::div_mod::lemma_div_is_ordered(v * m, p, m);
            vstd::arithmetic::div_mod::lemma_div_is_ordered(p, 0, m);
            vstd::arithmetic::div_mod::lemma_fundamental_div_mod_converse(v * m, m, v as int, 0);
        }
    }
    r
}

/// A coordinate moved by `d` and kept within `LIMIT`.
pub fn shift_coord(v: i64, d: i64) -> (r: i64)
    requires
        in_limit(v as int),
        -VMAX <= d <= VMAX,
    ensures
        r == clamp_spec(v + d, -LIMIT as int, LIMIT as int),
        in_limit(r as int),
{
    clamp(v + d, -LIMIT, LIMIT)
}

} // verus!
