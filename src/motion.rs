//! Integration of positions and the wrap-around at the screen edges.
use vstd::prelude::*;
use crate::fixed::{
    Vec2i, in_limit, point_in_limit, speed_ok, clamp_spec, time_scaled, scale_by_time, shift_coord,
    LIMIT, MAX_DT, MAX_EXTENT,
};

verus! {

/// A coordinate after `dt` microseconds at speed `v`, saturating at `LIMIT`.
pub open spec fn advance_coord(p: int, v: int, dt: int) -> int {
    clamp_spec(p + time_scaled(v, dt), -LIMIT as int, LIMIT as int)
}

pub open spec fn advance_spec(p: Vec2i, v: Vec2i, dt: int) -> Vec2i {
    Vec2i { x: advance_coord(p.x as int, v.x as int, dt) as i64, y: advance_coord(p.y as int, v.y as int, dt) as i64 }
}

/// The position `p` moved for `dt` microseconds at velocity `v`.
pub fn advance(p: Vec2i, v: Vec2i, dt: i64) -> (r: Vec2i)
    requires
        point_in_limit(p),
        speed_ok(v),
        0 <= dt <= MAX_DT,
    ensures
        r == advance_spec(p, v, dt as int),
        point_in_limit(r),
{
    let dx = scale_by_time(v.x, dt);
    let dy = scale_by_time(v.y, dt);
    Vec2i { x: shift_coord(p.x, dx), y: shift_coord(p.y, dy) }
}

/// The wrap rule on one axis: past `-exit` the coordinate jumps to
/// `extent + enter`, past `extent + exit` it jumps to `-enter`.
pub open spec fn wrap_spec(v: int, exit: int, enter: int, extent: int) -> int {
    if v + exit < 0 {
        extent + enter
    } else if v - exit > extent {
        -enter
    } else {
        v
    }
}

/// One coordinate wrapped around a screen axis of length `extent`.
pub fn wrap_axis(v: i64, exit: i64, enter: i64, extent: i64) -> (r: i64)
    requires
        in_limit(v as int),
        0 <= enter <= exit <= MAX_EXTENT,
        0 <= extent <= MAX_EXTENT,
    ensures
        r == wrap_spec(v as int, exit as int, enter as int, extent as int),
        -exit <= r <= extent + exit,
{
    let mut r = v;
    if r + exit < 0 {
        r = extent + enter;
    }
    if r - exit > extent {
        r = -enter;
    }
    r
}

} // verus!
