//! Triangle-area based containment tests.
use vstd::prelude::*;
use crate::fixed::{Vec2i, point_in_limit, LIMIT};

verus! {

/// The containment tolerance: twice an area of 0.1 square units, in square ticks.
pub const TOLERANCE: i128 = 200_000;

pub open spec fn abs(v: int) -> int {
    if v < 0 {
        -v
    } else {
        v
    }
}

/// Twice the signed area of the triangle `abc` (shoelace formula).
pub open spec fn det(a: Vec2i, b: Vec2i, c: Vec2i) -> int {
    a.x * (b.y - c.y) + b.x * (c.y - a.y) + c.x * (a.y - b.y)
}

/// Twice the unsigned area of the triangle `abc`.
pub open spec fn area2(a: Vec2i, b: Vec2i, c: Vec2i) -> int {
    abs(det(a, b, c))
}

/// The area-sum test: the three triangles that `p` cuts `abc` into cover
/// the area of `abc` within the tolerance.
pub open spec fn in_triangle(p: Vec2i, a: Vec2i, b: Vec2i, c: Vec2i) -> bool {
    abs(area2(a, b, c) - (area2(p, a, b) + area2(p, b, c) + area2(p, a, c))) < TOLERANCE
}

/// The triangle of a fan over `pts` around `center` that ends at vertex `i`:
/// it runs from the center to the previous vertex (the last one for `i == 0`)
/// and on to vertex `i`.
pub open spec fn fan_prev(pts: Seq<Vec2i>, i: int) -> Vec2i {
    if i == 0 {
        pts.last()
    } else {
        pts[i - 1]
    }
}

/// `p` lies in one of the fan's triangles.
pub open spec fn in_fan(center: Vec2i, pts: Seq<Vec2i>, p: Vec2i) -> bool {
    exists|i: int| 0 <= i < pts.len() && #[trigger] in_triangle(p, center, fan_prev(pts, i), pts[i])
}

pub open spec fn all_in_limit(pts: Seq<Vec2i>) -> bool {
    forall|i: int| 0 <= i < pts.len() ==> point_in_limit(#[trigger] pts[i])
}

proof fn lemma_det_bound(a: Vec2i, b: Vec2i, c: Vec2i)
    requires
        point_in_limit(a),
        point_in_limit(b),
        point_in_limit(c),
    ensures
        abs(a.x * (b.y - c.y)) <= 2 * LIMIT * LIMIT,
        abs(b.x * (c.y - a.y)) <= 2 * LIMIT * LIMIT,
        abs(c.x * (a.y - b.y)) <= 2 * LIMIT * LIMIT,
        abs(det(a, b, c)) <= 6 * LIMIT * LIMIT,
{
    let l = LIMIT as int;
    assert(abs(a.x * (b.y - c.y)) <= 2 * l * l) by (nonlinear_arith)
        requires -l <= a.x <= l, -l <= b.y <= l, -l <= c.y <= l, l > 0;
    assert(abs(b.x * (c.y - a.y)) <= 2 * l * l) by (nonlinear_arith)
        requires -l <= b.x <= l, -l <= a.y <= l, -l <= c.y <= l, l > 0;
    assert(abs(c.x * (a.y - b.y)) <= 2 * l * l) by (nonlinear_arith)
        requires -l <= c.x <= l, -l <= a.y <= l, -l <= b.y <= l, l > 0;
}

/// Twice the unsigned area of the triangle `abc`, in square ticks; doubling
/// keeps the value exact.
pub fn triangle_area(a: Vec2i, b: Vec2i, c: Vec2i) -> (r: i128)
    requires
        point_in_limit(a),
        point_in_limit(b),
        point_in_limit(c),
    ensures
        r == area2(a, b, c),
        0 <= r <= 6 * LIMIT * LIMIT,
{
    proof {
        lemma_det_bound(a, b, c);
    }
    let t1: i128 = (a.x as i128) * ((b.y as i128) - (c.y as i128));
    let t2: i128 = (b.x as i128) * ((c.y as i128) - (a.y as i128));
    let t3: i128 = (c.x as i128) * ((a.y as i128) - (b.y as i128));
    let d: i128 = t1 + t2 + t3;
    if d < 0 {
        -d
    } else {
        d
    }
}

/// Whether `p` lies in the triangle `abc` by the area-sum test.
pub fn point_triangle_collision(p: Vec2i, a: Vec2i, b: Vec2i, c: Vec2i) -> (r: bool)
    requires
        point_in_limit(p),
        point_in_limit(a),
        point_in_limit(b),
        point_in_limit(c),
    ensures
        r == in_triangle(p, a, b, c),
{
    let ta = triangle_area(a, b, c);
    let ca = triangle_area(p, a, b) + triangle_area(p, b, c) + triangle_area(p, a, c);
    let diff: i128 = ta - ca;
    if diff < 0 {
        -diff < TOLERANCE
    } else {
        diff < TOLERANCE
    }
}

/// Whether `p` lies in the triangle fan over `pts` around `center`.
pub fn fan_contains(center: Vec2i, pts: &Vec<Vec2i>, p: Vec2i) -> (r: bool)
    requires
        point_in_limit(center),
        point_in_limit(p),
        all_in_limit(pts@),
    ensures
        r == in_fan(center, pts@, p),
{
    let n = pts.len();
    if n == 0 {
        return false;
    }
    let mut i: usize = 0;
    while i < n
        invariant
            n == pts@.len(),
            n > 0,
            0 <= i <= n,
            point_in_limit(center),
            point_in_limit(p),
            all_in_limit(pts@),
            forall|k: int| 0 <= k < i ==> !#[trigger] in_triangle(p, center, fan_prev(pts@, k), pts@[k]),
        decreases n - i,
    {
        let prev = if i == 0 {
            pts[n - 1]
        } else {
            pts[i - 1]
        };
        if point_triangle_collision(p, center, prev, pts[i]) {
            assert(in_triangle(p, center, fan_prev(pts@, i as int), pts@[i as int]));
            return true;
        }
        i += 1;
    }
    false
}

/// The area does not depend on the order in which the vertices are given:
/// reversing them leaves it unchanged.
pub proof fn lemma_area_reversal(a: Vec2i, b: Vec2i, c: Vec2i)
    ensures
        area2(a, b, c) == area2(c, b, a),
{
    assert(det(a, b, c) == -det(c, b, a)) by (nonlinear_arith);
}

/// Three points on one line span no area: here `b` and `c` lie on the line
/// through `a` in direction `d`.
pub proof fn lemma_area_collinear(a: Vec2i, d: Vec2i, b: Vec2i, c: Vec2i, s: int, t: int)
    requires
        b.x == a.x + s * d.x,
        b.y == a.y + s * d.y,
        c.x == a.x + t * d.x,
        c.y == a.y + t * d.y,
    ensures
        area2(a, b, c) == 0,
{
    assert(det(a, b, c) == (b.x - a.x) * (c.y - a.y) - (c.x - a.x) * (b.y - a.y))
        by (nonlinear_arith);
    let (u, v, w, z) = (s * d.x, t * d.y, t * d.x, s * d.y);
    assert(u * v == w * z) by (nonlinear_arith)
        requires u == s * d.x, v == t * d.y, w == t * d.x, z == s * d.y;
}

/// The three sub-triangles that `p` cuts `abc` into add up, with signs, to `abc`.
proof fn lemma_det_split(p: Vec2i, a: Vec2i, b: Vec2i, c: Vec2i)
    ensures
        det(p, a, b) + det(p, b, c) + det(p, c, a) == det(a, b, c),
        area2(p, a, c) == abs(det(p, c, a)),
{
    let (px, py, ax, ay, bx, by, cx, cy) = (
        p.x as int,
        p.y as int,
        a.x as int,
        a.y as int,
        b.x as int,
        b.y as int,
        c.x as int,
        c.y as int,
    );
    broadcast use vstd::arithmetic::mul::lemma_mul_is_distributive_sub;

    assert(px * (ay - by) + ax * (by - py) + bx * (py - ay) + px * (by - cy) + bx * (cy - py) + cx
        * (py - by) + px * (cy - ay) + cx * (ay - py) + ax * (py - cy) == ax * (by - cy) + bx * (cy
        - ay) + cx * (ay - by));
    assert(det(p, a, c) == -det(p, c, a)) by (nonlinear_arith);
}

/// The centroid of a triangle of non-zero area passes the containment test.
pub proof fn lemma_centroid_inside(p: Vec2i, a: Vec2i, b: Vec2i, c: Vec2i)
    requires
        det(a, b, c) != 0,
        3 * p.x == a.x + b.x + c.x,
        3 * p.y == a.y + b.y + c.y,
    ensures
        in_triangle(p, a, b, c),
{
    lemma_det_split(p, a, b, c);
    assert(3 * det(p, a, b) == det(a, b, c)) by (nonlinear_arith)
        requires 3 * p.x == a.x + b.x + c.x, 3 * p.y == a.y + b.y + c.y;
    assert(3 * det(p, c, a) == det(a, b, c)) by (nonlinear_arith)
        requires 3 * p.x == a.x + b.x + c.x, 3 * p.y == a.y + b.y + c.y;
}

/// A point cut off from the triangle by the line through `a` and `b` (on the
/// side away from `c`), with the triangle `pab` at least half the tolerance
/// in size, fails the containment test.
pub proof fn lemma_cut_off_rejected(p: Vec2i, a: Vec2i, b: Vec2i, c: Vec2i)
    requires
        (det(a, b, c) >= 0 && 2 * det(p, a, b) <= -TOLERANCE) || (det(a, b, c) <= 0 && 2
            * det(p, a, b) >= TOLERANCE),
    ensures
        !in_triangle(p, a, b, c),
{
    lemma_det_split(p, a, b, c);
}

} // verus!
