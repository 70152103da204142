//! Asteroids: size tiers, polygon generation, motion and hit tests.
use vstd::prelude::*;
use crate::fixed::{
    Vec2i, Dir, floor_div, point_in_limit, speed_ok, scale_by_time, time_scaled, ONE, SCALE, MAX_DT,
    MAX_EXTENT,
};
use crate::motion::{advance, advance_spec, wrap_axis, wrap_spec};
use crate::collision::{fan_contains, in_fan, all_in_limit};
use crate::random::random_between;

verus! {

/// Vertices of a generated asteroid outline.
pub const SIDES: usize = 10;

/// Radius of a generated outline before jitter, in ticks.
pub const RADIUS: i64 = 10_000;

/// Largest jitter of a vertex's radius, in ticks.
pub const JITTER: i64 = 3_000;

/// A full turn, in milliradians.
pub const TURN: i64 = 6283;

/// Largest spin, in milliradians per second.
pub const MAX_SPIN: i64 = 1000;

/// Bound on the coordinates of an outline vertex, in ticks.
pub const LOCAL_MAX: i64 = 20_000;

/// Bound on an asteroid's position, in ticks.
pub const FIELD: i64 = 0x1_0000_0000;

/// Slowest and fastest launch speed, in ticks per second.
pub const MIN_SPEED: i64 = 50_000;
pub const MAX_SPEED: i64 = 100_000;

#[derive(Clone, Copy, Debug, PartialEq, Eq, Structural)]
pub enum AsteroidSize {
    Large,
    Medium,
    Small,
}

impl AsteroidSize {
    pub open spec fn scale_spec(self) -> int {
        match self {
            AsteroidSize::Large => 10,
            AsteroidSize::Medium => 5,
            AsteroidSize::Small => 2,
        }
    }

    /// The factor from outline to world coordinates.
    pub fn scale(&self) -> (r: i64)
        ensures
            r == self.scale_spec(),
    {
        match self {
            AsteroidSize::Large => 10,
            AsteroidSize::Medium => 5,
            AsteroidSize::Small => 2,
        }
    }

    pub open spec fn exit_spec(self) -> int {
        15 * self.scale_spec() * SCALE
    }

    pub open spec fn enter_spec(self) -> int {
        13 * self.scale_spec() * SCALE
    }

    /// How far past an edge the asteroid travels before it wraps, in ticks.
    pub fn margin_exit(&self) -> (r: i64)
        ensures
            r == self.exit_spec(),
    {
        15 * self.scale() * SCALE
    }

    /// How far beyond the opposite edge a wrapped asteroid reappears, in ticks.
    pub fn margin_enter(&self) -> (r: i64)
        ensures
            r == self.enter_spec(),
    {
        13 * self.scale() * SCALE
    }

    /// The tier of the two pieces a destroyed asteroid breaks into.
    pub open spec fn child_spec(self) -> Option<AsteroidSize> {
        match self {
            AsteroidSize::Large => Some(AsteroidSize::Medium),
            AsteroidSize::Medium => Some(AsteroidSize::Small),
            AsteroidSize::Small => None,
        }
    }

    pub fn child(&self) -> (r: Option<AsteroidSize>)
        ensures
            r == self.child_spec(),
    {
        match self {
            AsteroidSize::Large => Some(AsteroidSize::Medium),
            AsteroidSize::Medium => Some(AsteroidSize::Small),
            AsteroidSize::Small => None,
        }
    }
}

/// The direction `j` steps of a tenth of a turn from the x axis, with the
/// turn taken as 6.28 radians.
pub open spec fn step_dir(j: int) -> Dir {
    if j == 1 {
        Dir { x: 809, y: 588 }
    } else if j == 2 {
        Dir { x: 310, y: 951 }
    } else if j == 3 {
        Dir { x: -308i64, y: 951 }
    } else if j == 4 {
        Dir { x: -808i64, y: 589 }
    } else if j == 5 {
        Dir { x: -1000i64, y: 2 }
    } else if j == 6 {
        Dir { x: -810i64, y: -586i64 }
    } else if j == 7 {
        Dir { x: -311i64, y: -950i64 }
    } else if j == 8 {
        Dir { x: 307, y: -952i64 }
    } else if j == 9 {
        Dir { x: 807, y: -590i64 }
    } else {
        Dir { x: 1000, y: -3i64 }
    }
}

fn step_direction(j: usize) -> (r: Dir)
    requires
        1 <= j <= SIDES,
    ensures
        r == step_dir(j as int),
        r.wf(),
{
    if j == 1 {
        Dir { x: 809, y: 588 }
    } else if j == 2 {
        Dir { x: 310, y: 951 }
    } else if j == 3 {
        Dir { x: -308, y: 951 }
    } else if j == 4 {
        Dir { x: -808, y: 589 }
    } else if j == 5 {
        Dir { x: -1000, y: 2 }
    } else if j == 6 {
        Dir { x: -810, y: -586 }
    } else if j == 7 {
        Dir { x: -311, y: -950 }
    } else if j == 8 {
        Dir { x: 307, y: -952 }
    } else if j == 9 {
        Dir { x: 807, y: -590 }
    } else {
        Dir { x: 1000, y: -3 }
    }
}

/// The point at distance `r` in direction `d`, rounded down.
pub open spec fn polar(d: Dir, r: int) -> Vec2i {
    Vec2i { x: (r * d.x / ONE as int) as i64, y: (r * d.y / ONE as int) as i64 }
}

/// Vertex `k` of an outline: its radius jittered by `jitter[k]`, then turned
/// once for every vertex added from it on, itself included.
pub open spec fn outline_vertex(jitter: Seq<i64>, k: int) -> Vec2i {
    polar(step_dir(jitter.len() - k), RADIUS + jitter[k])
}

pub open spec fn jitter_ok(jitter: Seq<i64>) -> bool {
    &&& jitter.len() == SIDES
    &&& forall|k: int| 0 <= k < jitter.len() ==> -JITTER <= #[trigger] jitter[k] <= JITTER
}

pub open spec fn local_ok(p: Vec2i) -> bool {
    -LOCAL_MAX <= p.x <= LOCAL_MAX && -LOCAL_MAX <= p.y <= LOCAL_MAX
}

proof fn lemma_polar_bound(d: Dir, r: int)
    requires
        d.wf(),
        0 <= r <= RADIUS + JITTER,
    ensures
        local_ok(polar(d, r)),
{
    let o = ONE as int;
    assert(-(RADIUS + JITTER) * o <= r * d.x <= (RADIUS + JITTER) * o) by (nonlinear_arith)
        requires 0 <= r <= RADIUS + JITTER, -o <= d.x <= o;
    assert(-(RADIUS + JITTER) * o <= r * d.y <= (RADIUS + JITTER) * o) by (nonlinear_arith)
        requires 0 <= r <= RADIUS + JITTER, -o <= d.y <= o;
    vstd::arithmetic::div_mod::lemma_div_is_ordered(r * d.x, (RADIUS + JITTER) * o, o);
    vstd::arithmetic::div_mod::lemma_div_is_ordered(-(RADIUS + JITTER) * o, r * d.x, o);
    vstd::arithmetic::div_mod::lemma_div_is_ordered(r * d.y, (RADIUS + JITTER) * o, o);
    vstd::arithmetic::div_mod::lemma_div_is_ordered(-(RADIUS + JITTER) * o, r * d.y, o);
    vstd::arithmetic::div_mod::lemma_div_by_multiple(RADIUS + JITTER, o);
    vstd::arithmetic::div_mod::lemma_fundamental_div_mod_converse(
        -(RADIUS + JITTER) * o, o, -(RADIUS + JITTER), 0);
}

/// The outline of an asteroid from the radius jitter of each vertex.
pub fn gen_asteroid(jitter: &Vec<i64>) -> (r: Vec<Vec2i>)
    requires
        jitter_ok(jitter@),
    ensures
        r@.len() == jitter@.len(),
        forall|k: int| 0 <= k < r@.len() ==> r@[k] == outline_vertex(jitter@, k),
        forall|k: int| 0 <= k < r@.len() ==> local_ok(#[trigger] r@[k]),
{
    let n = jitter.len();
    let mut points: Vec<Vec2i> = Vec::new();
    let mut k: usize = 0;
    while k < n
        invariant
            n == jitter@.len(),
            jitter_ok(jitter@),
            k <= n,
            points@.len() == k,
            forall|i: int| 0 <= i < k ==> points@[i] == outline_vertex(jitter@, i),
            forall|i: int| 0 <= i < k ==> local_ok(#[trigger] points@[i]),
        decreases n - k,
    {
        let d = step_direction(n - k);
        let rad = RADIUS + jitter[k];
        proof {
            let o = ONE as int;
            let m = (RADIUS + JITTER) * o;
            assert(-m <= rad * d.x <= m) by (nonlinear_arith)
                requires 0 <= rad <= RADIUS + JITTER, -o <= d.x <= o, m == (RADIUS + JITTER) * o;
            assert(-m <= rad * d.y <= m) by (nonlinear_arith)
                requires 0 <= rad <= RADIUS + JITTER, -o <= d.y <= o, m == (RADIUS + JITTER) * o;
        }
        let x = floor_div(rad * d.x, ONE);
        let y = floor_div(rad * d.y, ONE);
        let v = Vec2i { x, y };
        proof {
            lemma_polar_bound(d, rad as int);
        }
        points.push(v);
        k += 1;
    }
    points
}

/// One asteroid in the world.
#[derive(Debug)]
pub struct Asteroid {
    pub size: AsteroidSize,
    /// Position of the center, in ticks.
    pub pos: Vec2i,
    /// Velocity, in ticks per second.
    pub vel: Vec2i,
    /// The outline around the center, before scaling and turning.
    pub points: Vec<Vec2i>,
    /// Spin, in milliradians per second.
    pub rotation_speed: i64,
    /// Current angle, in milliradians, within one turn.
    pub rotation: i64,
    /// Cosine and sine of `rotation`, scaled by `ONE`, as the caller last set them.
    pub orientation: Dir,
}

impl Asteroid {
    pub open spec fn wf(&self) -> bool {
        &&& -FIELD <= self.pos.x <= FIELD
        &&& -FIELD <= self.pos.y <= FIELD
        &&& speed_ok(self.vel)
        &&& forall|k: int| 0 <= k < self.points@.len() ==> local_ok(#[trigger] self.points@[k])
        &&& -MAX_SPIN <= self.rotation_speed <= MAX_SPIN
        &&& 0 <= self.rotation < TURN
        &&& self.orientation.wf()
    }

    /// The world position of outline point `l`: scaled, turned by the
    /// orientation, then moved to the center.
    pub open spec fn world_spec(&self, l: Vec2i) -> Vec2i {
        let s = self.size.scale_spec();
        let c = self.orientation.x as int;
        let n = self.orientation.y as int;
        Vec2i {
            x: (self.pos.x + (c * (s * l.x) - n * (s * l.y)) / ONE as int) as i64,
            y: (self.pos.y + (n * (s * l.x) + c * (s * l.y)) / ONE as int) as i64,
        }
    }

    pub open spec fn world_points_spec(&self) -> Seq<Vec2i> {
        self.points@.map_values(|l: Vec2i| self.world_spec(l))
    }

    /// Whether `p` lies inside the asteroid, tested on the triangle fan
    /// around its center.
    pub open spec fn contains_spec(&self, p: Vec2i) -> bool {
        in_fan(self.pos, self.world_points_spec(), p)
    }

    /// `self` is the asteroid of tier `size` at `pos`, moving along `heading`
    /// at `speed` ticks per second, spinning at `spin`, with the outline
    /// made from `jitter`, at angle zero.
    pub open spec fn launched_spec(
        &self,
        size: AsteroidSize,
        pos: Vec2i,
        heading: Dir,
        speed: int,
        spin: int,
        jitter: Seq<i64>,
    ) -> bool {
        &&& self.size == size
        &&& self.pos == pos
        &&& self.vel.x == heading.x * speed / ONE as int
        &&& self.vel.y == heading.y * speed / ONE as int
        &&& self.rotation_speed == spin
        &&& self.rotation == 0
        &&& self.orientation == (Dir { x: ONE, y: 0 })
        &&& self.points@.len() == jitter.len()
        &&& forall|k: int| 0 <= k < self.points@.len() ==> self.points@[k] == outline_vertex(jitter, k)
    }

    /// The asteroid from its parts: the velocity is `heading` stretched by
    /// `speed`.
    pub fn from_parts(
        size: AsteroidSize,
        pos: Vec2i,
        heading: Dir,
        speed: i64,
        rotation_speed: i64,
        jitter: &Vec<i64>,
    ) -> (r: Asteroid)
        requires
            -FIELD <= pos.x <= FIELD,
            -FIELD <= pos.y <= FIELD,
            heading.wf(),
            MIN_SPEED <= speed <= MAX_SPEED,
            -MAX_SPIN <= rotation_speed <= MAX_SPIN,
            jitter_ok(jitter@),
        ensures
            r.wf(),
            r.launched_spec(size, pos, heading, speed as int, rotation_speed as int, jitter@),
    {
        proof {
            let o = ONE as int;
            let b = 2 * o * MAX_SPEED;
            assert(-b <= heading.x * speed <= b) by (nonlinear_arith)
                requires -o <= heading.x <= o, -o <= heading.y <= o, 0 <= speed <= MAX_SPEED, b == 2 * o * MAX_SPEED;
            assert(-b <= heading.y * speed <= b) by (nonlinear_arith)
                requires -o <= heading.x <= o, -o <= heading.y <= o, 0 <= speed <= MAX_SPEED, b == 2 * o * MAX_SPEED;
            vstd::arithmetic::div_mod::lemma_div_is_ordered(heading.x * speed, b, o);
            vstd::arithmetic::div_mod::lemma_div_is_ordered(-b, heading.x * speed, o);
            vstd::arithmetic::div_mod::lemma_div_is_ordered(heading.y * speed, b, o);
            vstd::arithmetic::div_mod::lemma_div_is_ordered(-b, heading.y * speed, o);
            vstd::arithmetic::div_mod::lemma_div_by_multiple(2 * MAX_SPEED, o);
            vstd::arithmetic::div_mod::lemma_fundamental_div_mod_converse(-b, o, -2 * MAX_SPEED, 0);
        }
        let vx = floor_div(heading.x * speed, ONE);
        let vy = floor_div(heading.y * speed, ONE);
        let points = gen_asteroid(jitter);
        Asteroid {
            size,
            pos,
            vel: Vec2i { x: vx, y: vy },
            points,
            rotation_speed,
            rotation: 0,
            orientation: Dir { x: ONE, y: 0 },
        }
    }

    /// The angle after `dt` microseconds of spin, kept within one turn.
    pub open spec fn turned_spec(&self, dt: int) -> int {
        let r = self.rotation + time_scaled(self.rotation_speed as int, dt);
        if r >= TURN {
            r - TURN
        } else if r < 0 {
            r + TURN
        } else {
            r
        }
    }

    /// The position after `dt` microseconds of motion and the wrap-around
    /// on a `width` by `height` screen.
    pub open spec fn moved_spec(&self, dt: int, width: int, height: int) -> Vec2i {
        let p = advance_spec(self.pos, self.vel, dt);
        Vec2i {
            x: wrap_spec(p.x as int, self.size.exit_spec(), self.size.enter_spec(), width) as i64,
            y: wrap_spec(p.y as int, self.size.exit_spec(), self.size.enter_spec(), height) as i64,
        }
    }

    /// Moves and spins the asteroid for `dt` microseconds on a `width` by
    /// `height` screen.
    pub fn update(&mut self, dt: i64, width: i64, height: i64)
        requires
            old(self).wf(),
            0 <= dt <= MAX_DT,
            0 <= width <= MAX_EXTENT,
            0 <= height <= MAX_EXTENT,
        ensures
            final(self).wf(),
            final(self).pos == old(self).moved_spec(dt as int, width as int, height as int),
            final(self).rotation == old(self).turned_spec(dt as int),
            final(self).vel == old(self).vel,
            final(self).size == old(self).size,
            final(self).points == old(self).points,
            final(self).rotation_speed == old(self).rotation_speed,
            final(self).orientation == old(self).orientation,
    {
        let p = advance(self.pos, self.vel, dt);
        let exit = self.size.margin_exit();
        let enter = self.size.margin_enter();
        self.pos = Vec2i { x: wrap_axis(p.x, exit, enter, width), y: wrap_axis(p.y, exit, enter, height) };
        let mut r = self.rotation + scale_by_time(self.rotation_speed, dt);
        if r >= TURN {
            r = r - TURN;
        } else if r < 0 {
            r = r + TURN;
        }
        self.rotation = r;
    }

    /// Sets the cosine and sine of the current angle.
    pub fn set_orientation(&mut self, orientation: Dir)
        requires
            old(self).wf(),
            orientation.wf(),
        ensures
            final(self).wf(),
            final(self).orientation == orientation,
            final(self).pos == old(self).pos,
            final(self).vel == old(self).vel,
            final(self).size == old(self).size,
            final(self).points == old(self).points,
            final(self).rotation == old(self).rotation,
            final(self).rotation_speed == old(self).rotation_speed,
    {
        self.orientation = orientation;
    }

    proof fn lemma_world_bound(&self, l: Vec2i)
        requires
            self.wf(),
            local_ok(l),
        ensures
            point_in_limit(self.world_spec(l)),
    {
        let s = self.size.scale_spec();
        let c = self.orientation.x as int;
        let n = self.orientation.y as int;
        let o = ONE as int;
        let m = 2 * o * 10 * LOCAL_MAX;
        assert(-m <= c * (s * l.x) - n * (s * l.y) <= m) by (nonlinear_arith)
            requires -o <= c <= o, -o <= n <= o, 0 <= s <= 10, -LOCAL_MAX <= l.x <= LOCAL_MAX,
                -LOCAL_MAX <= l.y <= LOCAL_MAX, m == 2 * o * 10 * LOCAL_MAX;
        assert(-m <= n * (s * l.x) + c * (s * l.y) <= m) by (nonlinear_arith)
            requires -o <= c <= o, -o <= n <= o, 0 <= s <= 10, -LOCAL_MAX <= l.x <= LOCAL_MAX,
                -LOCAL_MAX <= l.y <= LOCAL_MAX, m == 2 * o * 10 * LOCAL_MAX;
        vstd::arithmetic::div_mod::lemma_div_is_ordered(c * (s * l.x) - n * (s * l.y), m, o);
        vstd::arithmetic::div_mod::lemma_div_is_ordered(-m, c * (s * l.x) - n * (s * l.y), o);
        vstd::arithmetic::div_mod::lemma_div_is_ordered(n * (s * l.x) + c * (s * l.y), m, o);
        vstd::arithmetic::div_mod::lemma_div_is_ordered(-m, n * (s * l.x) + c * (s * l.y), o);
        vstd::arithmetic::div_mod::lemma_div_by_multiple(20 * LOCAL_MAX, o);
        vstd::arithmetic::div_mod::lemma_fundamental_div_mod_converse(-m, o, -20 * LOCAL_MAX, 0);
    }

    /// Outline point `l` in world coordinates.
    pub fn world_point(&self, l: Vec2i) -> (r: Vec2i)
        requires
            self.wf(),
            local_ok(l),
        ensures
            r == self.world_spec(l),
            point_in_limit(r),
    {
        proof {
            self.lemma_world_bound(l);
        }
        let s = self.size.scale();
        let c = self.orientation.x;
        let n = self.orientation.y;
        proof {
            let o = ONE as int;
            assert(-o * 10 * LOCAL_MAX <= c * (s * l.x) <= o * 10 * LOCAL_MAX) by (nonlinear_arith)
                requires -o <= c <= o, 0 <= s <= 10, -LOCAL_MAX <= l.x <= LOCAL_MAX;
            assert(-o * 10 * LOCAL_MAX <= n * (s * l.y) <= o * 10 * LOCAL_MAX) by (nonlinear_arith)
                requires -o <= n <= o, 0 <= s <= 10, -LOCAL_MAX <= l.y <= LOCAL_MAX;
            assert(-o * 10 * LOCAL_MAX <= n * (s * l.x) <= o * 10 * LOCAL_MAX) by (nonlinear_arith)
                requires -o <= n <= o, 0 <= s <= 10, -LOCAL_MAX <= l.x <= LOCAL_MAX;
            assert(-o * 10 * LOCAL_MAX <= c * (s * l.y) <= o * 10 * LOCAL_MAX) by (nonlinear_arith)
                requires -o <= c <= o, 0 <= s <= 10, -LOCAL_MAX <= l.y <= LOCAL_MAX;
        }
        let x = self.pos.x + floor_div(c * (s * l.x) - n * (s * l.y), ONE);
        let y = self.pos.y + floor_div(n * (s * l.x) + c * (s * l.y), ONE);
        Vec2i { x, y }
    }

    /// The outline in world coordinates.
    pub fn world_points(&self) -> (r: Vec<Vec2i>)
        requires
            self.wf(),
        ensures
            r@ == self.world_points_spec(),
            all_in_limit(r@),
    {
        let n = self.points.len();
        let mut out: Vec<Vec2i> = Vec::new();
        let mut i: usize = 0;
        while i < n
            invariant
                self.wf(),
                n == self.points@.len(),
                i <= n,
                out@.len() == i,
                forall|k: int| 0 <= k < i ==> out@[k] == self.world_spec(self.points@[k]),
                all_in_limit(out@),
            decreases n - i,
        {
            let w = self.world_point(self.points[i]);
            out.push(w);
            i += 1;
        }
        assert(out@ =~= self.world_points_spec());
        out
    }

    /// Whether the point `p` lies inside the asteroid.
    pub fn point_collision(&self, p: Vec2i) -> (r: bool)
        requires
            self.wf(),
            point_in_limit(p),
        ensures
            r == self.contains_spec(p),
    {
        let pts = self.world_points();
        fan_contains(self.pos, &pts, p)
    }

    /// A new asteroid of tier `size` at `pos` heading along `heading`, with
    /// a speed drawn from `[MIN_SPEED, MAX_SPEED]`, a spin from
    /// `[-MAX_SPIN, MAX_SPIN]` and an outline from `SIDES` jitters in
    /// `[-JITTER, JITTER]`.
    pub fn new(size: AsteroidSize, pos: Vec2i, heading: Dir) -> (r: Asteroid)
        requires
            -FIELD <= pos.x <= FIELD,
            -FIELD <= pos.y <= FIELD,
            heading.wf(),
        ensures
            r.wf(),
            r.points@.len() == SIDES,
            exists|speed: int, spin: int, jitter: Seq<i64>|
                MIN_SPEED <= speed <= MAX_SPEED && -MAX_SPIN <= spin <= MAX_SPIN && jitter_ok(jitter)
                    && #[trigger] r.launched_spec(size, pos, heading, speed, spin, jitter),
    {
        let speed = random_between(MIN_SPEED, MAX_SPEED);
        let spin = random_between(-MAX_SPIN, MAX_SPIN);
        let mut jitter: Vec<i64> = Vec::new();
        let mut k: usize = 0;
        while k < SIDES
            invariant
                k <= SIDES,
                jitter@.len() == k,
                forall|i: int| 0 <= i < k ==> -JITTER <= #[trigger] jitter@[i] <= JITTER,
            decreases SIDES - k,
        {
            jitter.push(random_between(-JITTER, JITTER));
            k += 1;
        }
        let r = Asteroid::from_parts(size, pos, heading, speed, spin, &jitter);
        assert(r.launched_spec(size, pos, heading, speed as int, spin as int, jitter@));
        r
    }
}

/// An asteroid with an outline contains its own center.
pub proof fn lemma_contains_center(a: Asteroid)
    requires
        a.points@.len() > 0,
    ensures
        a.contains_spec(a.pos),
{
    let pts = a.world_points_spec();
    let p = a.pos;
    let u = crate::collision::fan_prev(pts, 0);
    let v = pts[0];
    assert(crate::collision::det(p, p, u) == 0) by (nonlinear_arith);
    assert(crate::collision::det(p, p, v) == 0) by (nonlinear_arith);
    assert(crate::collision::in_triangle(p, p, u, v));
}

/// Wrap-around to the right: an asteroid that moves left past its exit
/// margin reappears its entry margin beyond the right edge, at the same
/// height when it moves neither up nor down and stays within the screen's
/// vertical bounds; its velocity is left as it was (see `Asteroid::update`).
pub proof fn lemma_wrap_left(a: Asteroid, dt: int, width: int, height: int)
    requires
        a.wf(),
        0 <= dt <= MAX_DT,
        0 <= width <= MAX_EXTENT,
        0 <= height <= MAX_EXTENT,
        advance_spec(a.pos, a.vel, dt).x + a.size.exit_spec() < 0,
        a.vel.y == 0,
        -a.size.exit_spec() <= a.pos.y <= height + a.size.exit_spec(),
    ensures
        a.moved_spec(dt, width, height).x == width + a.size.enter_spec(),
        a.moved_spec(dt, width, height).y == a.pos.y,
{
    assert(time_scaled(0, dt) == 0);
}

} // verus!
