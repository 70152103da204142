//! One game session: the entity collections and the steps of a frame.
use vstd::prelude::*;
use crate::fixed::{Vec2i, Dir, MAX_DT, MAX_EXTENT, SCALE};
use crate::asteroid::{Asteroid, AsteroidSize, FIELD, MIN_SPEED, MAX_SPEED, MAX_SPIN, jitter_ok};
use crate::player::{
    Player, JetParticle, Missile, Controls, in_play, vel_add, dir_times, FADE_START, EXHAUST_SPEED,
    MISSILE_SPEED,
};
use crate::motion::advance_spec;
use crate::random::random_between;
use vstd::arithmetic::power2::{pow2, lemma_pow2_unfold, lemma2_to64, lemma2_to64_rest, lemma_pow2_strictly_increases};

verus! {

/// Asteroids in the first wave.
pub const FIRST_WAVE: u64 = 2;

/// How far beyond an edge a new wave's asteroids appear, in ticks.
pub const SPAWN_OFFSET: i64 = 10 * SCALE;

/// An asteroid to be created: its tier and its position.
#[derive(Clone, Copy, Debug, PartialEq, Eq, Structural)]
pub struct SpawnOrder {
    pub size: AsteroidSize,
    pub pos: Vec2i,
}

/// The two pieces a destroyed asteroid leaves where it stood: none for the
/// smallest tier.
pub open spec fn split_orders(a: Asteroid) -> Seq<SpawnOrder> {
    match a.size.child_spec() {
        Some(s) => seq![SpawnOrder { size: s, pos: a.pos }, SpawnOrder { size: s, pos: a.pos }],
        None => seq![],
    }
}

/// The index of the first projectile, from `i` on, that is not spent and
/// lies inside `a`; -1 if there is none.
pub open spec fn first_live_hit(a: Asteroid, ms: Seq<Missile>, i: int) -> int
    decreases ms.len() - i,
{
    if i < 0 || i >= ms.len() {
        -1
    } else if !ms[i].hit && a.contains_spec(ms[i].pos) {
        i
    } else {
        first_live_hit(a, ms, i + 1)
    }
}

pub open spec fn spent(m: Missile) -> Missile {
    Missile { vel: m.vel, pos: m.pos, hit: true }
}

/// Hit resolution over the asteroids in order: each takes the first live
/// projectile inside it, if any, which is then spent. The result holds the
/// surviving asteroids, the pieces to create, the projectiles with their
/// flags, and the number of asteroids destroyed.
pub open spec fn resolution(asts: Seq<Asteroid>, ms: Seq<Missile>) -> (
    Seq<Asteroid>,
    Seq<SpawnOrder>,
    Seq<Missile>,
    nat,
)
    decreases asts.len(),
{
    if asts.len() == 0 {
        (seq![], seq![], ms, 0)
    } else {
        let (sv, ch, m2, n) = resolution(asts.drop_last(), ms);
        let a = asts.last();
        let j = first_live_hit(a, m2, 0);
        if j < 0 {
            (sv.push(a), ch, m2, n)
        } else {
            (sv, ch + split_orders(a), m2.update(j, spent(m2[j])), n + 1)
        }
    }
}

pub open spec fn saturating_score(score: u64, n: nat) -> u64 {
    if score + n <= u64::MAX {
        (score + n) as u64
    } else {
        u64::MAX
    }
}

pub open spec fn double_count(n: u64) -> u64 {
    if n <= u64::MAX / 2 {
        (2 * n) as u64
    } else {
        u64::MAX
    }
}

/// Where a new wave's asteroid appears from the random draws `x`, `y` and
/// `horizontal`: past the nearer horizontal edge, or the nearer vertical one.
pub open spec fn spawn_spec(width: int, height: int, x: int, y: int, horizontal: bool) -> Vec2i {
    if horizontal {
        Vec2i { x: x as i64, y: (if 2 * y > height { height + SPAWN_OFFSET } else { -SPAWN_OFFSET }) as i64 }
    } else {
        Vec2i { x: (if 2 * x > width { width + SPAWN_OFFSET } else { -SPAWN_OFFSET }) as i64, y: y as i64 }
    }
}

/// The place of a wave's asteroid, from a point on the screen and the
/// choice of edge.
pub fn spawn_position(width: i64, height: i64, x: i64, y: i64, horizontal: bool) -> (r: Vec2i)
    requires
        0 <= width <= MAX_EXTENT,
        0 <= height <= MAX_EXTENT,
        0 <= x <= width,
        0 <= y <= height,
    ensures
        r == spawn_spec(width as int, height as int, x as int, y as int, horizontal),
        -FIELD <= r.x <= FIELD,
        -FIELD <= r.y <= FIELD,
{
    if horizontal {
        Vec2i { x, y: if 2 * y > height { height + SPAWN_OFFSET } else { -SPAWN_OFFSET } }
    } else {
        Vec2i { x: if 2 * x > width { width + SPAWN_OFFSET } else { -SPAWN_OFFSET }, y }
    }
}

pub open spec fn moved_missile(m: Missile, dt: int) -> Missile {
    Missile { vel: m.vel, pos: advance_spec(m.pos, m.vel, dt), hit: m.hit }
}

/// The state of one session.
pub struct Game {
    pub score: u64,
    /// Asteroids in the next wave.
    pub asteroid_count: u64,
    pub asteroids: Vec<Asteroid>,
    pub player: Player,
    pub jet_particles: Vec<JetParticle>,
    pub missiles: Vec<Missile>,
    pub game_over: bool,
    pub width: i64,
    pub height: i64,
}

impl Game {
    pub open spec fn wf(&self) -> bool {
        &&& 0 <= self.width <= MAX_EXTENT
        &&& 0 <= self.height <= MAX_EXTENT
        &&& self.player.wf()
        &&& forall|i: int| 0 <= i < self.asteroids@.len() ==> (#[trigger] self.asteroids@[i]).wf()
        &&& forall|i: int| 0 <= i < self.jet_particles@.len() ==> (#[trigger] self.jet_particles@[i]).wf()
        &&& forall|i: int| 0 <= i < self.missiles@.len() ==> (#[trigger] self.missiles@[i]).wf()
    }

    /// A new session on a `width` by `height` screen: the ship in the
    /// middle, nothing else yet.
    pub fn new(width: i64, height: i64) -> (r: Game)
        requires
            0 <= width <= MAX_EXTENT,
            0 <= height <= MAX_EXTENT,
        ensures
            r.wf(),
            r.score == 0,
            r.asteroid_count == FIRST_WAVE,
            r.asteroids@.len() == 0,
            r.jet_particles@.len() == 0,
            r.missiles@.len() == 0,
            !r.game_over,
            r.player.start_spec(width as int, height as int),
            r.width == width,
            r.height == height,
    {
        Game {
            score: 0,
            asteroid_count: FIRST_WAVE,
            asteroids: Vec::new(),
            player: Player::new(width, height),
            jet_particles: Vec::new(),
            missiles: Vec::new(),
            game_over: false,
            width,
            height,
        }
    }

    /// Moves the projectiles for `dt` microseconds and drops those spent or
    /// out of play.
    pub fn update_missiles(&mut self, dt: i64)
        requires
            old(self).wf(),
            0 <= dt <= MAX_DT,
        ensures
            final(self).wf(),
            final(self).missiles@ == old(self).missiles@.map_values(|m: Missile| moved_missile(m, dt as int)).filter(
                |m: Missile| in_play(m, old(self).width as int, old(self).height as int),
            ),
            final(self).asteroids == old(self).asteroids,
            final(self).player == old(self).player,
            final(self).jet_particles == old(self).jet_particles,
            final(self).score == old(self).score,
            final(self).asteroid_count == old(self).asteroid_count,
            final(self).game_over == old(self).game_over,
            final(self).width == old(self).width,
            final(self).height == old(self).height,
    {
        let ghost s = self.missiles@;
        let ghost f = |m: Missile| moved_missile(m, dt as int);
        let ghost pred = |m: Missile| in_play(m, self.width as int, self.height as int);
        let mut out: Vec<Missile> = Vec::new();
        let n = self.missiles.len();
        let mut i: usize = 0;
        while i < n
            invariant
                old(self).wf(),
                n == s.len(),
                s == old(self).missiles@,
                self.missiles@ == s,
                self.width == old(self).width,
                self.height == old(self).height,
                0 <= dt <= MAX_DT,
                i <= n,
                f == (|m: Missile| moved_missile(m, dt as int)),
                pred == (|m: Missile| in_play(m, self.width as int, self.height as int)),
                out@ == s.take(i as int).map_values(f).filter(pred),
                forall|k: int| 0 <= k < out@.len() ==> (#[trigger] out@[k]).wf(),
            decreases n - i,
        {
            let mut m = self.missiles[i];
            m.update(dt);
            let ghost prev = out@;
            if m.in_play(self.width, self.height) {
                out.push(m);
            }
            proof {
                let t = s.take(i as int + 1).map_values(f);
                assert(t.drop_last() =~= s.take(i as int).map_values(f));
                assert(t.last() == m);
                reveal(Seq::filter);
                assert(out@ == t.filter(pred));
            }
            i += 1;
        }
        assert(s.take(n as int) =~= s);
        self.missiles = out;
    }

    /// Moves, grows and fades the exhaust particles for `dt` microseconds
    /// and drops those that have faded out.
    pub fn update_particles(&mut self, dt: i64)
        requires
            old(self).wf(),
            0 <= dt <= MAX_DT,
        ensures
            final(self).wf(),
            final(self).jet_particles@ == old(self).jet_particles@.map_values(
                |p: JetParticle| p.updated_spec(dt as int),
            ).filter(|p: JetParticle| p.fade > 0),
            final(self).asteroids == old(self).asteroids,
            final(self).player == old(self).player,
            final(self).missiles == old(self).missiles,
            final(self).score == old(self).score,
            final(self).asteroid_count == old(self).asteroid_count,
            final(self).game_over == old(self).game_over,
            final(self).width == old(self).width,
            final(self).height == old(self).height,
    {
        let ghost s = self.jet_particles@;
        let ghost f = |p: JetParticle| p.updated_spec(dt as int);
        let ghost pred = |p: JetParticle| p.fade > 0;
        let mut out: Vec<JetParticle> = Vec::new();
        let n = self.jet_particles.len();
        let mut i: usize = 0;
        while i < n
            invariant
                old(self).wf(),
                n == s.len(),
                s == old(self).jet_particles@,
                self.jet_particles@ == s,
                0 <= dt <= MAX_DT,
                i <= n,
                f == (|p: JetParticle| p.updated_spec(dt as int)),
                pred == (|p: JetParticle| p.fade > 0),
                out@ == s.take(i as int).map_values(f).filter(pred),
                forall|k: int| 0 <= k < out@.len() ==> (#[trigger] out@[k]).wf(),
            decreases n - i,
        {
            let mut p = self.jet_particles[i];
            p.update(dt);
            if p.fade > 0 {
                out.push(p);
            }
            proof {
                let t = s.take(i as int + 1).map_values(f);
                assert(t.drop_last() =~= s.take(i as int).map_values(f));
                assert(t.last() == p);
                reveal(Seq::filter);
                assert(out@ == t.filter(pred));
            }
            i += 1;
        }
        assert(s.take(n as int) =~= s);
        self.jet_particles = out;
    }

    /// Turns the ship as the keys say.
    pub fn turn_player(&mut self, dt: i64, c: Controls)
        requires
            old(self).wf(),
            0 <= dt <= MAX_DT,
        ensures
            final(self).wf(),
            final(self).player.rotation == old(self).player.turned_spec(c, dt as int),
            final(self).player.pos == old(self).player.pos,
            final(self).player.vel == old(self).player.vel,
            final(self).asteroids == old(self).asteroids,
            final(self).missiles == old(self).missiles,
            final(self).jet_particles == old(self).jet_particles,
            final(self).score == old(self).score,
            final(self).game_over == old(self).game_over,
            final(self).asteroid_count == old(self).asteroid_count,
            final(self).width == old(self).width,
            final(self).height == old(self).height,
            final(self).player.jet_timer == old(self).player.jet_timer,
            final(self).player.missile_timer == old(self).player.missile_timer,
            final(self).player.points == old(self).player.points,
    {
        self.player.turn(dt, c);
    }

    /// One frame of the ship, which may add an exhaust particle and a
    /// projectile; see `Player::update`.
    pub fn update_player(&mut self, dt: i64, c: Controls, facing: Dir, exhaust: Dir)
        requires
            old(self).wf(),
            0 <= dt <= MAX_DT,
            facing.wf(),
            exhaust.wf(),
        ensures
            final(self).wf(),
            final(self).player.vel == old(self).player.vel_spec(c, facing, dt as int),
            final(self).player.pos == old(self).player.pos_spec(
                c,
                facing,
                dt as int,
                old(self).width as int,
                old(self).height as int,
            ),
            final(self).player.rotation == old(self).player.rotation,
            old(self).player.emits_spec(c, dt as int) ==> final(self).jet_particles@
                == old(self).jet_particles@.push(
                JetParticle {
                    size: 0,
                    fade: FADE_START,
                    vel: vel_add(
                        old(self).player.thrust_spec(c, facing, dt as int),
                        dir_times(exhaust, EXHAUST_SPEED as int),
                    ),
                    pos: old(self).player.pos,
                },
            ),
            !old(self).player.emits_spec(c, dt as int) ==> final(self).jet_particles@
                == old(self).jet_particles@,
            old(self).player.fires_spec(c, dt as int) ==> final(self).missiles@
                == old(self).missiles@.push(
                Missile {
                    vel: vel_add(
                        old(self).player.vel_spec(c, facing, dt as int),
                        dir_times(facing, MISSILE_SPEED as int),
                    ),
                    pos: old(self).player.pos,
                    hit: false,
                },
            ),
            !old(self).player.fires_spec(c, dt as int) ==> final(self).missiles@ == old(self).missiles@,
            final(self).asteroids == old(self).asteroids,
            final(self).score == old(self).score,
            final(self).game_over == old(self).game_over,
            final(self).asteroid_count == old(self).asteroid_count,
            final(self).width == old(self).width,
            final(self).height == old(self).height,
            final(self).player.jet_timer == old(self).player.jet_spec(c, dt as int),
            final(self).player.missile_timer == old(self).player.cooldown_spec(c, dt as int),
            final(self).player.points == old(self).player.points,
    {
        let w = self.width;
        let h = self.height;
        let ghost jets0 = self.jet_particles@;
        let ghost ms0 = self.missiles@;
        self.player.update(dt, c, facing, exhaust, w, h, &mut self.jet_particles, &mut self.missiles);
        proof {
            assert forall|i: int| 0 <= i < self.jet_particles@.len() implies (#[trigger] self.jet_particles@[i]).wf() by {
                if i < jets0.len() {
                    assert(self.jet_particles@[i] == jets0[i]);
                }
            }
            assert forall|i: int| 0 <= i < self.missiles@.len() implies (#[trigger] self.missiles@[i]).wf() by {
                if i < ms0.len() {
                    assert(self.missiles@[i] == ms0[i]);
                }
            }
        }
    }

    /// Starts a wave when no asteroid is left: one order for a large
    /// asteroid past a random edge for each of `asteroid_count`, which then
    /// doubles. Returns no order while asteroids remain.
    pub fn spawn_wave(&mut self) -> (r: Vec<SpawnOrder>)
        requires
            old(self).wf(),
        ensures
            final(self).wf(),
            old(self).asteroids@.len() == 0 ==> r@.len() == old(self).asteroid_count
                && final(self).asteroid_count == double_count(old(self).asteroid_count),
            old(self).asteroids@.len() != 0 ==> r@.len() == 0 && final(self).asteroid_count
                == old(self).asteroid_count,
            forall|i: int| 0 <= i < r@.len() ==> (#[trigger] r@[i]).size == AsteroidSize::Large
                && exists|x: int, y: int, hz: bool| 0 <= x <= old(self).width && 0 <= y <= old(self).height
                && r@[i].pos == spawn_spec(old(self).width as int, old(self).height as int, x, y, hz),
            final(self).asteroids == old(self).asteroids,
            final(self).missiles == old(self).missiles,
            final(self).jet_particles == old(self).jet_particles,
            final(self).player == old(self).player,
            final(self).score == old(self).score,
            final(self).game_over == old(self).game_over,
            final(self).width == old(self).width,
            final(self).height == old(self).height,
    {
        let mut orders: Vec<SpawnOrder> = Vec::new();
        if self.asteroids.len() != 0 {
            return orders;
        }
        let n = self.asteroid_count;
        let w = self.width;
        let h = self.height;
        let mut k: u64 = 0;
        while k < n
            invariant
                0 <= w <= MAX_EXTENT,
                0 <= h <= MAX_EXTENT,
                w == old(self).width,
                h == old(self).height,
                k <= n,
                orders@.len() == k,
                forall|i: int| 0 <= i < orders@.len() ==> (#[trigger] orders@[i]).size == AsteroidSize::Large
                    && exists|x: int, y: int, hz: bool| 0 <= x <= w && 0 <= y <= h
                    && orders@[i].pos == spawn_spec(w as int, h as int, x, y, hz),
            decreases n - k,
        {
            let x = random_between(0, w);
            let y = random_between(0, h);
            let horizontal = random_between(0, 1_000_000) > 500_000;
            let pos = spawn_position(w, h, x, y, horizontal);
            orders.push(SpawnOrder { size: AsteroidSize::Large, pos });
            proof {
                assert(orders@[k as int].pos == spawn_spec(w as int, h as int, x as int, y as int, horizontal));
            }
            k += 1;
        }
        self.asteroid_count = if n <= u64::MAX / 2 {
            2 * n
        } else {
            u64::MAX
        };
        orders
    }

    /// Creates the asteroid an order asks for, heading along `heading`.
    pub fn launch(&mut self, order: SpawnOrder, heading: Dir)
        requires
            old(self).wf(),
            -FIELD <= order.pos.x <= FIELD,
            -FIELD <= order.pos.y <= FIELD,
            heading.wf(),
        ensures
            final(self).wf(),
            final(self).asteroids@.len() == old(self).asteroids@.len() + 1,
            forall|i: int| 0 <= i < old(self).asteroids@.len() ==> final(self).asteroids@[i] == old(self).asteroids@[i],
            final(self).asteroids@.last().size == order.size,
            final(self).asteroids@.last().pos == order.pos,
            final(self).missiles == old(self).missiles,
            final(self).player == old(self).player,
            final(self).score == old(self).score,
            final(self).game_over == old(self).game_over,
            final(self).jet_particles == old(self).jet_particles,
            final(self).asteroid_count == old(self).asteroid_count,
            final(self).width == old(self).width,
            final(self).height == old(self).height,
            exists|speed: int, spin: int, jitter: Seq<i64>|
                MIN_SPEED <= speed <= MAX_SPEED && -MAX_SPIN <= spin <= MAX_SPIN && jitter_ok(jitter)
                    && #[trigger] final(self).asteroids@.last().launched_spec(order.size, order.pos, heading, speed, spin, jitter),
    {
        let a = Asteroid::new(order.size, order.pos, heading);
        self.asteroids.push(a);
    }

    /// Moves and spins every asteroid for `dt` microseconds.
    pub fn update_asteroids(&mut self, dt: i64)
        requires
            old(self).wf(),
            0 <= dt <= MAX_DT,
        ensures
            final(self).wf(),
            final(self).asteroids@.len() == old(self).asteroids@.len(),
            forall|i: int| 0 <= i < final(self).asteroids@.len() ==> {
                let a = #[trigger] final(self).asteroids@[i];
                let b = old(self).asteroids@[i];
                &&& a.pos == b.moved_spec(dt as int, old(self).width as int, old(self).height as int)
                &&& a.rotation == b.turned_spec(dt as int)
                &&& a.vel == b.vel
                &&& a.size == b.size
                &&& a.points == b.points
                &&& a.orientation == b.orientation
                &&& a.rotation_speed == b.rotation_speed
            },
            final(self).missiles == old(self).missiles,
            final(self).player == old(self).player,
            final(self).score == old(self).score,
            final(self).game_over == old(self).game_over,
            final(self).jet_particles == old(self).jet_particles,
            final(self).asteroid_count == old(self).asteroid_count,
            final(self).width == old(self).width,
            final(self).height == old(self).height,
    {
        let n = self.asteroids.len();
        let mut i: usize = 0;
        while i < n
            invariant
                old(self).wf(),
                self.wf(),
                n == self.asteroids@.len(),
                n == old(self).asteroids@.len(),
                self.width == old(self).width,
                self.height == old(self).height,
                self.missiles == old(self).missiles,
                self.player == old(self).player,
                self.score == old(self).score,
                self.game_over == old(self).game_over,
                self.jet_particles == old(self).jet_particles,
                self.asteroid_count == old(self).asteroid_count,
                0 <= dt <= MAX_DT,
                i <= n,
                forall|k: int| i <= k < n ==> self.asteroids@[k] == old(self).asteroids@[k],
                forall|k: int| 0 <= k < i ==> {
                    let a = #[trigger] self.asteroids@[k];
                    let b = old(self).asteroids@[k];
                    &&& a.pos == b.moved_spec(dt as int, old(self).width as int, old(self).height as int)
                    &&& a.rotation == b.turned_spec(dt as int)
                    &&& a.vel == b.vel
                    &&& a.size == b.size
                    &&& a.points == b.points
                    &&& a.orientation == b.orientation
                    &&& a.rotation_speed == b.rotation_speed
                },
            decreases n - i,
        {
            let w = self.width;
            let h = self.height;
            self.asteroids[i].update(dt, w, h);
            i += 1;
        }
    }

    /// Sets the cosine and sine of asteroid `i`'s angle.
    pub fn orient(&mut self, i: usize, orientation: Dir)
        requires
            old(self).wf(),
            i < old(self).asteroids@.len(),
            orientation.wf(),
        ensures
            final(self).wf(),
            final(self).asteroids@.len() == old(self).asteroids@.len(),
            final(self).asteroids@[i as int].orientation == orientation,
            final(self).asteroids@[i as int].pos == old(self).asteroids@[i as int].pos,
            forall|k: int| 0 <= k < old(self).asteroids@.len() && k != i ==> final(self).asteroids@[k] == old(self).asteroids@[k],
            final(self).missiles == old(self).missiles,
            final(self).player == old(self).player,
            final(self).score == old(self).score,
            final(self).game_over == old(self).game_over,
            final(self).jet_particles == old(self).jet_particles,
            final(self).asteroid_count == old(self).asteroid_count,
            final(self).width == old(self).width,
            final(self).height == old(self).height,
            final(self).asteroids@[i as int].vel == old(self).asteroids@[i as int].vel,
            final(self).asteroids@[i as int].size == old(self).asteroids@[i as int].size,
            final(self).asteroids@[i as int].points == old(self).asteroids@[i as int].points,
            final(self).asteroids@[i as int].rotation == old(self).asteroids@[i as int].rotation,
            final(self).asteroids@[i as int].rotation_speed == old(self).asteroids@[i as int].rotation_speed,
    {
        self.asteroids[i].set_orientation(orientation);
    }

    /// Ends the session when any asteroid holds the ship's position.
    pub fn check_player(&mut self)
        requires
            old(self).wf(),
        ensures
            final(self).wf(),
            final(self).game_over == (old(self).game_over || exists|i: int|
                0 <= i < old(self).asteroids@.len() && (#[trigger] old(self).asteroids@[i]).contains_spec(old(self).player.pos)),
            final(self).asteroids == old(self).asteroids,
            final(self).missiles == old(self).missiles,
            final(self).player == old(self).player,
            final(self).score == old(self).score,
    {
        let n = self.asteroids.len();
        let mut i: usize = 0;
        let mut hit = false;
        while i < n
            invariant
                self == old(self),
                self.wf(),
                n == self.asteroids@.len(),
                i <= n,
                hit == exists|k: int| 0 <= k < i && (#[trigger] self.asteroids@[k]).contains_spec(self.player.pos),
            decreases n - i,
        {
            let c = self.asteroids[i].point_collision(self.player.pos);
            if c {
                hit = true;
            }
            i += 1;
        }
        if hit {
            self.game_over = true;
        }
    }

    /// Hit resolution: each asteroid in order is destroyed by the first live
    /// projectile inside it, which is spent; every destruction scores a
    /// point and orders the pieces, which this returns. Spent projectiles
    /// leave play.
    pub fn resolve_hits(&mut self) -> (r: Vec<SpawnOrder>)
        requires
            old(self).wf(),
        ensures
            final(self).wf(),
            final(self).asteroids@ == resolution(old(self).asteroids@, old(self).missiles@).0,
            r@ == resolution(old(self).asteroids@, old(self).missiles@).1,
            final(self).missiles@ == resolution(old(self).asteroids@, old(self).missiles@).2.filter(
                |m: Missile| !m.hit,
            ),
            final(self).score == saturating_score(
                old(self).score,
                resolution(old(self).asteroids@, old(self).missiles@).3,
            ),
            final(self).player == old(self).player,
            final(self).jet_particles == old(self).jet_particles,
            final(self).asteroid_count == old(self).asteroid_count,
            final(self).game_over == old(self).game_over,
            final(self).jet_particles == old(self).jet_particles,
            final(self).asteroid_count == old(self).asteroid_count,
            final(self).width == old(self).width,
            final(self).height == old(self).height,
            final(self).width == old(self).width,
            final(self).height == old(self).height,
    {
        let mut rest: Vec<Asteroid> = Vec::new();
        std::mem::swap(&mut rest, &mut self.asteroids);
        let ghost asts = rest@;
        let ghost ms0 = self.missiles@;
        let mut orders: Vec<SpawnOrder> = Vec::new();
        let n = rest.len();
        let mut i: usize = 0;
        while i < n
            invariant
                old(self).wf(),
                asts == old(self).asteroids@,
                ms0 == old(self).missiles@,
                n == asts.len(),
                i <= n,
                rest@ == asts.skip(i as int),
                self.asteroids@ == resolution(asts.take(i as int), ms0).0,
                orders@ == resolution(asts.take(i as int), ms0).1,
                self.missiles@ == resolution(asts.take(i as int), ms0).2,
                self.score == saturating_score(old(self).score, resolution(asts.take(i as int), ms0).3),
                forall|k: int| 0 <= k < self.asteroids@.len() ==> (#[trigger] self.asteroids@[k]).wf(),
                forall|k: int| 0 <= k < self.missiles@.len() ==> (#[trigger] self.missiles@[k]).wf(),
                self.player == old(self).player,
                self.jet_particles == old(self).jet_particles,
                self.asteroid_count == old(self).asteroid_count,
                self.game_over == old(self).game_over,
                self.width == old(self).width,
                self.height == old(self).height,
            decreases n - i,
        {
            let ghost ms = self.missiles@;
            proof {
                assert(asts.take(i as int + 1).drop_last() =~= asts.take(i as int));
                assert(rest@[0] == asts[i as int]);
            }
            let a = rest.remove(0);
            assert(rest@ =~= asts.skip(i as int + 1));
            let m = self.missiles.len();
            let mut j: usize = 0;
            let mut found = false;
            while j < m && !found
                invariant
                    a.wf(),
                    m == self.missiles@.len(),
                    self.missiles@ == ms,
                    forall|k: int| 0 <= k < self.missiles@.len() ==> (#[trigger] self.missiles@[k]).wf(),
                    j <= m,
                    !found ==> first_live_hit(a, ms, 0) == first_live_hit(a, ms, j as int),
                    found ==> j < m && first_live_hit(a, ms, 0) == j,
                decreases m - j + (if found { 0int } else { 1int }),
            {
                let mm = self.missiles[j];
                if !mm.hit && a.point_collision(mm.pos) {
                    assert(first_live_hit(a, ms, j as int) == j as int);
                    found = true;
                } else {
                    j += 1;
                }
            }
            proof {
                let t = asts.take(i as int + 1);
                assert(t.drop_last() =~= asts.take(i as int));
                assert(t.last() == a);
                if !found {
                    assert(first_live_hit(a, ms, m as int) == -1);
                }
                let prev = resolution(asts.take(i as int), ms0);
                assert(prev.2 == ms);
                assert(found ==> resolution(t, ms0) == (prev.0, prev.1 + split_orders(a), ms.update(j as int, spent(ms[j as int])), prev.3 + 1));
                assert(!found ==> resolution(t, ms0) == (prev.0.push(a), prev.1, ms, prev.3));
            }
            if found {
                let mm = self.missiles[j];
                self.missiles[j] = Missile { vel: mm.vel, pos: mm.pos, hit: true };
                assert(self.missiles@ =~= ms.update(j as int, spent(ms[j as int])));
                let ghost o0 = orders@;
                match a.size.child() {
                    Some(c) => {
                        orders.push(SpawnOrder { size: c, pos: a.pos });
                        orders.push(SpawnOrder { size: c, pos: a.pos });
                    },
                    None => {},
                }
                assert(orders@ =~= o0 + split_orders(a));
                if self.score < u64::MAX {
                    self.score = self.score + 1;
                }
            } else {
                self.asteroids.push(a);
            }
            i += 1;
        }
        assert(asts.take(n as int) =~= asts);
        let ghost s = self.missiles@;
        let ghost pred = |m: Missile| !m.hit;
        let mut out: Vec<Missile> = Vec::new();
        let m = self.missiles.len();
        let mut k: usize = 0;
        while k < m
            invariant
                m == s.len(),
                self.missiles@ == s,
                forall|q: int| 0 <= q < s.len() ==> (#[trigger] s[q]).wf(),
                k <= m,
                pred == (|m: Missile| !m.hit),
                out@ == s.take(k as int).filter(pred),
                forall|q: int| 0 <= q < out@.len() ==> (#[trigger] out@[q]).wf(),
            decreases m - k,
        {
            let mm = self.missiles[k];
            if !mm.hit {
                out.push(mm);
            }
            proof {
                let t = s.take(k as int + 1);
                assert(t.drop_last() =~= s.take(k as int));
                reveal(Seq::filter);
            }
            k += 1;
        }
        assert(s.take(m as int) =~= s);
        self.missiles = out;
        orders
    }
}

/// The tiers of splitting: a large asteroid leaves two medium ones where it
/// stood, a medium one two small ones, a small one nothing.
pub proof fn lemma_split_tiers(a: Asteroid)
    ensures
        a.size == AsteroidSize::Large ==> split_orders(a) == seq![
            SpawnOrder { size: AsteroidSize::Medium, pos: a.pos },
            SpawnOrder { size: AsteroidSize::Medium, pos: a.pos },
        ],
        a.size == AsteroidSize::Medium ==> split_orders(a) == seq![
            SpawnOrder { size: AsteroidSize::Small, pos: a.pos },
            SpawnOrder { size: AsteroidSize::Small, pos: a.pos },
        ],
        a.size == AsteroidSize::Small ==> split_orders(a).len() == 0,
{
}

/// Destroying one asteroid: when a live projectile lies inside it, hit
/// resolution removes it, orders its pieces, scores exactly one point and
/// spends exactly one projectile, the first live one inside it.
pub proof fn lemma_single_split(a: Asteroid, ms: Seq<Missile>)
    requires
        first_live_hit(a, ms, 0) >= 0,
    ensures
        ({
            let j = first_live_hit(a, ms, 0);
            let r = resolution(seq![a], ms);
            &&& 0 <= j < ms.len()
            &&& !ms[j].hit
            &&& r.0.len() == 0
            &&& r.1 == split_orders(a)
            &&& r.2 == ms.update(j, spent(ms[j]))
            &&& r.3 == 1
        }),
{
    let t = seq![a];
    assert(t.drop_last() =~= Seq::<Asteroid>::empty());
    assert(t.last() == a);
    assert(resolution(t.drop_last(), ms) == (Seq::<Asteroid>::empty(), Seq::<SpawnOrder>::empty(), ms, 0nat));
    lemma_first_live_hit_found(a, ms, 0);
}

/// Destroying an asteroid anywhere in the field: when hit resolution
/// reaches asteroid `a` after the asteroids `before` it and a live
/// projectile lies inside `a`, then `a` is not kept, its pieces (two of the
/// next tier where it stood, none for a small one) are appended to the
/// orders, exactly one point is scored and exactly that one projectile is
/// spent. Otherwise `a` is kept and nothing else changes.
pub proof fn lemma_resolution_step(before: Seq<Asteroid>, a: Asteroid, ms: Seq<Missile>)
    ensures
        ({
            let p = resolution(before, ms);
            let r = resolution(before.push(a), ms);
            let j = first_live_hit(a, p.2, 0);
            &&& j >= 0 ==> {
                &&& j < p.2.len()
                &&& !p.2[j].hit
                &&& a.contains_spec(p.2[j].pos)
                &&& r.0 == p.0
                &&& r.1 == p.1 + split_orders(a)
                &&& r.2 == p.2.update(j, spent(p.2[j]))
                &&& r.3 == p.3 + 1
            }
            &&& j < 0 ==> {
                &&& r.0 == p.0.push(a)
                &&& r.1 == p.1
                &&& r.2 == p.2
                &&& r.3 == p.3
            }
        }),
{
    let t = before.push(a);
    assert(t.drop_last() =~= before);
    assert(t.last() == a);
    let p = resolution(before, ms);
    if first_live_hit(a, p.2, 0) >= 0 {
        lemma_first_live_hit_found(a, p.2, 0);
    }
}

/// A live projectile at the center of an asteroid with an outline destroys
/// it: one pass over that asteroid alone scores one point, spends the
/// projectile and orders the asteroid's pieces where it stood.
pub proof fn lemma_center_hit(a: Asteroid, m: Missile)
    requires
        a.points@.len() > 0,
        !m.hit,
        m.pos == a.pos,
    ensures
        ({
            let r = resolution(seq![a], seq![m]);
            &&& r.0.len() == 0
            &&& r.1 == split_orders(a)
            &&& r.2 == seq![spent(m)]
            &&& r.3 == 1
        }),
{
    crate::asteroid::lemma_contains_center(a);
    assert(first_live_hit(a, seq![m], 0) == 0);
    lemma_single_split(a, seq![m]);
    assert(seq![m].update(0, spent(m)) =~= seq![spent(m)]);
}

proof fn lemma_first_live_hit_found(a: Asteroid, ms: Seq<Missile>, i: int)
    requires
        first_live_hit(a, ms, i) >= 0,
    ensures
        i <= first_live_hit(a, ms, i) < ms.len(),
        !ms[first_live_hit(a, ms, i)].hit,
        a.contains_spec(ms[first_live_hit(a, ms, i)].pos),
    decreases ms.len() - i,
{
    if i < 0 || i >= ms.len() {
    } else if !ms[i].hit && a.contains_spec(ms[i].pos) {
    } else {
        lemma_first_live_hit_found(a, ms, i + 1);
    }
}

/// The number of spent projectiles in `ms`.
pub open spec fn spent_count(ms: Seq<Missile>) -> nat
    decreases ms.len(),
{
    if ms.len() == 0 {
        0
    } else {
        spent_count(ms.drop_last()) + if ms.last().hit {
            1nat
        } else {
            0nat
        }
    }
}

proof fn lemma_spend_one(ms: Seq<Missile>, j: int)
    requires
        0 <= j < ms.len(),
        !ms[j].hit,
    ensures
        spent_count(ms.update(j, spent(ms[j]))) == spent_count(ms) + 1,
    decreases ms.len(),
{
    let u = ms.update(j, spent(ms[j]));
    if j == ms.len() - 1 {
        assert(u.drop_last() =~= ms.drop_last());
    } else {
        assert(u.drop_last() =~= ms.drop_last().update(j, spent(ms[j])));
        lemma_spend_one(ms.drop_last(), j);
    }
}

/// Hit resolution keeps its books: every asteroid either survives or is
/// destroyed, each destruction spends exactly one more projectile and
/// scores one point, no projectile appears or vanishes, and the pieces
/// ordered are those of the destroyed asteroids.
pub proof fn lemma_resolution_accounting(asts: Seq<Asteroid>, ms: Seq<Missile>)
    ensures
        ({
            let r = resolution(asts, ms);
            &&& r.0.len() + r.3 == asts.len()
            &&& r.2.len() == ms.len()
            &&& spent_count(r.2) == spent_count(ms) + r.3
            &&& r.1.len() <= 2 * r.3
        }),
    decreases asts.len(),
{
    if asts.len() > 0 {
        lemma_resolution_accounting(asts.drop_last(), ms);
        let (sv, ch, m2, n) = resolution(asts.drop_last(), ms);
        let a = asts.last();
        let j = first_live_hit(a, m2, 0);
        if j >= 0 {
            lemma_first_live_hit_found(a, m2, 0);
            lemma_spend_one(m2, j);
        }
    }
}

/// The size of wave `k`, counting from the first.
pub open spec fn wave_size(k: nat) -> u64
    decreases k,
{
    if k == 0 {
        FIRST_WAVE
    } else {
        double_count(wave_size((k - 1) as nat))
    }
}

/// Waves double without a cap: wave `k` holds `2^(k+1)` asteroids, for as
/// long as that fits in a `u64` counter.
pub proof fn lemma_wave_doubling(k: nat)
    requires
        k < 63,
    ensures
        wave_size(k) == 2 * pow2(k),
    decreases k,
{
    lemma2_to64();
    if k > 0 {
        lemma_wave_doubling((k - 1) as nat);
        lemma_pow2_unfold(k);
        lemma2_to64_rest();
        if k - 1 < 61 {
            lemma_pow2_strictly_increases((k - 1) as nat, 61);
        }
    }
}

} // verus!
