//! The ship, its exhaust particles and its projectiles.
use vstd::prelude::*;
use crate::fixed::{
    Vec2i, Dir, clamp, clamp_spec, floor_div, point_in_limit, speed_ok, scale_by_time,
    time_scaled, MAX_DT, MAX_EXTENT, VMAX, LIMIT,
};
use crate::motion::{advance, advance_spec, wrap_axis, wrap_spec};
use crate::asteroid::{TURN, FIELD};

verus! {

/// Turn rate, in milliradians per second.
pub const TURN_RATE: i64 = 5000;

/// Thrust, in ticks per second squared, for each unit of the facing vector.
pub const THRUST: i64 = 100;

/// Exhaust speed relative to the ship, in ticks per second per unit of direction.
pub const EXHAUST_SPEED: i64 = 50;

/// Projectile speed relative to the ship, in ticks per second per unit of direction.
pub const MISSILE_SPEED: i64 = 240;

/// Time between exhaust particles, in microseconds.
pub const JET_PERIOD: i64 = 100_000;

/// Time between shots, in microseconds.
pub const MISSILE_PERIOD: i64 = 300_000;

/// Lifetime of an exhaust particle, in microseconds.
pub const FADE_START: i64 = 1_000_000;

/// Growth of an exhaust particle, in ticks per second.
pub const GROWTH: i64 = 10_000;

/// Wrap margins of the ship, in ticks.
pub const SHIP_EXIT: i64 = 20_000;
pub const SHIP_ENTER: i64 = 18_000;

/// Margin around the screen within which projectiles live, in ticks.
pub const MISSILE_MARGIN: i64 = 10_000;

/// The keys held during a frame.
#[derive(Clone, Copy, Debug, PartialEq, Eq, Structural)]
pub struct Controls {
    pub left: bool,
    pub right: bool,
    pub thrust: bool,
    pub brake: bool,
    pub fire: bool,
}

/// An exhaust particle.
#[derive(Clone, Copy, Debug, PartialEq, Eq, Structural)]
pub struct JetParticle {
    /// Radius, in ticks.
    pub size: i64,
    /// Remaining life, in microseconds.
    pub fade: i64,
    pub vel: Vec2i,
    pub pos: Vec2i,
}

impl JetParticle {
    pub open spec fn wf(&self) -> bool {
        point_in_limit(self.pos) && speed_ok(self.vel) && 0 <= self.size <= LIMIT && 0 < self.fade
            <= FADE_START
    }

    pub fn new(pos: Vec2i, vel: Vec2i) -> (r: JetParticle)
        requires
            point_in_limit(pos),
            speed_ok(vel),
        ensures
            r.wf(),
            r == (JetParticle { size: 0, fade: FADE_START, vel, pos }),
    {
        JetParticle { size: 0, fade: FADE_START, vel, pos }
    }

    /// The particle after `dt` microseconds: moved, grown and faded.
    pub open spec fn updated_spec(&self, dt: int) -> JetParticle {
        JetParticle {
            size: clamp_spec(self.size + time_scaled(GROWTH as int, dt), 0, LIMIT as int) as i64,
            fade: (self.fade - dt) as i64,
            vel: self.vel,
            pos: advance_spec(self.pos, self.vel, dt),
        }
    }

    pub fn update(&mut self, dt: i64)
        requires
            old(self).wf(),
            0 <= dt <= MAX_DT,
        ensures
            *final(self) == old(self).updated_spec(dt as int),
    {
        self.pos = advance(self.pos, self.vel, dt);
        self.size = clamp(self.size + scale_by_time(GROWTH, dt), 0, LIMIT);
        self.fade = self.fade - dt;
    }
}

/// A projectile.
#[derive(Clone, Copy, Debug, PartialEq, Eq, Structural)]
pub struct Missile {
    pub vel: Vec2i,
    pub pos: Vec2i,
    pub hit: bool,
}

/// Whether a projectile is still in play: not spent and within the margin
/// around a `width` by `height` screen.
pub open spec fn in_play(m: Missile, width: int, height: int) -> bool {
    !m.hit && m.pos.x > -MISSILE_MARGIN && m.pos.y > -MISSILE_MARGIN && m.pos.x < width
        + MISSILE_MARGIN && m.pos.y < height + MISSILE_MARGIN
}

impl Missile {
    pub open spec fn wf(&self) -> bool {
        point_in_limit(self.pos) && speed_ok(self.vel)
    }

    pub fn update(&mut self, dt: i64)
        requires
            old(self).wf(),
            0 <= dt <= MAX_DT,
        ensures
            final(self).wf(),
            final(self).pos == advance_spec(old(self).pos, old(self).vel, dt as int),
            final(self).vel == old(self).vel,
            final(self).hit == old(self).hit,
    {
        self.pos = advance(self.pos, self.vel, dt);
    }

    pub fn in_play(&self, width: i64, height: i64) -> (r: bool)
        requires
            0 <= width <= MAX_EXTENT,
            0 <= height <= MAX_EXTENT,
        ensures
            r == in_play(*self, width as int, height as int),
    {
        !self.hit && self.pos.x > -MISSILE_MARGIN && self.pos.y > -MISSILE_MARGIN && self.pos.x
            < width + MISSILE_MARGIN && self.pos.y < height + MISSILE_MARGIN
    }
}

/// The ship.
#[derive(Debug)]
pub struct Player {
    pub pos: Vec2i,
    pub vel: Vec2i,
    /// Angle from pointing up, in milliradians, within one turn.
    pub rotation: i64,
    /// Time until the next exhaust particle, in microseconds.
    pub jet_timer: i64,
    /// Time until the weapon is ready, in microseconds; any negative value means ready.
    pub missile_timer: i64,
    /// The outline around the ship's center, pointing up, in ticks.
    pub points: Vec<Vec2i>,
}

/// The ship's outline: a four-point arrow around its center, pointing up.
pub open spec fn ship_outline() -> Seq<Vec2i> {
    seq![
        Vec2i { x: 0, y: -10_000i64 },
        Vec2i { x: 6_000, y: 10_000 },
        Vec2i { x: 0, y: 2_000 },
        Vec2i { x: -6_000i64, y: 10_000 },
    ]
}

pub open spec fn keep_in_turn(r: int) -> int {
    if r >= TURN {
        r - TURN
    } else if r < 0 {
        r + TURN
    } else {
        r
    }
}

pub open spec fn vel_add(v: Vec2i, d: Vec2i) -> Vec2i {
    Vec2i {
        x: clamp_spec(v.x + d.x, -VMAX as int, VMAX as int) as i64,
        y: clamp_spec(v.y + d.y, -VMAX as int, VMAX as int) as i64,
    }
}

pub open spec fn dir_times(d: Dir, k: int) -> Vec2i {
    Vec2i { x: (d.x * k) as i64, y: (d.y * k) as i64 }
}

fn add_vel(v: Vec2i, d: Vec2i) -> (r: Vec2i)
    requires
        speed_ok(v),
        speed_ok(d),
    ensures
        r == vel_add(v, d),
        speed_ok(r),
{
    Vec2i { x: clamp(v.x + d.x, -VMAX, VMAX), y: clamp(v.y + d.y, -VMAX, VMAX) }
}

impl Player {
    pub open spec fn wf(&self) -> bool {
        &&& -FIELD <= self.pos.x <= FIELD
        &&& -FIELD <= self.pos.y <= FIELD
        &&& speed_ok(self.vel)
        &&& 0 <= self.rotation < TURN
        &&& 0 <= self.jet_timer <= JET_PERIOD
        &&& -MAX_DT <= self.missile_timer <= MISSILE_PERIOD
    }

    /// `self` is a ship at rest in the middle of a `width` by `height`
    /// screen, pointing up, with its outline.
    pub open spec fn start_spec(&self, width: int, height: int) -> bool {
        &&& self.pos == (Vec2i { x: (width / 2) as i64, y: (height / 2) as i64 })
        &&& self.vel == (Vec2i { x: 0, y: 0 })
        &&& self.rotation == 0
        &&& self.jet_timer == JET_PERIOD
        &&& self.missile_timer == 0
        &&& self.points@ == ship_outline()
    }

    /// A ship at rest in the middle of a `width` by `height` screen, pointing up.
    pub fn new(width: i64, height: i64) -> (r: Player)
        requires
            0 <= width <= MAX_EXTENT,
            0 <= height <= MAX_EXTENT,
        ensures
            r.wf(),
            r.start_spec(width as int, height as int),
    {
        let points: Vec<Vec2i> = vec![
            Vec2i { x: 0, y: -10_000 },
            Vec2i { x: 6_000, y: 10_000 },
            Vec2i { x: 0, y: 2_000 },
            Vec2i { x: -6_000, y: 10_000 },
        ];
        assert(points@ =~= ship_outline());
        Player {
            points,
            pos: Vec2i { x: width / 2, y: height / 2 },
            vel: Vec2i { x: 0, y: 0 },
            rotation: 0,
            jet_timer: JET_PERIOD,
            missile_timer: 0,
        }
    }

    /// The angle after the turn keys were held for `dt` microseconds.
    pub open spec fn turned_spec(&self, c: Controls, dt: int) -> int {
        let d = time_scaled(TURN_RATE as int, dt);
        let r1 = if c.left {
            keep_in_turn(self.rotation - d)
        } else {
            self.rotation as int
        };
        if c.right {
            keep_in_turn(r1 + d)
        } else {
            r1
        }
    }

    /// Turns the ship left and right as the keys say.
    pub fn turn(&mut self, dt: i64, c: Controls)
        requires
            old(self).wf(),
            0 <= dt <= MAX_DT,
        ensures
            final(self).wf(),
            final(self).rotation == old(self).turned_spec(c, dt as int),
            final(self).pos == old(self).pos,
            final(self).vel == old(self).vel,
            final(self).jet_timer == old(self).jet_timer,
            final(self).missile_timer == old(self).missile_timer,
            final(self).points == old(self).points,
    {
        let d = scale_by_time(TURN_RATE, dt);
        if c.left {
            let mut r = self.rotation - d;
            if r < 0 {
                r = r + TURN;
            }
            self.rotation = r;
        }
        if c.right {
            let mut r = self.rotation + d;
            if r >= TURN {
                r = r - TURN;
            }
            self.rotation = r;
        }
    }

    /// The velocity after thrust along `facing`.
    pub open spec fn thrust_spec(&self, c: Controls, facing: Dir, dt: int) -> Vec2i {
        if c.thrust {
            vel_add(
                self.vel,
                Vec2i {
                    x: time_scaled(facing.x * THRUST, dt) as i64,
                    y: time_scaled(facing.y * THRUST, dt) as i64,
                },
            )
        } else {
            self.vel
        }
    }

    /// The velocity after thrust along `facing` and braking.
    pub open spec fn vel_spec(&self, c: Controls, facing: Dir, dt: int) -> Vec2i {
        let v1 = self.thrust_spec(c, facing, dt);
        if c.brake {
            Vec2i { x: (v1.x * 99 / 100) as i64, y: (v1.y * 99 / 100) as i64 }
        } else {
            v1
        }
    }

    /// The exhaust timer after the frame: it runs down only while thrusting,
    /// and starts over when a particle is emitted.
    pub open spec fn jet_spec(&self, c: Controls, dt: int) -> int {
        if !c.thrust {
            self.jet_timer as int
        } else if self.jet_timer - dt < 0 {
            JET_PERIOD as int
        } else {
            self.jet_timer - dt
        }
    }

    /// The weapon's cooldown after the frame: it runs down every frame
    /// (saturating at `-MAX_DT`) and starts over when a shot is fired.
    pub open spec fn cooldown_spec(&self, c: Controls, dt: int) -> int {
        let t = clamp_spec(self.missile_timer - dt, -MAX_DT as int, MISSILE_PERIOD as int);
        if c.fire && t < 0 {
            MISSILE_PERIOD as int
        } else {
            t
        }
    }

    /// Whether this frame emits an exhaust particle.
    pub open spec fn emits_spec(&self, c: Controls, dt: int) -> bool {
        c.thrust && self.jet_timer - dt < 0
    }

    /// Whether this frame fires a projectile.
    pub open spec fn fires_spec(&self, c: Controls, dt: int) -> bool {
        c.fire && self.missile_timer - dt < 0
    }

    /// The position after the frame's motion and wrap-around.
    pub open spec fn pos_spec(&self, c: Controls, facing: Dir, dt: int, width: int, height: int) -> Vec2i {
        let p = advance_spec(self.pos, self.vel_spec(c, facing, dt), dt);
        Vec2i {
            x: wrap_spec(p.x as int, SHIP_EXIT as int, SHIP_ENTER as int, width) as i64,
            y: wrap_spec(p.y as int, SHIP_EXIT as int, SHIP_ENTER as int, height) as i64,
        }
    }

    /// One frame of the ship: thrust, exhaust, braking, firing, motion.
    /// `facing` is the unit vector the ship points along and `exhaust` the
    /// direction in which a new exhaust particle leaves it.
    pub fn update(
        &mut self,
        dt: i64,
        c: Controls,
        facing: Dir,
        exhaust: Dir,
        width: i64,
        height: i64,
        jets: &mut Vec<JetParticle>,
        missiles: &mut Vec<Missile>,
    )
        requires
            old(self).wf(),
            0 <= dt <= MAX_DT,
            facing.wf(),
            exhaust.wf(),
            0 <= width <= MAX_EXTENT,
            0 <= height <= MAX_EXTENT,
        ensures
            final(self).wf(),
            final(self).rotation == old(self).rotation,
            final(self).vel == old(self).vel_spec(c, facing, dt as int),
            final(self).pos == old(self).pos_spec(c, facing, dt as int, width as int, height as int),
            old(self).emits_spec(c, dt as int) ==> final(jets)@ == old(jets)@.push(
                JetParticle {
                    size: 0,
                    fade: FADE_START,
                    vel: vel_add(old(self).thrust_spec(c, facing, dt as int), dir_times(exhaust, EXHAUST_SPEED as int)),
                    pos: old(self).pos,
                },
            ),
            !old(self).emits_spec(c, dt as int) ==> final(jets)@ == old(jets)@,
            old(self).fires_spec(c, dt as int) ==> final(missiles)@ == old(missiles)@.push(
                Missile {
                    vel: vel_add(old(self).vel_spec(c, facing, dt as int), dir_times(facing, MISSILE_SPEED as int)),
                    pos: old(self).pos,
                    hit: false,
                },
            ),
            !old(self).fires_spec(c, dt as int) ==> final(missiles)@ == old(missiles)@,
            final(self).jet_timer == old(self).jet_spec(c, dt as int),
            final(self).missile_timer == old(self).cooldown_spec(c, dt as int),
            final(self).points == old(self).points,
    {
        if c.thrust {
            let dx = scale_by_time(facing.x * THRUST, dt);
            let dy = scale_by_time(facing.y * THRUST, dt);
            self.vel = add_vel(self.vel, Vec2i { x: dx, y: dy });
            self.jet_timer = self.jet_timer - dt;
            if self.jet_timer < 0 {
                let out = add_vel(
                    self.vel,
                    Vec2i { x: exhaust.x * EXHAUST_SPEED, y: exhaust.y * EXHAUST_SPEED },
                );
                jets.push(JetParticle::new(self.pos, out));
                self.jet_timer = JET_PERIOD;
            }
        }
        if c.brake {
            self.vel = Vec2i { x: floor_div(self.vel.x * 99, 100), y: floor_div(self.vel.y * 99, 100) };
        }
        self.missile_timer = clamp(self.missile_timer - dt, -MAX_DT, MISSILE_PERIOD);
        if c.fire && self.missile_timer < 0 {
            self.missile_timer = MISSILE_PERIOD;
            missiles.push(
                Missile {
                    pos: self.pos,
                    vel: add_vel(
                        self.vel,
                        Vec2i { x: facing.x * MISSILE_SPEED, y: facing.y * MISSILE_SPEED },
                    ),
                    hit: false,
                },
            );
        }
        let p = advance(self.pos, self.vel, dt);
        self.pos = Vec2i {
            x: wrap_axis(p.x, SHIP_EXIT, SHIP_ENTER, width),
            y: wrap_axis(p.y, SHIP_EXIT, SHIP_ENTER, height),
        };
    }
}

pub open spec fn no_keys() -> Controls {
    Controls { left: false, right: false, thrust: false, brake: false, fire: false }
}

/// With no key held, a ship at rest on the screen neither moves, turns nor
/// speeds up in a frame, emits and fires nothing, keeps its exhaust timer
/// and only runs its weapon cooldown down; the state it is left in meets
/// these conditions again, so it stays where it is however many frames pass.
pub proof fn lemma_idle_ship_stays(p: Player, facing: Dir, dt: int, width: int, height: int)
    requires
        p.wf(),
        0 <= dt <= MAX_DT,
        p.vel == (Vec2i { x: 0, y: 0 }),
        0 <= p.pos.x <= width,
        0 <= p.pos.y <= height,
    ensures
        p.turned_spec(no_keys(), dt) == p.rotation,
        p.vel_spec(no_keys(), facing, dt) == p.vel,
        p.pos_spec(no_keys(), facing, dt, width, height) == p.pos,
        p.jet_spec(no_keys(), dt) == p.jet_timer,
        p.cooldown_spec(no_keys(), dt) == clamp_spec(p.missile_timer - dt, -MAX_DT as int, MISSILE_PERIOD as int),
        !p.emits_spec(no_keys(), dt),
        !p.fires_spec(no_keys(), dt),
{
    assert(time_scaled(0, dt) == 0);
}

} // verus!
