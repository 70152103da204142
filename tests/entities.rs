use asteroids::asteroid::{gen_asteroid, Asteroid, AsteroidSize, MAX_SPEED, MIN_SPEED, RADIUS};
use asteroids::fixed::{Dir, Vec2i, ONE};
use asteroids::motion::wrap_axis;
use asteroids::player::{Controls, JetParticle, Missile, Player, FADE_START, MISSILE_PERIOD};

const UNIT: i64 = 1000;

fn still(size: AsteroidSize, x: i64, y: i64) -> Asteroid {
    let mut a = Asteroid::from_parts(size, Vec2i { x, y }, Dir { x: ONE, y: 0 }, MIN_SPEED, 0, &vec![0; 10]);
    a.vel = Vec2i { x: 0, y: 0 };
    a
}

fn no_keys() -> Controls {
    Controls { left: false, right: false, thrust: false, brake: false, fire: false }
}

#[test]
fn tiers_scale_and_split() {
    assert_eq!(AsteroidSize::Large.scale(), 10);
    assert_eq!(AsteroidSize::Medium.scale(), 5);
    assert_eq!(AsteroidSize::Small.scale(), 2);
    assert_eq!(AsteroidSize::Large.margin_exit(), 150 * UNIT);
    assert_eq!(AsteroidSize::Large.margin_enter(), 130 * UNIT);
    assert_eq!(AsteroidSize::Large.child(), Some(AsteroidSize::Medium));
    assert_eq!(AsteroidSize::Medium.child(), Some(AsteroidSize::Small));
    assert_eq!(AsteroidSize::Small.child(), None);
}

#[test]
fn outline_without_jitter() {
    let pts = gen_asteroid(&vec![0; 10]);
    assert_eq!(pts.len(), 10);
    // the first vertex is turned ten times: a full turn of 6.28 radians
    assert_eq!(pts[0], Vec2i { x: 10_000, y: -30 });
    // the last vertex is turned once
    assert_eq!(pts[9], Vec2i { x: 8_090, y: 5_880 });
    assert_eq!(pts[4], Vec2i { x: -8_100, y: -5_860 });
    assert_eq!(RADIUS, 10_000);
}

#[test]
fn outline_jitter_changes_radius() {
    let mut j = vec![0; 10];
    j[0] = 3000;
    let pts = gen_asteroid(&j);
    assert_eq!(pts[0], Vec2i { x: 13_000, y: -39 });
}

#[test]
fn launch_velocity_follows_the_heading() {
    let a = Asteroid::from_parts(AsteroidSize::Large, Vec2i { x: 0, y: 0 }, Dir { x: ONE, y: 0 }, 60_000, 500, &vec![0; 10]);
    assert_eq!(a.vel, Vec2i { x: 60_000, y: 0 });
    let b = Asteroid::from_parts(AsteroidSize::Large, Vec2i { x: 0, y: 0 }, Dir { x: 600, y: -800 }, 50_000, 0, &vec![0; 10]);
    assert_eq!(b.vel, Vec2i { x: 30_000, y: -40_000 });
    assert_eq!(a.rotation, 0);
    assert_eq!(a.rotation_speed, 500);
}

#[test]
fn asteroid_wraps_from_left_to_right() {
    let w = 800 * UNIT;
    let h = 600 * UNIT;
    // heading straight left at 100 units/s
    let mut a = Asteroid::from_parts(AsteroidSize::Large, Vec2i { x: -149 * UNIT, y: 300 * UNIT }, Dir { x: -ONE, y: 0 }, 100_000, 0, &vec![0; 10]);
    assert_eq!(a.vel.y, 0);
    assert!(a.vel.x < 0);
    let vel = a.vel;
    a.update(100_000, w, h);
    assert_eq!(a.pos.x, w + 130 * UNIT);
    assert_eq!(a.pos.y, 300 * UNIT);
    assert_eq!(a.vel, vel);
}

#[test]
fn wrap_axis_margins() {
    assert_eq!(wrap_axis(-21, 20, 18, 100), 118);
    assert_eq!(wrap_axis(-20, 20, 18, 100), -20);
    assert_eq!(wrap_axis(121, 20, 18, 100), -18);
    assert_eq!(wrap_axis(50, 20, 18, 100), 50);
}

#[test]
fn asteroid_spins_within_a_turn() {
    let mut a = still(AsteroidSize::Small, 0, 0);
    a.rotation_speed = -1000;
    a.update(500_000, 800 * UNIT, 600 * UNIT);
    assert_eq!(a.rotation, 6283 - 500);
}

#[test]
fn asteroid_contains_its_center_and_not_far_points() {
    let a = still(AsteroidSize::Large, 100 * UNIT, 100 * UNIT);
    assert!(a.point_collision(Vec2i { x: 100 * UNIT, y: 100 * UNIT }));
    assert!(a.point_collision(Vec2i { x: 150 * UNIT, y: 120 * UNIT }));
    assert!(!a.point_collision(Vec2i { x: 300 * UNIT, y: 100 * UNIT }));
}

#[test]
fn random_asteroids_vary() {
    let mut speeds = Vec::new();
    for _ in 0..20 {
        let a = Asteroid::new(AsteroidSize::Large, Vec2i { x: 0, y: 0 }, Dir { x: ONE, y: 0 });
        assert!(a.vel.x >= MIN_SPEED && a.vel.x <= MAX_SPEED);
        assert_eq!(a.vel.y, 0);
        assert!(a.rotation_speed >= -1000 && a.rotation_speed <= 1000);
        assert_eq!(a.points.len(), 10);
        speeds.push(a.vel.x);
    }
    assert!(speeds.iter().any(|s| *s != speeds[0]));
}

#[test]
fn new_ship_is_an_arrow_at_the_center() {
    let p = Player::new(800 * UNIT, 600 * UNIT);
    assert_eq!(p.pos, Vec2i { x: 400 * UNIT, y: 300 * UNIT });
    assert_eq!(p.vel, Vec2i { x: 0, y: 0 });
    assert_eq!(p.rotation, 0);
    assert_eq!(p.jet_timer, 100_000);
    assert_eq!(p.missile_timer, 0);
    assert_eq!(
        p.points,
        vec![
            Vec2i { x: 0, y: -10 * UNIT },
            Vec2i { x: 6 * UNIT, y: 10 * UNIT },
            Vec2i { x: 0, y: 2 * UNIT },
            Vec2i { x: -6 * UNIT, y: 10 * UNIT },
        ]
    );
}

#[test]
fn timers_run_down() {
    let (w, h) = (800 * UNIT, 600 * UNIT);
    let mut p = Player::new(w, h);
    let thrust = Controls { left: false, right: false, thrust: true, brake: false, fire: false };
    let dir = Dir { x: 0, y: -ONE };
    p.update(40_000, thrust, dir, Dir { x: 0, y: ONE }, w, h, &mut Vec::new(), &mut Vec::new());
    assert_eq!(p.jet_timer, 60_000);
    assert_eq!(p.missile_timer, -40_000);
    p.update(40_000, no_keys(), dir, Dir { x: 0, y: ONE }, w, h, &mut Vec::new(), &mut Vec::new());
    assert_eq!(p.jet_timer, 60_000);
    assert_eq!(p.missile_timer, -80_000);
}

#[test]
fn idle_ship_stays_at_center() {
    let (w, h) = (800 * UNIT, 600 * UNIT);
    let mut p = Player::new(w, h);
    let mut jets = Vec::new();
    let mut missiles = Vec::new();
    for _ in 0..500 {
        p.turn(16_667, no_keys());
        p.update(16_667, no_keys(), Dir { x: 0, y: -ONE }, Dir { x: 0, y: ONE }, w, h, &mut jets, &mut missiles);
    }
    assert_eq!(p.pos, Vec2i { x: w / 2, y: h / 2 });
    assert_eq!(p.vel, Vec2i { x: 0, y: 0 });
    assert_eq!(p.rotation, 0);
    assert_eq!(p.jet_timer, 100_000);
    assert!(jets.is_empty());
    assert!(missiles.is_empty());
}

#[test]
fn ship_turns_thrusts_and_fires() {
    let (w, h) = (800 * UNIT, 600 * UNIT);
    let mut p = Player::new(w, h);
    let mut jets = Vec::new();
    let mut missiles = Vec::new();
    let keys = Controls { left: false, right: true, thrust: true, brake: false, fire: true };
    p.turn(100_000, keys);
    assert_eq!(p.rotation, 500);
    p.update(200_000, keys, Dir { x: 0, y: -ONE }, Dir { x: 0, y: ONE }, w, h, &mut jets, &mut missiles);
    // 100 units/s^2 for 0.2 s
    assert_eq!(p.vel, Vec2i { x: 0, y: -20_000 });
    assert_eq!(jets.len(), 1);
    assert_eq!(jets[0].vel, Vec2i { x: 0, y: 50_000 - 20_000 });
    assert_eq!(missiles.len(), 1);
    assert_eq!(missiles[0].vel, Vec2i { x: 0, y: -20_000 - 240_000 });
    assert_eq!(missiles[0].pos, Vec2i { x: w / 2, y: h / 2 });
    assert_eq!(p.missile_timer, MISSILE_PERIOD);
    assert_eq!(p.pos, Vec2i { x: w / 2, y: h / 2 - 4_000 });
    // the weapon is cooling down
    p.update(100_000, keys, Dir { x: 0, y: -ONE }, Dir { x: 0, y: ONE }, w, h, &mut jets, &mut missiles);
    assert_eq!(missiles.len(), 1);
}

#[test]
fn brake_keeps_ninety_nine_percent() {
    let mut p = Player::new(800 * UNIT, 600 * UNIT);
    p.vel = Vec2i { x: 1000, y: -1000 };
    let keys = Controls { left: false, right: false, thrust: false, brake: true, fire: false };
    p.update(0, keys, Dir { x: 0, y: -ONE }, Dir { x: 0, y: ONE }, 800 * UNIT, 600 * UNIT, &mut Vec::new(), &mut Vec::new());
    assert_eq!(p.vel, Vec2i { x: 990, y: -990 });
}

#[test]
fn particle_grows_and_fades() {
    let mut j = JetParticle::new(Vec2i { x: 0, y: 0 }, Vec2i { x: 1000, y: 0 });
    j.update(500_000);
    assert_eq!(j.size, 5_000);
    assert_eq!(j.fade, FADE_START - 500_000);
    assert_eq!(j.pos, Vec2i { x: 500, y: 0 });
}

#[test]
fn missile_play_area() {
    let w = 800 * UNIT;
    let m = Missile { vel: Vec2i { x: 0, y: 0 }, pos: Vec2i { x: w + 9 * UNIT, y: 0 }, hit: false };
    assert!(m.in_play(w, 600 * UNIT));
    let spent = Missile { hit: true, ..m };
    assert!(!spent.in_play(w, 600 * UNIT));
}
