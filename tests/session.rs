use asteroids::asteroid::{Asteroid, AsteroidSize, MIN_SPEED};
use asteroids::fixed::{Dir, Vec2i, ONE};
use asteroids::game::{spawn_position, Game, SpawnOrder, FIRST_WAVE, SPAWN_OFFSET};
use asteroids::player::Missile;

const UNIT: i64 = 1000;
const W: i64 = 800 * UNIT;
const H: i64 = 600 * UNIT;

fn still(size: AsteroidSize, x: i64, y: i64) -> Asteroid {
    let mut a = Asteroid::from_parts(size, Vec2i { x, y }, Dir { x: ONE, y: 0 }, MIN_SPEED, 0, &vec![0; 10]);
    a.vel = Vec2i { x: 0, y: 0 };
    a
}

fn missile(x: i64, y: i64, vx: i64) -> Missile {
    Missile { vel: Vec2i { x: vx, y: 0 }, pos: Vec2i { x, y }, hit: false }
}

#[test]
fn large_asteroid_hit_splits_in_two_medium() {
    let mut g = Game::new(W, H);
    g.asteroids.push(still(AsteroidSize::Large, 100 * UNIT, 100 * UNIT));
    g.missiles.push(missile(100 * UNIT, 100 * UNIT, 240_000));
    let orders = g.resolve_hits();
    assert_eq!(g.score, 1);
    assert!(g.missiles.is_empty());
    assert!(g.asteroids.is_empty());
    let piece = SpawnOrder { size: AsteroidSize::Medium, pos: Vec2i { x: 100 * UNIT, y: 100 * UNIT } };
    assert_eq!(orders, vec![piece, piece]);
    for o in orders {
        g.launch(o, Dir { x: 0, y: ONE });
    }
    assert_eq!(g.asteroids.len(), 2);
    assert!(g.asteroids.iter().all(|a| a.size == AsteroidSize::Medium && a.pos == piece.pos));
}

#[test]
fn medium_splits_in_two_small_and_small_vanishes() {
    let mut g = Game::new(W, H);
    g.asteroids.push(still(AsteroidSize::Medium, 200 * UNIT, 200 * UNIT));
    g.asteroids.push(still(AsteroidSize::Small, 500 * UNIT, 400 * UNIT));
    g.missiles.push(missile(200 * UNIT, 200 * UNIT, 0));
    g.missiles.push(missile(500 * UNIT, 400 * UNIT, 0));
    let orders = g.resolve_hits();
    assert_eq!(g.score, 2);
    assert!(g.asteroids.is_empty());
    assert!(g.missiles.is_empty());
    assert_eq!(orders.len(), 2);
    assert!(orders.iter().all(|o| o.size == AsteroidSize::Small && o.pos == Vec2i { x: 200 * UNIT, y: 200 * UNIT }));
}

#[test]
fn one_projectile_destroys_one_asteroid() {
    let mut g = Game::new(W, H);
    g.asteroids.push(still(AsteroidSize::Large, 100 * UNIT, 100 * UNIT));
    g.asteroids.push(still(AsteroidSize::Large, 110 * UNIT, 100 * UNIT));
    g.missiles.push(missile(105 * UNIT, 100 * UNIT, 0));
    let orders = g.resolve_hits();
    assert_eq!(g.score, 1);
    assert_eq!(orders.len(), 2);
    assert_eq!(g.asteroids.len(), 1);
    assert_eq!(g.asteroids[0].pos, Vec2i { x: 110 * UNIT, y: 100 * UNIT });
    assert!(g.missiles.is_empty());
}

#[test]
fn miss_leaves_everything() {
    let mut g = Game::new(W, H);
    g.asteroids.push(still(AsteroidSize::Small, 100 * UNIT, 100 * UNIT));
    g.missiles.push(missile(600 * UNIT, 500 * UNIT, 0));
    let orders = g.resolve_hits();
    assert!(orders.is_empty());
    assert_eq!(g.score, 0);
    assert_eq!(g.asteroids.len(), 1);
    assert_eq!(g.missiles.len(), 1);
}

#[test]
fn waves_double() {
    let mut g = Game::new(W, H);
    assert_eq!(g.asteroid_count, FIRST_WAVE);
    for expected in [2usize, 4, 8, 16] {
        let orders = g.spawn_wave();
        assert_eq!(orders.len(), expected);
        assert_eq!(g.asteroid_count, 2 * expected as u64);
        for o in &orders {
            assert_eq!(o.size, AsteroidSize::Large);
            let off_x = o.pos.x == -SPAWN_OFFSET || o.pos.x == W + SPAWN_OFFSET;
            let off_y = o.pos.y == -SPAWN_OFFSET || o.pos.y == H + SPAWN_OFFSET;
            assert!(off_x || off_y);
        }
        for o in orders {
            g.launch(o, Dir { x: ONE, y: 0 });
        }
        // no new wave while asteroids remain
        assert!(g.spawn_wave().is_empty());
        assert_eq!(g.asteroid_count, 2 * expected as u64);
        g.asteroids.clear();
    }
}

#[test]
fn spawn_positions_pick_the_nearer_edge() {
    assert_eq!(spawn_position(W, H, 100, 500_000, true), Vec2i { x: 100, y: H + SPAWN_OFFSET });
    assert_eq!(spawn_position(W, H, 100, 200_000, true), Vec2i { x: 100, y: -SPAWN_OFFSET });
    assert_eq!(spawn_position(W, H, 700_000, 7, false), Vec2i { x: W + SPAWN_OFFSET, y: 7 });
    assert_eq!(spawn_position(W, H, 400_000, 7, false), Vec2i { x: -SPAWN_OFFSET, y: 7 });
}

#[test]
fn projectiles_beyond_the_margin_are_culled() {
    let mut g = Game::new(W, H);
    g.missiles.push(missile(W + 11 * UNIT, 300 * UNIT, 0));
    g.missiles.push(missile(W + 9 * UNIT, 300 * UNIT, 0));
    g.update_missiles(16_667);
    assert_eq!(g.missiles.len(), 1);
    assert_eq!(g.missiles[0].pos.x, W + 9 * UNIT);
}

#[test]
fn spent_projectiles_are_culled() {
    let mut g = Game::new(W, H);
    g.missiles.push(Missile { vel: Vec2i { x: 0, y: 0 }, pos: Vec2i { x: 10, y: 10 }, hit: true });
    g.update_missiles(0);
    assert!(g.missiles.is_empty());
}

#[test]
fn projectiles_move() {
    let mut g = Game::new(W, H);
    g.missiles.push(missile(100 * UNIT, 100 * UNIT, 240_000));
    g.update_missiles(500_000);
    assert_eq!(g.missiles[0].pos, Vec2i { x: 220 * UNIT, y: 100 * UNIT });
}

#[test]
fn faded_particles_are_dropped() {
    let mut g = Game::new(W, H);
    g.jet_particles.push(asteroids::player::JetParticle::new(Vec2i { x: 0, y: 0 }, Vec2i { x: 0, y: 0 }));
    g.update_particles(600_000);
    assert_eq!(g.jet_particles.len(), 1);
    g.update_particles(400_000);
    assert!(g.jet_particles.is_empty());
}

#[test]
fn asteroid_on_the_ship_ends_the_session() {
    let mut g = Game::new(W, H);
    g.asteroids.push(still(AsteroidSize::Small, 100 * UNIT, 100 * UNIT));
    g.check_player();
    assert!(!g.game_over);
    g.asteroids.push(still(AsteroidSize::Medium, W / 2 + 10 * UNIT, H / 2));
    g.check_player();
    assert!(g.game_over);
}

#[test]
fn orientation_turns_the_outline() {
    let mut g = Game::new(W, H);
    g.asteroids.push(still(AsteroidSize::Small, 100 * UNIT, 100 * UNIT));
    // a vertex lies along +x at 20 units; a quarter turn puts the middle of
    // an edge, about 19 units out, there instead
    let probe = Vec2i { x: 119_500, y: 100 * UNIT };
    assert!(g.asteroids[0].point_collision(probe));
    g.orient(0, Dir { x: 0, y: ONE });
    assert!(!g.asteroids[0].point_collision(probe));
    g.update_asteroids(1_000_000);
    assert_eq!(g.asteroids[0].pos, Vec2i { x: 100 * UNIT, y: 100 * UNIT });
}
