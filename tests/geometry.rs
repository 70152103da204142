use asteroids::collision::{fan_contains, point_triangle_collision, triangle_area, TOLERANCE};
use asteroids::fixed::{clamp, floor_div, scale_by_time, Vec2i};

fn p(x: i64, y: i64) -> Vec2i {
    Vec2i { x, y }
}

#[test]
fn area_of_right_triangle_is_exact() {
    // a 3 by 4 right triangle: area 6, doubled 12
    assert_eq!(triangle_area(p(0, 0), p(3, 0), p(0, 4)), 12);
    assert_eq!(triangle_area(p(0, 0), p(3000, 0), p(0, 4000)), 12_000_000);
}

#[test]
fn area_ignores_vertex_order() {
    let (a, b, c) = (p(-1200, 300), p(4500, -700), p(900, 8100));
    let fwd = triangle_area(a, b, c);
    assert_eq!(fwd, triangle_area(c, b, a));
    assert_eq!(fwd, triangle_area(b, a, c));
    assert!(fwd > 0);
}

#[test]
fn area_of_collinear_points_is_zero() {
    assert_eq!(triangle_area(p(0, 0), p(1000, 2000), p(3000, 6000)), 0);
    assert_eq!(triangle_area(p(-5, 7), p(-5, 100), p(-5, -40)), 0);
}

#[test]
fn centroid_is_inside() {
    let (a, b, c) = (p(0, 0), p(30_000, 0), p(0, 30_000));
    assert!(point_triangle_collision(p(10_000, 10_000), a, b, c));
}

#[test]
fn far_point_is_outside() {
    let (a, b, c) = (p(0, 0), p(30_000, 0), p(0, 30_000));
    assert!(!point_triangle_collision(p(60_000, 60_000), a, b, c));
    assert!(!point_triangle_collision(p(-2_000, -2_000), a, b, c));
}

#[test]
fn tolerance_accepts_points_just_outside() {
    // one tick beyond the hypotenuse adds far less than the tolerance
    let (a, b, c) = (p(0, 0), p(30_000, 0), p(0, 30_000));
    assert!(point_triangle_collision(p(15_001, 15_000), a, b, c));
    assert_eq!(TOLERANCE, 200_000);
}

#[test]
fn degenerate_triangle_rejects_interior_points() {
    let (a, b, c) = (p(0, 0), p(10_000, 0), p(20_000, 0));
    assert!(!point_triangle_collision(p(5_000, 1_000), a, b, c));
}

#[test]
fn fan_covers_a_square() {
    let square = vec![p(-1000, -1000), p(1000, -1000), p(1000, 1000), p(-1000, 1000)];
    assert!(fan_contains(p(0, 0), &square, p(500, 700)));
    assert!(fan_contains(p(0, 0), &square, p(-900, 0)));
    assert!(!fan_contains(p(0, 0), &square, p(5000, 0)));
    assert!(!fan_contains(p(0, 0), &Vec::new(), p(0, 0)));
}

#[test]
fn floor_division_rounds_down() {
    assert_eq!(floor_div(7, 2), 3);
    assert_eq!(floor_div(-7, 2), -4);
    assert_eq!(floor_div(-6, 2), -3);
    assert_eq!(floor_div(0, 5), 0);
}

#[test]
fn time_scaling_and_clamping() {
    // 100 units per second for a sixtieth of a second
    assert_eq!(scale_by_time(100_000, 16_667), 1666);
    assert_eq!(scale_by_time(-100_000, 16_667), -1667);
    assert_eq!(clamp(5, 0, 3), 3);
    assert_eq!(clamp(-5, 0, 3), 0);
    assert_eq!(clamp(2, 0, 3), 2);
}

#[test]
fn thin_triangle_accepts_a_distant_point_on_its_line() {
    // the area-sum test is loose for slivers: this point lies 50 units
    // beyond the sliver's end yet adds less than the tolerance
    let (a, b, c) = (p(0, 0), p(100_000, 0), p(50_000, 1));
    assert!(point_triangle_collision(p(150_000, 0), a, b, c));
    assert!(!point_triangle_collision(p(200_000, 0), a, b, c));
}
