use std::cmp::Ordering;

use editor::{get_box, CanvasPoint, Circle, Freehand, GuidGenerator, Point3D, Rectangle};

fn pt(x: i32, y: i32) -> CanvasPoint {
    CanvasPoint::new(x, y)
}

#[test]
fn test_guid_gen() {
    let mut gen = GuidGenerator::new();
    for i in 0..100 {
        assert_eq!(i, gen.next_guid());
    }
}

#[test]
fn rectangle_border_is_inside() {
    let r = Rectangle::new(pt(0, 0), pt(10, 5), false);
    assert!(r.is_inside(pt(0, 0)));
    assert!(r.is_inside(pt(10, 5)));
    assert!(r.is_inside(pt(10, 0)));
    assert!(r.is_inside(pt(0, 5)));
    assert!(r.is_inside(pt(5, 5)));
    assert!(r.is_inside(pt(3, 2)));
    assert!(!r.is_inside(pt(11, 0)));
    assert!(!r.is_inside(pt(5, -1)));
    assert!(!r.is_inside(pt(5, 6)));
}

#[test]
fn rectangle_intersects_box() {
    let r = Rectangle::new(pt(0, 0), pt(10, 10), false);
    assert!(r.intersects((pt(5, 5), pt(10, 10))));
    assert!(r.intersects((pt(-5, -5), pt(30, 30))));
    // touching edges do not overlap
    assert!(!r.intersects((pt(10, 0), pt(5, 5))));
    assert!(!r.intersects((pt(-5, -5), pt(5, 5))));
    assert!(!r.intersects((pt(20, 20), pt(5, 5))));
}

#[test]
fn circle_contains_and_intersects() {
    let c = Circle::new(pt(0, 0), 25, false);
    assert!(c.is_inside(pt(3, 4)));
    assert!(c.is_inside(pt(0, -5)));
    assert!(!c.is_inside(pt(4, 4)));
    // the box corner (3, 4) is the closest point: distance 5
    assert!(c.intersects((pt(3, 4), pt(10, 10))));
    assert!(!c.intersects((pt(4, 4), pt(10, 10))));
    // the center inside the box
    assert!(c.intersects((pt(-1, -1), pt(2, 2))));
    // a box straight above, 5 away
    assert!(c.intersects((pt(-10, 5), pt(20, 3))));
    assert!(!c.intersects((pt(-10, 6), pt(20, 3))));
}

#[test]
fn freehand_never_intersects() {
    let f = Freehand::new(pt(1, 1), false);
    assert_eq!(f.points, vec![pt(1, 1)]);
    assert!(!f.intersects((pt(0, 0), pt(10, 10))));
}

#[test]
fn get_box_normalizes() {
    assert_eq!(get_box(pt(10, 40), pt(50, 10)), (pt(10, 10), pt(40, 30)));
    assert_eq!(get_box(pt(50, 10), pt(10, 40)), (pt(10, 10), pt(40, 30)));
    assert_eq!(get_box(pt(-3, -3), pt(-3, -3)), (pt(-3, -3), pt(0, 0)));
}

#[test]
fn point_arithmetic() {
    assert_eq!(pt(0, 2).add(pt(3, 4)), pt(3, 6));
    assert_eq!(pt(0, 2).sub(pt(3, 4)), pt(-3, -2));
    assert_eq!(pt(2, -3).mul(pt(4, 5)), pt(8, -15));
    assert_eq!(pt(-7, 3).abs(), pt(7, 3));
    assert_eq!(pt(1, 9).min(pt(4, 2)), pt(1, 2));
    assert_eq!(pt(1, 9).max(pt(4, 2)), pt(4, 9));
    assert_eq!(pt(34, 68).clamp(pt(20, 70), pt(45, 78)), pt(34, 70));
    assert_eq!(pt(17, 100).sqrt(), pt(4, 10));
    assert_eq!(pt(0, 0).euclid_dist_squared(pt(3, 4)), 25);
    assert_eq!(pt(i32::MIN, 0).euclid_dist_squared(pt(i32::MAX, 0)), 18446744065119617025);
    assert_eq!(pt(2, 3).coord(), (2, 3));
    assert_eq!((pt(2, 3).one(), pt(2, 3).two()), (2, 3));
}

#[test]
fn point_ordering() {
    assert!(pt(1, 1).le(&pt(1, 2)));
    assert!(!pt(1, 1).lt(&pt(1, 2)));
    assert!(pt(1, 1).lt(&pt(2, 2)));
    assert!(pt(3, 3).ge(&pt(3, 3)));
    assert!(pt(3, 3).gt(&pt(2, 2)));
    // incomparable points
    assert!(!pt(1, 5).le(&pt(5, 1)));
    assert!(!pt(1, 5).ge(&pt(5, 1)));
    assert!(pt(1, 5).le_or(&pt(5, 1)));
}

#[test]
fn point3d_operations() {
    let p = Point3D::new(1, -2, 3);
    assert_eq!(p.coord(), (1, -2, 3));
    assert_eq!((p.one(), p.two(), p.three()), (1, -2, 3));
    assert_eq!(p.abs(), Point3D::new(1, 2, 3));
    assert_eq!(p.add_with_point2d(pt(10, 20)), Point3D::new(11, 18, 3));
    assert_eq!(Point3D::new(16, 15, 26).sqrt(), Point3D::new(4, 3, 5));
    assert_eq!(p.add(Point3D::new(1, 1, 1)), Point3D::new(2, -1, 4));
    assert_eq!(p.sub(Point3D::new(1, 1, 1)), Point3D::new(0, -3, 2));
    assert_eq!(Point3D::new(0, 0, 0).euclid_dist_squared(Point3D::new(1, 2, 2)), 9);
    assert!(p.zoom_valid());
    assert!(!Point3D::new(1, 1, 0).zoom_valid());
    assert!(p.le(&Point3D::new(1, 0, 3)));
    assert!(!p.lt(&Point3D::new(1, 0, 3)));
}

#[test]
fn point_partial_order() {
    assert_eq!(pt(1, 1).partial_cmp(&pt(2, 3)), Some(Ordering::Less));
    assert_eq!(pt(4, 5).partial_cmp(&pt(2, 3)), Some(Ordering::Greater));
    assert_eq!(pt(2, 3).partial_cmp(&pt(2, 3)), Some(Ordering::Equal));
    assert_eq!(pt(1, 5).partial_cmp(&pt(5, 1)), None);
    assert_eq!(pt(1, 3).partial_cmp(&pt(2, 3)), None);
}

#[test]
fn point_division_and_approximate_equality() {
    assert_eq!(pt(7, -7).div(pt(2, 2)), pt(3, -4));
    assert_eq!(pt(7, -7).div(pt(-2, -2)), pt(-3, 4));
    assert_eq!(pt(20, 30).div(pt(10, 3)), pt(2, 10));
    assert!(pt(2, 3).approx_eq(pt(3, 2), 2));
    assert!(!pt(2, 3).approx_eq(pt(3, 2), 1));
    assert!(pt(2, 3).approx_eq(pt(2, 3), 1));
}

#[test]
fn point3d_partial_order() {
    let p = Point3D::new(1, 2, 3);
    assert!(p.gt(&Point3D::new(0, 1, 2)));
    assert!(!p.gt(&Point3D::new(0, 2, 2)));
    assert!(p.ge(&Point3D::new(0, 2, 2)));
    assert_eq!(p.partial_cmp(&Point3D::new(2, 3, 4)), Some(Ordering::Less));
    assert_eq!(p.partial_cmp(&Point3D::new(0, 1, 2)), Some(Ordering::Greater));
    assert_eq!(p.partial_cmp(&Point3D::new(1, 2, 3)), Some(Ordering::Equal));
    assert_eq!(p.partial_cmp(&Point3D::new(2, 0, 4)), None);
    assert!(p.approx_eq(Point3D::new(2, 1, 3), 2));
    assert!(!p.approx_eq(Point3D::new(2, 1, 5), 2));
}
