use screen_grabbing::geometry::{IRect, Point, Scale, to_image_point, unset_point};

#[test]
fn scale_apply_truncates_toward_zero() {
    let half = Scale::new(1, 2);
    assert_eq!(half.apply(5), 2);
    assert_eq!(half.apply(-5), -2);
    assert_eq!(half.apply(4), 2);
    assert_eq!(half.apply(0), 0);
}

#[test]
fn scale_apply_exact_ratios() {
    let s = Scale::new(7, 10);
    assert_eq!(s.apply(1300), 910);
    assert_eq!(s.apply(10), 7);
    let up = Scale::new(3, 2);
    assert_eq!(up.apply(40), 60);
    assert_eq!(up.apply(-41), -61);
}

#[test]
fn scale_one_is_identity() {
    let one = Scale::one();
    assert_eq!(one.apply(12345), 12345);
    assert_eq!(one.apply(-12345), -12345);
}

#[test]
fn to_image_point_shifts_then_scales() {
    let p = Point::new(100, 60);
    let shift = Point::new(10, 20);
    let sx = Scale::new(2, 1);
    let sy = Scale::new(3, 2);
    let r = to_image_point(p, shift, sx, sy);
    assert_eq!(r.x, 180);
    assert_eq!(r.y, 60);
}

#[test]
fn to_image_point_negative_side() {
    let p = Point::new(5, 5);
    let shift = Point::new(10, 10);
    let sx = Scale::new(1, 2);
    let sy = Scale::new(1, 2);
    let r = to_image_point(p, shift, sx, sy);
    assert_eq!(r.x, -2);
    assert_eq!(r.y, -2);
}

#[test]
fn rect_from_points_normalizes_corners() {
    let r = IRect::from_points(Point::new(10, 50), Point::new(30, 20));
    assert_eq!(r.min, Point::new(10, 20));
    assert_eq!(r.max, Point::new(30, 50));
    let s = IRect::from_points(Point::new(7, 8), Point::new(7, 8));
    assert_eq!(s.min, Point::new(7, 8));
    assert_eq!(s.max, Point::new(7, 8));
}

#[test]
fn rect_contains_is_inclusive() {
    let r = IRect::from_points(Point::new(0, 0), Point::new(10, 10));
    assert!(r.contains(Point::new(0, 0)));
    assert!(r.contains(Point::new(10, 10)));
    assert!(r.contains(Point::new(5, 7)));
    assert!(!r.contains(Point::new(11, 5)));
    assert!(!r.contains(Point::new(5, -1)));
}

#[test]
fn unset_point_is_the_sentinel() {
    let p = unset_point();
    assert_eq!(p, Point::new(-1, -1));
    assert!(p.is_unset());
    assert!(!Point::new(-1, 0).is_unset());
}
