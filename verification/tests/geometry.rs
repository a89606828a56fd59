use mecha_wayland::geometry::{Point, Rect, Size};

#[test]
fn edges_are_origin_plus_extent() {
    let r = Rect::new(10, 20, 30, 40);
    assert_eq!((r.x(), r.y(), r.width(), r.height()), (10, 20, 30, 40));
    assert_eq!(r.right(), 40);
    assert_eq!(r.bottom(), 60);
    assert_eq!(Rect::xywh(10, 20, 30, 40), r);
}

#[test]
fn contains_counts_the_edges_in() {
    let r = Rect::new(0, 0, 256, 512);
    assert!(r.contains(0, 0));
    assert!(r.contains(256, 512));
    assert!(!r.contains(257, 0));
    assert!(!r.contains(0, -1));
    assert!(r.contains_point(Point::new(128, 511)));
    assert!(!r.contains_point(Point::new(128, 513)));
}

#[test]
fn a_rect_with_negative_extent_contains_nothing() {
    let r = Rect::new(10, 10, -5, 5);
    assert!(!r.contains(7, 12));
    assert!(!r.contains(10, 10));
    assert!(!r.is_empty());
}

#[test]
fn empty_means_no_width_or_no_height() {
    assert!(Rect::zero().is_empty());
    assert!(Rect::new(5, 5, 0, 9).is_empty());
    assert!(Rect::new(5, 5, 9, 0).is_empty());
    assert!(!Rect::new(5, 5, 1, 1).is_empty());
}

#[test]
fn union_is_the_bounding_box() {
    let a = Rect::new(10, 10, 20, 20);
    let b = Rect::new(-5, 25, 10, 30);
    assert_eq!(a.union(b), Rect::new(-5, 10, 35, 45));
    assert_eq!(b.union(a), Rect::new(-5, 10, 35, 45));
    assert_eq!(a.union(a), a);
}

#[test]
fn an_empty_rect_is_the_identity_of_union() {
    let a = Rect::new(100, 200, 20, 20);
    let stray = Rect::new(7, 8, 0, 50);
    assert_eq!(a.union(stray), a);
    assert_eq!(stray.union(a), a);
    assert_eq!(stray.union(Rect::zero()), Rect::zero());
    assert_eq!(Rect::zero().union(stray), stray);
}

#[test]
fn union_groups_either_way() {
    let a = Rect::new(0, 0, 10, 10);
    let b = Rect::new(50, -20, 5, 5);
    let c = Rect::new(-30, 40, 1, 2);
    assert_eq!(a.union(b).union(c), a.union(b.union(c)));
    assert_eq!(a.union(b).union(c), Rect::new(-30, -20, 85, 62));
}

#[test]
fn union_reaches_as_far_as_the_numbers_do() {
    let low = Rect::new(i64::MIN / 2, 0, 10, 10);
    let high = Rect::new(i64::MAX / 2, 0, 0x10, 10);
    assert_eq!(low.union(Rect::new(0, 0, 5, 5)), Rect::new(i64::MIN / 2, 0, 5 - i64::MIN / 2, 10));
    // An empty side may be anywhere.
    let stray = Rect::new(i64::MAX, i64::MAX, i64::MAX, 0);
    assert_eq!(high.union(stray), high);
    assert_eq!(stray.union(low), low);
}

#[test]
fn points_and_sizes_combine() {
    let p = Point::new(3, 4);
    assert_eq!(p - Point::new(1, 10), Point::new(2, -6));
    assert_eq!(p + Size::new(5, 6), Point::new(8, 10));
    assert_eq!(p.as_tuple(), (3, 4));
    assert_eq!(Point::from((3, 4)), p);
    assert_eq!(Size::from((5, 6)), Size::new(5, 6));
    let t: (i64, i64) = p.into();
    assert_eq!(t, (3, 4));
    let t: (i64, i64) = Size::new(5, 6).into();
    assert_eq!(t, (5, 6));
    assert_eq!(Size::new(5, 6).as_tuple(), (5, 6));
    assert_eq!((Size::new(5, 6).width(), Size::new(5, 6).height()), (5, 6));
    assert_eq!((p.x(), p.y()), (3, 4));
}

#[test]
fn defaults_are_zero() {
    assert_eq!(Point::default(), Point::zero());
    assert_eq!(Size::default(), Size::zero());
    assert_eq!(Rect::default(), Rect::zero());
    assert_eq!(Rect::default(), Rect::new(0, 0, 0, 0));
}
