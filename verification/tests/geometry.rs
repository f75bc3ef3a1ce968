use dwemthys::util::{Bound, Contains, Point, PointRelation, XPointRelation, YPointRelation};

#[test]
fn corners_are_contained() {
    let b = Bound::new(-3, 2, 7, 9);
    assert_eq!(b.contains(b.min), Contains::DoesContain);
    assert_eq!(b.contains(b.max), Contains::DoesContain);
    assert_eq!(b.contains(Point::new(-3, 9)), Contains::DoesContain);
    assert_eq!(b.contains(Point::new(7, 2)), Contains::DoesContain);
}

#[test]
fn single_cell_bound_contains_only_its_cell() {
    let b = Bound::new(4, 4, 4, 4);
    assert_eq!(b.contains(Point::new(4, 4)), Contains::DoesContain);
    assert_eq!(b.contains(Point::new(5, 4)), Contains::DoesNotContain);
    assert_eq!(b.contains(Point::new(4, 3)), Contains::DoesNotContain);
}

#[test]
fn points_outside_on_either_axis_are_rejected() {
    let b = Bound::new(0, 0, 9, 9);
    assert_eq!(b.contains(Point::new(-1, 5)), Contains::DoesNotContain);
    assert_eq!(b.contains(Point::new(10, 5)), Contains::DoesNotContain);
    assert_eq!(b.contains(Point::new(5, -1)), Contains::DoesNotContain);
    assert_eq!(b.contains(Point::new(5, 10)), Contains::DoesNotContain);
    assert_eq!(b.contains(Point::new(10, 10)), Contains::DoesNotContain);
    assert_eq!(b.contains(Point::new(5, 5)), Contains::DoesContain);
}

#[test]
fn offsets_return_new_points() {
    let p = Point::new(3, 4);
    assert_eq!(p.offset_x(2), Point { x: 5, y: 4 });
    assert_eq!(p.offset_y(-6), Point { x: 3, y: -2 });
    assert_eq!(p.offset(Point::new(-1, 1)), Point { x: 2, y: 5 });
    assert_eq!(p, Point { x: 3, y: 4 });
}

#[test]
fn points_compare_by_axis() {
    let p = Point::new(3, 4);
    assert_eq!(p.compare_x(Point::new(1, 4)), XPointRelation::RightOfPoint);
    assert_eq!(p.compare_x(Point::new(5, 4)), XPointRelation::LeftOfPoint);
    assert_eq!(p.compare_x(Point::new(3, 0)), XPointRelation::OnPointX);
    assert_eq!(p.compare_y(Point::new(3, 1)), YPointRelation::BelowPoint);
    assert_eq!(p.compare_y(Point::new(3, 9)), YPointRelation::AbovePoint);
    assert_eq!(p.compare_y(Point::new(0, 4)), YPointRelation::OnPointY);
}

#[test]
fn points_are_equal_by_both_coordinates() {
    let p = Point::new(3, 4);
    assert_eq!(p.compare(Point::new(3, 4)), PointRelation::PointsEqual);
    assert_eq!(p.compare(Point::new(3, 5)), PointRelation::PointsNotEqual);
    assert_eq!(p.compare(Point::new(4, 4)), PointRelation::PointsNotEqual);
}

#[test]
fn step_within_gives_the_cell_or_nothing() {
    let b = Bound::new(0, 0, 9, 9);
    assert_eq!(b.step_within(Point::new(5, 5), 1, -1), Some(Point { x: 6, y: 4 }));
    assert_eq!(b.step_within(Point::new(9, 5), 1, 0), None);
    assert_eq!(b.step_within(Point::new(0, 0), 0, -1), None);
    assert_eq!(b.step_within(Point::new(-1, 0), 1, 0), Some(Point { x: 0, y: 0 }));
}

#[test]
fn step_within_at_the_edge_of_the_integers() {
    let b = Bound::new(i32::MAX - 1, i32::MIN, i32::MAX, i32::MIN + 1);
    assert_eq!(b.step_within(Point::new(i32::MAX, i32::MIN), 1, 0), None);
    assert_eq!(b.step_within(Point::new(i32::MAX, i32::MIN), 0, -1), None);
    assert_eq!(
        b.step_within(Point::new(i32::MAX, i32::MIN), -1, 1),
        Some(Point { x: i32::MAX - 1, y: i32::MIN + 1 })
    );
}

#[test]
fn encloses_compares_the_cells() {
    let outer = Bound::new(0, 0, 9, 9);
    assert!(outer.encloses(Bound::new(0, 0, 9, 9)));
    assert!(outer.encloses(Bound::new(2, 3, 4, 5)));
    assert!(!outer.encloses(Bound::new(2, 3, 10, 5)));
    assert!(!outer.encloses(Bound::new(-1, 3, 4, 5)));
    let empty = Bound { min: Point::new(20, 20), max: Point::new(10, 10) };
    assert!(outer.encloses(empty));
}

#[test]
fn width_and_height_count_the_cells() {
    assert_eq!(Bound::new(0, 0, 78, 49).width(), 79);
    assert_eq!(Bound::new(0, 0, 78, 49).height(), 50);
    assert_eq!(Bound::new(79, 0, 99, 49).width(), 21);
    assert_eq!(Bound::new(0, 50, 99, 52).height(), 3);
    assert_eq!(Bound::new(4, 4, 4, 4).width(), 1);
    assert_eq!(Bound::new(4, 4, 4, 4).height(), 1);
}

#[test]
fn width_and_height_do_not_overflow() {
    let all = Bound::new(i32::MIN, i32::MIN, i32::MAX, i32::MAX);
    assert_eq!(all.width(), 4294967296);
    assert_eq!(all.height(), 4294967296);
    let empty = Bound { min: Point::new(5, 9), max: Point::new(4, 2) };
    assert_eq!(empty.width(), 0);
    assert_eq!(empty.height(), -6);
}
