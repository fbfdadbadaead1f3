use fabric_ui::geometry::AreaBox;
use fabric_ui::geometry::is_in_area;

#[test]
fn fit_in_takes_the_union_of_extents() {
    let grown = AreaBox::zero().fit_in(&AreaBox { left: -5, right: 10, top: -5, down: 10 });
    assert_eq!(grown, AreaBox { left: -5, right: 10, top: -5, down: 10 });
}

#[test]
fn fit_in_keeps_the_wider_box() {
    let a = AreaBox { left: -3, right: 20, top: 1, down: 4 };
    let b = AreaBox { left: 0, right: 5, top: -2, down: 9 };
    assert_eq!(a.fit_in(&b), AreaBox { left: -3, right: 20, top: -2, down: 9 });
    let c = AreaBox { left: -10, right: 30, top: -10, down: 30 };
    assert_eq!(a.fit_in(&c), c.fit_in(&a));
}

#[test]
fn expand_translates_all_extents() {
    let b = AreaBox { left: 1, right: 2, top: 3, down: 4 };
    assert_eq!(b.expand(10), AreaBox { left: 11, right: 12, top: 13, down: 14 });
    assert_eq!(b.expand(-1), AreaBox { left: 0, right: 1, top: 2, down: 3 });
}

#[test]
fn to_size_derives_width_and_height() {
    let b = AreaBox { left: 10, right: 110, top: 5, down: 25 };
    assert_eq!(b.to_size(), (100, 20));
}

#[test]
fn to_size_clamps_an_inverted_box_to_zero() {
    let b = AreaBox { left: 10, right: -10, top: 5, down: 2 };
    assert_eq!(b.to_size(), (0, 0));
}

#[test]
fn max_box_spans_the_whole_range() {
    let b = AreaBox::max_box();
    assert_eq!(b.left, isize::MIN);
    assert_eq!(b.right, isize::MAX);
    assert_eq!(b.to_size().0, u64::MAX);
}

#[test]
fn point_containment_is_a_closed_rectangle() {
    assert!(is_in_area(5, 5, 0, 0, 10, 10));
    assert!(is_in_area(0, 0, 0, 0, 10, 10));
    assert!(is_in_area(10, 10, 0, 0, 10, 10));
    assert!(!is_in_area(11, 5, 0, 0, 10, 10));
    assert!(!is_in_area(5, -1, 0, 0, 10, 10));
}
