use rover::viewport::{compute, Rect};

#[test]
fn rect_resize_changes_size() {
    let mut r = Rect::new(0, 0, 80, 24);
    assert_eq!(r.width(), 80);
    assert_eq!(r.height(), 24);
    r.resize(40, 12);
    assert_eq!(r.width(), 40);
    assert_eq!(r.height(), 12);
}

#[test]
fn compute_keeps_visible_pivot() {
    assert_eq!(compute(2, 3, 3, 10), 2);
    assert_eq!(compute(4, 4, 3, 10), 4);
    assert_eq!(compute(4, 6, 3, 10), 4);
}

#[test]
fn compute_follows_pivot_down() {
    assert_eq!(compute(0, 5, 3, 10), 3);
    assert_eq!(compute(3, 6, 3, 10), 4);
}

#[test]
fn compute_follows_pivot_up() {
    assert_eq!(compute(5, 2, 3, 10), 2);
    assert_eq!(compute(7, 0, 3, 10), 0);
}

#[test]
fn compute_clamps_to_list_end() {
    assert_eq!(compute(9, 9, 3, 10), 7);
    assert_eq!(compute(0, 9, 3, 10), 7);
}

#[test]
fn compute_is_zero_when_everything_fits() {
    assert_eq!(compute(0, 2, 10, 3), 0);
    assert_eq!(compute(5, 2, 10, 3), 0);
}

#[test]
fn compute_is_stable() {
    let cases: [(usize, usize, usize, usize); 5] =
        [(0, 5, 3, 10), (9, 9, 3, 10), (2, 3, 3, 10), (5, 2, 10, 3), (7, 0, 3, 10)];
    for (offset, pivot, capacity, total) in cases {
        let once = compute(offset, pivot, capacity, total);
        let twice = compute(once, pivot, capacity, total);
        assert_eq!(once, twice);
    }
}
