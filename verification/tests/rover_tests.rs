use rover::entry::{ListEntry, ListEntryKind};
use rover::errors::NavError;
use rover::fs_path::FsPath;
use rover::rover::{Direction, Rover};

fn entries(n: usize) -> Vec<ListEntry> {
    let mut v = Vec::new();
    for i in 0..n {
        let path = FsPath::root().join(format!("f{i}"));
        v.push(ListEntry::from_dir_entry(path, false));
    }
    v
}

#[test]
fn new_rover_is_empty() {
    let r: Rover<ListEntry> = Rover::new(10);
    assert_eq!(r.len(), 0);
    assert_eq!(r.pivot(), None);
    assert_eq!(r.capacity(), 10);
    assert!(r.selected_ref().is_none());
}

#[test]
fn zero_height_still_shows_one_row() {
    let r: Rover<ListEntry> = Rover::new(0);
    assert_eq!(r.capacity(), 1);
}

#[test]
fn reset_selects_first_entry() {
    let mut r: Rover<ListEntry> = Rover::new(5);
    r.reset(entries(3));
    assert_eq!(r.len(), 3);
    assert_eq!(r.pivot(), Some(0));
    assert_eq!(r.offset(), 0);
}

#[test]
fn shift_up_wraps_to_last() {
    let mut r: Rover<ListEntry> = Rover::new(5);
    r.reset(entries(4));
    r.shift(Direction::Up);
    assert_eq!(r.pivot(), Some(3));
}

#[test]
fn shift_down_wraps_to_first() {
    let mut r: Rover<ListEntry> = Rover::new(5);
    r.reset(entries(4));
    let _ = r.set_selected(3);
    r.shift(Direction::Down);
    assert_eq!(r.pivot(), Some(0));
}

#[test]
fn shift_moves_by_exactly_one_elsewhere() {
    let mut r: Rover<ListEntry> = Rover::new(5);
    r.reset(entries(4));
    let _ = r.set_selected(2);
    r.shift(Direction::Down);
    assert_eq!(r.pivot(), Some(3));
    r.shift(Direction::Up);
    assert_eq!(r.pivot(), Some(2));
    r.shift(Direction::Up);
    assert_eq!(r.pivot(), Some(1));
}

#[test]
fn shift_on_empty_list_is_a_no_op() {
    let mut r: Rover<ListEntry> = Rover::new(5);
    r.shift(Direction::Down);
    assert_eq!(r.pivot(), None);
    r.shift(Direction::Up);
    assert_eq!(r.pivot(), None);
}

#[test]
fn set_selected_rejects_out_of_range() {
    let mut r: Rover<ListEntry> = Rover::new(5);
    r.reset(entries(3));
    assert_eq!(r.set_selected(3), Err(NavError::IndexOutOfRange));
    assert_eq!(r.pivot(), Some(0));
    assert_eq!(r.set_selected(2), Ok(()));
    assert_eq!(r.pivot(), Some(2));
}

#[test]
fn selected_ref_returns_the_pivot_entry() {
    let mut r: Rover<ListEntry> = Rover::new(5);
    r.reset(entries(3));
    let _ = r.set_selected(1);
    let e = r.selected_ref().unwrap();
    assert_eq!(e.kind(), ListEntryKind::File);
    assert_eq!(e.target().unwrap().last().unwrap(), "f1");
}

#[test]
fn render_window_follows_the_pivot() {
    let mut r: Rover<ListEntry> = Rover::new(3);
    r.reset(entries(10));
    let (start, end) = r.render();
    assert_eq!((start, end), (0, 3));
    let _ = r.set_selected(5);
    let (start, end) = r.render();
    assert_eq!((start, end), (3, 6));
    let _ = r.set_selected(1);
    let (start, end) = r.render();
    assert_eq!((start, end), (1, 4));
}

#[test]
fn resize_reclamps_the_window_at_next_render() {
    let mut r: Rover<ListEntry> = Rover::new(5);
    r.reset(entries(10));
    let _ = r.set_selected(7);
    let (start, end) = r.render();
    assert_eq!((start, end), (3, 8));
    r.resize(2);
    assert_eq!(r.capacity(), 2);
    let (start, end) = r.render();
    assert_eq!((start, end), (6, 8));
    r.resize(0);
    assert_eq!(r.capacity(), 1);
    let (start, end) = r.render();
    assert_eq!((start, end), (7, 8));
}
