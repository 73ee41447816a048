use rover::entry::ListEntry;
use rover::fs_path::FsPath;
use rover::render::{format_row, path_text, row_text, truncate_text};
use rover::scraper::{header_text, mode_name, Mode};

fn p(components: &[&str]) -> FsPath {
    FsPath::new(components.iter().map(|c| c.to_string()).collect())
}

#[test]
fn parent_row_is_its_own_text() {
    let e = ListEntry::parent(Some(p(&["a"])));
    assert_eq!(row_text(&e), "../");
    let at_root = ListEntry::parent(None);
    assert_eq!(row_text(&at_root), "../");
}

#[test]
fn directory_rows_carry_a_trailing_separator() {
    let e = ListEntry::from_dir_entry(p(&["a", "sub"]), true);
    assert_eq!(row_text(&e), "sub/");
}

#[test]
fn file_rows_are_the_bare_name() {
    let e = ListEntry::from_dir_entry(p(&["a", "notes.txt"]), false);
    assert_eq!(row_text(&e), "notes.txt");
}

#[test]
fn format_row_marks_only_the_selected_row() {
    assert_eq!(format_row(true, &"x".to_string(), 80), "> x");
    assert_eq!(format_row(false, &"x".to_string(), 80), "  x");
}

#[test]
fn rows_are_truncated_never_wrapped() {
    assert_eq!(truncate_text("abcdef".to_string(), 4), "abcd");
    assert_eq!(truncate_text("abc".to_string(), 4), "abc");
    assert_eq!(truncate_text("abc".to_string(), 0), "");
    assert_eq!(format_row(true, &"abcdef".to_string(), 4), "> ab");
}

#[test]
fn path_text_joins_components() {
    assert_eq!(path_text(&FsPath::root()), "/");
    assert_eq!(path_text(&p(&["a"])), "/a");
    assert_eq!(path_text(&p(&["a", "b", "c"])), "/a/b/c");
}

#[test]
fn header_shows_path_and_mode() {
    assert_eq!(mode_name(Mode::Flow), "Flow");
    assert_eq!(mode_name(Mode::Command), "Command");
    assert_eq!(header_text(&p(&["a"]), Mode::Flow), "/a  [Flow]");
    assert_eq!(header_text(&FsPath::root(), Mode::Command), "/  [Command]");
}
