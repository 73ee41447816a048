use rover::entry::{list, ChildInfo, ListEntryKind};
use rover::fs_path::FsPath;

fn p(components: &[&str]) -> FsPath {
    FsPath::new(components.iter().map(|c| c.to_string()).collect())
}

fn kid(name: &str, is_dir: bool) -> ChildInfo {
    ChildInfo { name: name.to_string(), is_dir }
}

#[test]
fn list_counts_children() {
    let entries = list(&p(&["project"]), &vec![kid("dirA", true), kid("file1.txt", false)]);
    assert_eq!(entries.len(), 3);
    assert_eq!(entries[0].kind(), ListEntryKind::Parent);
}

#[test]
fn list_of_empty_directory_is_parent_only() {
    let entries = list(&p(&["a"]), &vec![]);
    assert_eq!(entries.len(), 1);
    assert_eq!(entries[0].kind(), ListEntryKind::Parent);
}

#[test]
fn list_orders_directories_before_files() {
    let kids = vec![
        kid("b.txt", false),
        kid("c", true),
        kid("a.txt", false),
        kid("d", true),
    ];
    let entries = list(&p(&["top"]), &kids);
    assert_eq!(entries.len(), 5);
    let kinds: Vec<ListEntryKind> = entries.iter().map(|e| e.kind()).collect();
    assert_eq!(
        kinds,
        vec![
            ListEntryKind::Parent,
            ListEntryKind::Dir,
            ListEntryKind::Dir,
            ListEntryKind::File,
            ListEntryKind::File,
        ]
    );
    assert_eq!(entries[1].target().unwrap().last().unwrap(), "c");
    assert_eq!(entries[2].target().unwrap().last().unwrap(), "d");
    assert_eq!(entries[3].target().unwrap().last().unwrap(), "b.txt");
    assert_eq!(entries[4].target().unwrap().last().unwrap(), "a.txt");
}

#[test]
fn duplicate_names_are_both_listed() {
    let entries = list(&p(&["a"]), &vec![kid("same", false), kid("same", false)]);
    assert_eq!(entries.len(), 3);
    assert_eq!(entries[1].target().unwrap().last().unwrap(), "same");
    assert_eq!(entries[2].target().unwrap().last().unwrap(), "same");
}

#[test]
fn list_child_targets_are_children_of_the_path() {
    let entries = list(&p(&["a", "b"]), &vec![kid("c", true)]);
    let target = entries[1].target().unwrap();
    assert!(target.eq_path(&p(&["a", "b", "c"])));
}

#[test]
fn parent_entry_points_at_the_enclosing_directory() {
    let entries = list(&p(&["a", "b"]), &vec![]);
    let target = entries[0].target().unwrap();
    assert!(target.eq_path(&p(&["a"])));
}

#[test]
fn parent_entry_at_root_has_no_target() {
    let entries = list(&FsPath::root(), &vec![kid("etc", true)]);
    assert_eq!(entries[0].kind(), ListEntryKind::Parent);
    assert!(entries[0].target().is_none());
}
