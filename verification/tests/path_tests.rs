use rover::fs_path::FsPath;

fn p(components: &[&str]) -> FsPath {
    FsPath::new(components.iter().map(|c| c.to_string()).collect())
}

#[test]
fn root_is_root() {
    let r = FsPath::root();
    assert!(r.is_root());
    assert_eq!(r.depth(), 0);
    assert!(r.parent().is_none());
    assert!(r.last().is_none());
}

#[test]
fn parent_drops_last_component() {
    let ab = p(&["a", "b"]);
    assert!(!ab.is_root());
    assert_eq!(ab.depth(), 2);
    let a = ab.parent().unwrap();
    assert!(a.eq_path(&p(&["a"])));
    let r = a.parent().unwrap();
    assert!(r.is_root());
}

#[test]
fn join_appends_component() {
    let a = p(&["a"]);
    let ab = a.join("b".to_string());
    assert!(ab.eq_path(&p(&["a", "b"])));
    assert_eq!(ab.last().unwrap(), "b");
    assert!(a.eq_path(&p(&["a"])));
}

#[test]
fn eq_path_compares_components() {
    assert!(p(&["a", "b"]).eq_path(&p(&["a", "b"])));
    assert!(!p(&["a", "b"]).eq_path(&p(&["a"])));
    assert!(!p(&["a", "b"]).eq_path(&p(&["a", "c"])));
    assert!(FsPath::root().eq_path(&FsPath::root()));
}

#[test]
fn clone_path_denotes_same_location() {
    let ab = p(&["a", "b"]);
    let c = ab.clone_path();
    assert!(c.eq_path(&ab));
    assert_eq!(c.components(), ab.components());
}
