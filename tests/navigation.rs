use hank_sync::state::{join, normalize, parent_dir, state_file, State};

#[test]
fn normalize_empty_is_root() {
    assert_eq!(normalize(""), "/");
}

#[test]
fn normalize_adds_leading_slash_and_drops_trailing() {
    assert_eq!(normalize("a/b/"), "/a/b");
    assert_eq!(normalize("/a//b"), "/a/b");
    assert_eq!(normalize("/"), "/");
    assert_eq!(normalize("a"), "/a");
}

#[test]
fn normalize_collapses_pairs_of_slashes_once() {
    assert_eq!(normalize("///"), "");
    assert_eq!(normalize("a///b"), "/a//b");
}

#[test]
fn join_relative_and_absolute() {
    assert_eq!(join("/", "docs"), "/docs");
    assert_eq!(join("/a/", "b"), "/a/b");
    assert_eq!(join("/a", "b/c/"), "/a/b/c");
    assert_eq!(join("/a", "/x"), "/x");
}

#[test]
fn parent_of_directories() {
    assert_eq!(parent_dir("/a/b"), "/a");
    assert_eq!(parent_dir("/a"), "/");
    assert_eq!(parent_dir("/"), "/");
    assert_eq!(parent_dir("rel"), "/");
}

#[test]
fn default_state_is_at_root() {
    let s = State::default();
    assert_eq!(s.cwd, "/");
    assert_eq!(s.prev, "/");
}

#[test]
fn enter_up_and_down() {
    let mut s = State::default();
    assert_eq!(s.enter(Some("photos/2024/")), "/photos/2024");
    assert_eq!(s.cwd, "/photos/2024");
    assert_eq!(s.prev, "/");
    s.go_up();
    assert_eq!(s.cwd, "/photos");
    assert_eq!(s.prev, "/photos/2024");
    s.go_down(None);
    assert_eq!(s.cwd, "/photos/2024");
    assert_eq!(s.prev, "/photos");
    s.go_down(Some("jan"));
    assert_eq!(s.cwd, "/photos/2024/jan");
    assert_eq!(s.enter(None), "/photos/2024/jan");
}

#[test]
fn state_file_inside_config_dir() {
    assert_eq!(state_file("/home/u/.config/hank-sync"), "/home/u/.config/hank-sync/state.json");
}
