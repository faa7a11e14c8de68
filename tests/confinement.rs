use hank_sync::confine::{clean_path, confine, remove_dotdot_str};

#[test]
fn leading_slash_is_dropped_once() {
    assert_eq!(clean_path("/notes.txt"), "notes.txt");
    assert_eq!(clean_path("//notes.txt"), "/notes.txt");
    assert_eq!(clean_path("a/b"), "a/b");
}

#[test]
fn dotdot_is_removed_everywhere() {
    assert_eq!(remove_dotdot_str("../../etc/passwd"), "//etc/passwd");
    assert_eq!(remove_dotdot_str("..."), ".");
    assert_eq!(remove_dotdot_str("...."), "");
    assert_eq!(remove_dotdot_str("a.b"), "a.b");
}

#[test]
fn traversal_lands_under_root() {
    let p = confine("/srv/root", "../../../tmp/evil");
    assert_eq!(p, "/srv/root////tmp/evil");
    assert!(p.starts_with("/srv/root/"));
    assert!(!p["/srv/root/".len()..].contains(".."));
}

#[test]
fn passwd_style_paths_stay_under_root() {
    for input in ["../../etc/passwd", "/../../etc/passwd", "a/../../b", "....//....//etc", "//etc/passwd"] {
        let p = confine("/data", input);
        assert!(p == "/data" || p.starts_with("/data/"), "{input} -> {p}");
        assert!(!p.contains(".."), "{input} -> {p}");
    }
}

#[test]
fn empty_and_root_paths_resolve_to_root() {
    assert_eq!(confine("/data", ""), "/data");
    assert_eq!(confine("/data", "/"), "/data");
    assert_eq!(confine("/data", "/.."), "/data");
}

#[test]
fn ordinary_path_is_joined() {
    assert_eq!(confine("/data", "/notes.txt"), "/data/notes.txt");
    assert_eq!(confine("/data", "dir/sub/file.bin"), "/data/dir/sub/file.bin");
}
