use study_sync::paths::{
    basename, dirname, ends_with_str, full_extension, last_extension, path_join,
    remove_full_extension, set_last_extension, str_eq, strip_path_prefix,
};

#[test]
fn test_full_extension() {
    assert_eq!(full_extension(""), None);
    assert_eq!(full_extension("."), None);
    assert_eq!(full_extension(".."), None);
    assert_eq!(full_extension(".foo"), Some("foo"));
    assert_eq!(full_extension("foo"), None);
    assert_eq!(full_extension("foo."), Some(""));
    assert_eq!(full_extension("foo.."), Some("."));
    assert_eq!(full_extension("foo.state"), Some("state"));
    assert_eq!(full_extension("foo..state"), Some(".state"));
    assert_eq!(full_extension("foo.state."), Some("state."));
    assert_eq!(full_extension("foo.state.auto"), Some("state.auto"));
}

#[test]
fn test_remove_full_extension() {
    fn t(path: &str) -> String {
        let mut path = path.to_owned();
        remove_full_extension(&mut path);
        path
    }

    assert_eq!(t(""), "");
    assert_eq!(t("foo"), "foo");
    assert_eq!(t("foo.state"), "foo");
    assert_eq!(t("foo.state.auto"), "foo");
    assert_eq!(t("foo."), "foo");
    assert_eq!(t("foo..state"), "foo");
    assert_eq!(t("."), ".");
    assert_eq!(t(".."), "..");
    assert_eq!(t(".foo"), ".foo");
    assert_eq!(t("..foo"), "..foo");
    assert_eq!(t("..f.oo"), "..f.oo");
}

#[test]
fn full_extension_sees_only_the_basename() {
    assert_eq!(full_extension("dir.v2/file.state.auto"), Some("state.auto"));
    assert_eq!(full_extension("dir.v2/file"), None);
    let mut p = "dir.v2/file.state.auto".to_owned();
    remove_full_extension(&mut p);
    assert_eq!(p, "dir.v2/file");
}

#[test]
fn basename_and_dirname_split_on_the_last_separator() {
    assert_eq!(basename("a/b/c.png"), "c.png");
    assert_eq!(basename("c.png"), "c.png");
    assert_eq!(dirname("a/b/c.png"), "a/b");
    assert_eq!(dirname("c.png"), "");
}

#[test]
fn last_extension_takes_the_final_dot() {
    assert_eq!(last_extension("a/b.state.auto"), Some("auto"));
    assert_eq!(last_extension("a/b.png"), Some("png"));
    assert_eq!(last_extension("a/b"), None);
    assert_eq!(last_extension(".hidden"), None);
}

#[test]
fn set_last_extension_replaces_or_appends() {
    let mut p = "saves/2024-05-06.state.auto".to_owned();
    set_last_extension(&mut p, "png");
    assert_eq!(p, "saves/2024-05-06.state.png");

    let mut p = "games/gameA.gba".to_owned();
    set_last_extension(&mut p, "");
    assert_eq!(p, "games/gameA");

    let mut p = "shots/1234567".to_owned();
    set_last_extension(&mut p, "png");
    assert_eq!(p, "shots/1234567.png");
}

#[test]
fn path_join_inserts_one_separator() {
    assert_eq!(path_join("a", "b"), "a/b");
    assert_eq!(path_join("a/", "b"), "a/b");
    assert_eq!(path_join("", "b"), "b");
}

#[test]
fn strip_path_prefix_respects_component_boundaries() {
    assert_eq!(
        strip_path_prefix("/roms/gameA.gba", "/roms"),
        Some("gameA.gba".to_owned())
    );
    assert_eq!(
        strip_path_prefix("/roms/gameA.gba", "/roms/"),
        Some("gameA.gba".to_owned())
    );
    assert_eq!(strip_path_prefix("/roms", "/roms"), Some(String::new()));
    assert_eq!(strip_path_prefix("/romsX/gameA.gba", "/roms"), None);
    assert_eq!(strip_path_prefix("/other/gameA.gba", "/roms"), None);
}

#[test]
fn small_string_helpers() {
    assert!(str_eq("abc", "abc"));
    assert!(!str_eq("abc", "abd"));
    assert!(!str_eq("abc", "ab"));
    assert!(ends_with_str("shot.png", ".png"));
    assert!(!ends_with_str("shot.png", ".jpg"));
    assert!(!ends_with_str("g", ".png"));
}
