use bashx::index::{classify, index_scripts, script_name, ScriptEntry, WalkItem};

fn item_at(path: &str) -> WalkItem {
    WalkItem::Entry { path: String::from(path), is_file: true }
}

fn script_of(path: &str, name: &str, parent: &str) -> ScriptEntry {
    ScriptEntry { path: String::from(path), name: String::from(name), parent: String::from(parent) }
}

#[test]
fn a_script_has_path_name_and_parent() {
    assert_eq!(
        ScriptEntry::from_path("/home/alice/.bashx/cache/foo/deploy.sh"),
        Some(script_of("/home/alice/.bashx/cache/foo/deploy.sh", "deploy", "/home/alice/.bashx/cache/foo"))
    );
}

#[test]
fn the_suffix_is_case_sensitive() {
    assert_eq!(ScriptEntry::from_path("/c/deploy.SH"), None);
    assert_eq!(ScriptEntry::from_path("/c/deploy.Sh"), None);
    assert_eq!(ScriptEntry::from_path("/c/deploy.sH"), None);
}

#[test]
fn only_the_one_suffix_counts() {
    assert_eq!(ScriptEntry::from_path("/c/deploy.bash"), None);
    assert_eq!(ScriptEntry::from_path("/c/deploy.sh.txt"), None);
    assert_eq!(ScriptEntry::from_path("/c/deploy.zsh"), None);
    assert_eq!(ScriptEntry::from_path("/c/deploysh"), None);
    assert_eq!(ScriptEntry::from_path("/c/deploy"), None);
    assert_eq!(ScriptEntry::from_path("/c/deploy."), None);
    assert_eq!(ScriptEntry::from_path("/c/deploy.s"), None);
}

#[test]
fn a_name_of_nothing_but_the_suffix_is_no_script() {
    assert_eq!(ScriptEntry::from_path("/c/.sh"), None);
    assert_eq!(ScriptEntry::from_path(".sh"), None);
    assert_eq!(ScriptEntry::from_path("sh"), None);
    assert_eq!(ScriptEntry::from_path(""), None);
}

#[test]
fn the_suffix_must_be_in_the_file_name() {
    assert_eq!(ScriptEntry::from_path("/c/deploy.sh/readme"), None);
    assert_eq!(ScriptEntry::from_path("/c/deploy.sh/"), None);
    assert_eq!(ScriptEntry::from_path("/c/x/.sh"), None);
}

#[test]
fn only_the_last_dot_splits_the_name() {
    assert_eq!(
        ScriptEntry::from_path("/c/archive.tar.sh"),
        Some(script_of("/c/archive.tar.sh", "archive.tar", "/c"))
    );
    assert_eq!(ScriptEntry::from_path("/c/..sh"), Some(script_of("/c/..sh", ".", "/c")));
    assert_eq!(ScriptEntry::from_path("/c/.hidden.sh"), Some(script_of("/c/.hidden.sh", ".hidden", "/c")));
}

#[test]
fn a_script_agrees_with_the_standard_path_rules() {
    for path in ["/c/a.sh", "/c/a.b.sh", "/c/.sh", "/c/a.SH", "/c/a", "/c/.a.sh", "rel/x.sh", "/c/a.sh.bak"] {
        let std_path = std::path::Path::new(path);
        let expected = if std_path.extension().and_then(|s| s.to_str()) == Some("sh") {
            Some(script_of(
                path,
                std_path.file_stem().and_then(|s| s.to_str()).unwrap(),
                std_path.parent().and_then(|s| s.to_str()).unwrap(),
            ))
        } else {
            None
        };
        assert_eq!(ScriptEntry::from_path(path), expected);
    }
}

#[test]
fn a_script_outside_any_directory() {
    assert_eq!(ScriptEntry::from_path("deploy.sh"), Some(script_of("deploy.sh", "deploy", "")));
    assert_eq!(ScriptEntry::from_path("/deploy.sh"), Some(script_of("/deploy.sh", "deploy", "/")));
}

#[test]
fn an_unreadable_item_is_no_script() {
    assert_eq!(classify(&WalkItem::Unreadable), None);
}

#[test]
fn classify_goes_by_the_file_name() {
    assert_eq!(classify(&item_at("/c/foo/deploy.sh")), Some(script_of("/c/foo/deploy.sh", "deploy", "/c/foo")));
    assert_eq!(classify(&item_at("/c/foo")), None);
    assert_eq!(classify(&item_at("/c/foo/README.md")), None);
}

#[test]
fn the_index_of_an_empty_walk_is_empty() {
    assert_eq!(index_scripts(&Vec::new()), Vec::<ScriptEntry>::new());
}

#[test]
fn the_index_of_a_missing_cache_is_empty() {
    assert_eq!(index_scripts(&vec![WalkItem::Unreadable]), Vec::<ScriptEntry>::new());
}

#[test]
fn the_index_keeps_the_order_of_the_walk() {
    let walk = vec![
        item_at("/c"),
        item_at("/c/foo"),
        item_at("/c/foo/deploy.sh"),
        WalkItem::Unreadable,
        item_at("/c/foo/notes.txt"),
        item_at("/c/bar"),
        item_at("/c/bar/deploy.sh"),
        item_at("/c/bar/build.sh"),
    ];
    assert_eq!(
        index_scripts(&walk),
        vec![
            script_of("/c/foo/deploy.sh", "deploy", "/c/foo"),
            script_of("/c/bar/deploy.sh", "deploy", "/c/bar"),
            script_of("/c/bar/build.sh", "build", "/c/bar"),
        ]
    );
}

#[test]
fn the_index_does_not_change_the_walk() {
    let walk = vec![item_at("/c/a.sh"), WalkItem::Unreadable];
    let before = walk.clone();
    let first = index_scripts(&walk);
    let second = index_scripts(&walk);
    assert_eq!(walk, before);
    assert_eq!(first, second);
}

#[test]
fn a_script_name_is_the_file_name_without_the_suffix() {
    assert_eq!(script_name("deploy.sh"), Some(String::from("deploy")));
    assert_eq!(script_name("a.sh"), Some(String::from("a")));
    assert_eq!(script_name("d\u{e9}ploy.sh"), Some(String::from("d\u{e9}ploy")));
    assert_eq!(script_name("x.sh.sh"), Some(String::from("x.sh")));
    assert_eq!(script_name(".sh"), None);
    assert_eq!(script_name("deploy.SH"), None);
    assert_eq!(script_name("deploy"), None);
    assert_eq!(script_name(""), None);
}

#[test]
fn a_directory_is_no_script_whatever_its_name() {
    let directory = WalkItem::Entry { path: String::from("/c/foo/deploy.sh"), is_file: false };
    assert_eq!(classify(&directory), None);
    let walk = vec![directory, item_at("/c/foo/deploy.sh/build.sh")];
    assert_eq!(index_scripts(&walk), vec![script_of("/c/foo/deploy.sh/build.sh", "build", "/c/foo/deploy.sh")]);
}
