use bashx::index::{ScriptEntry, WalkItem};
use bashx::resolver::{resolve_script, resolve_step};

fn walked(path: &str) -> WalkItem {
    WalkItem::Entry { path: String::from(path), is_file: true }
}

fn expected_script(path: &str, name: &str, parent: &str) -> ScriptEntry {
    ScriptEntry { path: String::from(path), name: String::from(name), parent: String::from(parent) }
}

fn two_deploys() -> Vec<WalkItem> {
    vec![
        walked("/c"),
        walked("/c/foo"),
        walked("/c/foo/deploy.sh"),
        walked("/c/bar"),
        walked("/c/bar/deploy.sh"),
        walked("/c/bar/build.sh"),
    ]
}

#[test]
fn a_name_resolves_to_the_script_that_bears_it() {
    assert_eq!(
        resolve_script(&two_deploys(), "build"),
        Some(expected_script("/c/bar/build.sh", "build", "/c/bar"))
    );
}

#[test]
fn the_first_of_two_scripts_with_one_name_wins() {
    assert_eq!(
        resolve_script(&two_deploys(), "deploy"),
        Some(expected_script("/c/foo/deploy.sh", "deploy", "/c/foo"))
    );
    let mut other_order = two_deploys();
    other_order.swap(2, 4);
    assert_eq!(
        resolve_script(&other_order, "deploy"),
        Some(expected_script("/c/bar/deploy.sh", "deploy", "/c/bar"))
    );
}

#[test]
fn a_missing_name_resolves_to_nothing() {
    assert_eq!(resolve_script(&two_deploys(), "missing-name"), None);
    assert_eq!(resolve_script(&Vec::new(), "deploy"), None);
    assert_eq!(resolve_script(&vec![WalkItem::Unreadable], "deploy"), None);
}

#[test]
fn names_are_compared_exactly() {
    assert_eq!(resolve_script(&two_deploys(), "Deploy"), None);
    assert_eq!(resolve_script(&two_deploys(), "deploy.sh"), None);
    assert_eq!(resolve_script(&two_deploys(), "deplo"), None);
    assert_eq!(resolve_script(&two_deploys(), " deploy"), None);
}

#[test]
fn an_empty_name_resolves_to_nothing() {
    let mut walk = two_deploys();
    walk.push(walked("/c/.sh"));
    assert_eq!(resolve_script(&walk, ""), None);
}

#[test]
fn a_name_with_a_separator_is_only_compared() {
    assert_eq!(resolve_script(&two_deploys(), "foo/deploy"), None);
    assert_eq!(resolve_script(&two_deploys(), "../deploy"), None);
    assert_eq!(resolve_script(&two_deploys(), "/c/foo/deploy"), None);
}

#[test]
fn resolving_twice_gives_the_same_script() {
    let walk = two_deploys();
    let first = resolve_script(&walk, "deploy");
    let second = resolve_script(&walk, "deploy");
    assert_eq!(first, second);
    let found = first.unwrap();
    assert_eq!(resolve_script(&walk, &found.name), Some(found));
}

#[test]
fn what_follows_the_first_match_has_no_say() {
    let walk = two_deploys();
    let upto_match: Vec<WalkItem> = walk[..3].to_vec();
    assert_eq!(resolve_script(&upto_match, "deploy"), resolve_script(&walk, "deploy"));
}

#[test]
fn a_step_matches_one_item_against_the_name() {
    assert_eq!(
        resolve_step(&walked("/c/foo/deploy.sh"), "deploy"),
        Some(expected_script("/c/foo/deploy.sh", "deploy", "/c/foo"))
    );
    assert_eq!(resolve_step(&walked("/c/foo/deploy.sh"), "build"), None);
    assert_eq!(resolve_step(&walked("/c/foo/deploy"), "deploy"), None);
    assert_eq!(resolve_step(&WalkItem::Unreadable, "deploy"), None);
}

#[test]
fn stepping_through_the_walk_agrees_with_resolving_it() {
    let walk = two_deploys();
    for name in ["deploy", "build", "missing-name", ""] {
        let mut stepped = None;
        for item in walk.iter() {
            stepped = resolve_step(item, name);
            if stepped.is_some() {
                break;
            }
        }
        assert_eq!(stepped, resolve_script(&walk, name));
    }
}

#[test]
fn a_directory_never_wins_a_resolution() {
    let walk = vec![
        WalkItem::Entry { path: String::from("/c/deploy.sh"), is_file: false },
        walked("/c/deploy.sh/deploy.sh"),
    ];
    assert_eq!(
        resolve_script(&walk, "deploy"),
        Some(expected_script("/c/deploy.sh/deploy.sh", "deploy", "/c/deploy.sh"))
    );
    assert_eq!(resolve_step(&walk[0], "deploy"), None);
}
