use bashx::cache::{cache_dir_from_home, clean_cache, get_cache_dir, Teardown};
use bashx::path::{file_name, join, parent_dir, SEPARATOR};
use bashx::text::{characters, integer_to_decimal, natural_to_decimal, same_text};

#[test]
fn separator_is_a_slash() {
    assert_eq!(SEPARATOR, '/');
}

#[test]
fn join_puts_one_separator_between() {
    assert_eq!(join("/home/alice", ".bashx"), "/home/alice/.bashx");
    assert_eq!(join("a", "b"), "a/b");
}

#[test]
fn join_adds_no_separator_after_one() {
    assert_eq!(join("/", ".bashx"), "/.bashx");
    assert_eq!(join("/home/alice/", "cache"), "/home/alice/cache");
}

#[test]
fn join_below_nothing_is_the_segment() {
    assert_eq!(join("", ".bashx"), ".bashx");
    assert_eq!(join("", ""), "");
}

#[test]
fn file_name_follows_the_last_separator() {
    assert_eq!(file_name("/home/alice/.bashx/cache/foo/deploy.sh"), "deploy.sh");
    assert_eq!(file_name("deploy.sh"), "deploy.sh");
    assert_eq!(file_name("a/b/"), "");
    assert_eq!(file_name(""), "");
    assert_eq!(file_name("/"), "");
}

#[test]
fn file_name_counts_characters_not_bytes() {
    assert_eq!(file_name("/tmp/caf\u{e9}/d\u{e9}ploy.sh"), "d\u{e9}ploy.sh");
    assert_eq!(parent_dir("/tmp/caf\u{e9}/d\u{e9}ploy.sh"), "/tmp/caf\u{e9}");
}

#[test]
fn parent_dir_stands_before_the_last_separator() {
    assert_eq!(parent_dir("/home/alice/.bashx/cache/foo/deploy.sh"), "/home/alice/.bashx/cache/foo");
    assert_eq!(parent_dir(".bashx/cache/x.sh"), ".bashx/cache");
    assert_eq!(parent_dir("a/b/"), "a/b");
}

#[test]
fn parent_dir_of_a_file_in_the_root_is_the_root() {
    assert_eq!(parent_dir("/deploy.sh"), "/");
    assert_eq!(parent_dir("/"), "/");
}

#[test]
fn parent_dir_of_a_bare_name_is_empty() {
    assert_eq!(parent_dir("deploy.sh"), "");
    assert_eq!(parent_dir(""), "");
}

#[test]
fn parent_and_name_make_the_path_again() {
    for path in ["/a/b/c.sh", "x/y", ".bashx/cache/foo/bar.sh", "/top.sh"] {
        assert_eq!(join(&parent_dir(path), &file_name(path)), path);
    }
}

#[test]
fn cache_dir_is_below_the_home_directory() {
    assert_eq!(cache_dir_from_home(Some("/home/alice")), "/home/alice/.bashx/cache");
    assert_eq!(cache_dir_from_home(Some("/")), "/.bashx/cache");
}

#[test]
fn cache_dir_without_home_is_relative() {
    assert_eq!(cache_dir_from_home(None), ".bashx/cache");
    assert_eq!(cache_dir_from_home(Some("")), ".bashx/cache");
}

#[test]
fn get_cache_dir_is_the_cache_dir_of_some_home() {
    let dir = get_cache_dir();
    assert!(dir == ".bashx/cache" || dir.ends_with("/.bashx/cache"));
    assert_eq!(file_name(&dir), "cache");
    assert_eq!(get_cache_dir(), dir);
}

#[test]
fn clean_of_an_absent_cache_is_no_error() {
    assert_eq!(clean_cache(&Teardown::Absent), Ok(()));
}

#[test]
fn clean_of_a_removed_cache_is_no_error() {
    assert_eq!(clean_cache(&Teardown::Removed), Ok(()));
}

#[test]
fn clean_failure_keeps_the_systems_words() {
    let teardown = Teardown::Failed { reason: String::from("Permission denied (os error 13)") };
    assert_eq!(clean_cache(&teardown), Err(String::from("Permission denied (os error 13)")));
}

#[test]
fn decimal_of_small_and_large_numbers() {
    assert_eq!(natural_to_decimal(0), "0");
    assert_eq!(natural_to_decimal(7), "7");
    assert_eq!(natural_to_decimal(10), "10");
    assert_eq!(natural_to_decimal(1234567890), "1234567890");
    assert_eq!(natural_to_decimal(u64::MAX), "18446744073709551615");
}

#[test]
fn decimal_of_negative_numbers() {
    assert_eq!(integer_to_decimal(-1), "-1");
    assert_eq!(integer_to_decimal(-127), "-127");
    assert_eq!(integer_to_decimal(i32::MIN), "-2147483648");
    assert_eq!(integer_to_decimal(i32::MAX), "2147483647");
    assert_eq!(integer_to_decimal(0), "0");
}

#[test]
fn decimal_agrees_with_the_standard_formatter() {
    for n in [-1000, -999, -10, -9, 0, 1, 9, 10, 99, 100, 101, 255, 256, 65535] {
        assert_eq!(integer_to_decimal(n), format!("{}", n));
    }
}

#[test]
fn same_text_is_exact() {
    assert!(same_text("deploy", "deploy"));
    assert!(!same_text("deploy", "Deploy"));
    assert!(!same_text("deploy", "deploy "));
    assert!(same_text("", ""));
}

#[test]
fn characters_are_in_order() {
    assert_eq!(characters("a/\u{e9}"), vec!['a', '/', '\u{e9}']);
    assert_eq!(characters(""), Vec::<char>::new());
}
