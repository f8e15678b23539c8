use dofi::error::ProfileError;
use dofi::home::{
    begins_with_tilde, expand, expand_home, is_under_home, shrink, shrink_home,
};
use dofi::rule::{Mode, Rule};

fn rule(src: &str, dst: &str) -> Rule {
    Rule { src: src.to_string(), dst: dst.to_string(), mode: Mode::Link }
}

#[test]
fn shrink_replaces_the_home_prefix() {
    assert_eq!(shrink("/home/u", "/home/u/.vimrc"), "~/.vimrc");
    assert_eq!(shrink("/home/u", "/home/u"), "~");
}

#[test]
fn shrink_leaves_other_paths_alone() {
    assert_eq!(shrink("/home/u", "/etc/passwd"), "/etc/passwd");
    assert_eq!(shrink("/home/u", "/home"), "/home");
    assert_eq!(shrink("/home/u", ""), "");
    assert_eq!(shrink("/home/u", "relative/home/u"), "relative/home/u");
}

#[test]
fn shrink_leaves_a_sibling_of_the_home_directory_alone() {
    // A sibling whose name begins like the home directory is not under it.
    assert_eq!(shrink("/home/u", "/home/user2/x"), "/home/user2/x");
    assert_eq!(shrink("/home/u", "/home/u2"), "/home/u2");
    assert_eq!(shrink("/home/u", "/home/u.bak/x"), "/home/u.bak/x");
}

#[test]
fn shrink_takes_a_home_directory_that_ends_in_a_slash() {
    assert_eq!(shrink("/home/u/", "/home/u/.vimrc"), "~.vimrc");
    assert_eq!(shrink("/", "/etc/passwd"), "~etc/passwd");
    assert_eq!(expand("/home/u/", "~.vimrc"), "/home/u/.vimrc");
}

#[test]
fn is_under_home_asks_for_whole_components() {
    assert!(is_under_home("/home/u", "/home/u"));
    assert!(is_under_home("/home/u", "/home/u/"));
    assert!(is_under_home("/home/u", "/home/u/a/b"));
    assert!(is_under_home("/home/u/", "/home/u/a"));
    assert!(!is_under_home("/home/u", "/home/user2/x"));
    assert!(!is_under_home("/home/u", "/home"));
    assert!(!is_under_home("/home/u", "/etc"));
    assert!(!is_under_home("/home/\u{fc}", "/home/\u{fc}ber"));
}

#[test]
fn expand_replaces_the_tilde() {
    assert_eq!(expand("/home/u", "~/.vimrc"), "/home/u/.vimrc");
    assert_eq!(expand("/home/u", "~"), "/home/u");
    assert_eq!(expand("/home/u", "~/a/~/b"), "/home/u/a/~/b");
}

#[test]
fn expand_leaves_other_paths_alone() {
    assert_eq!(expand("/home/u", "/etc/passwd"), "/etc/passwd");
    assert_eq!(expand("/home/u", "a/~/b"), "a/~/b");
    assert_eq!(expand("/home/u", ""), "");
}

#[test]
fn shrink_then_expand_gives_the_path_back() {
    for home in ["/home/u", "/home/u/", "/", "", "/h\u{f6}me/\u{fc}"] {
        for rest in ["", "/", "/.vimrc", "/a/b/c", "~", "/\u{e9}", "ser2/x"] {
            let path = format!("{home}{rest}");
            if is_under_home(home, &path) {
                assert_eq!(expand(home, &shrink(home, &path)), path);
            } else {
                assert_eq!(shrink(home, &path), path);
            }
        }
    }
}

#[test]
fn begins_with_tilde_looks_at_the_first_character() {
    assert!(begins_with_tilde("~"));
    assert!(begins_with_tilde("~/x"));
    assert!(!begins_with_tilde(""));
    assert!(!begins_with_tilde("/~"));
    assert!(!begins_with_tilde("\u{e9}~"));
}

#[test]
fn shrink_home_shrinks_both_paths() {
    let mut data = rule("/home/u/dot/vimrc", "/home/u/.vimrc");
    shrink_home(&mut data, Some("/home/u"));
    assert_eq!(data, rule("~/dot/vimrc", "~/.vimrc"));

    let mut data = rule("/srv/dot/vimrc", "/home/u/.vimrc");
    shrink_home(&mut data, Some("/home/u"));
    assert_eq!(data, rule("/srv/dot/vimrc", "~/.vimrc"));
}

#[test]
fn shrink_home_leaves_paths_outside_home_alone() {
    let mut data = rule("/home/user2/x", "/tmp/y");
    shrink_home(&mut data, Some("/home/u"));
    assert_eq!(data, rule("/home/user2/x", "/tmp/y"));
}

#[test]
fn shrink_home_without_home_changes_nothing() {
    let mut data = rule("/home/u/dot/vimrc", "/home/u/.vimrc");
    shrink_home(&mut data, None);
    assert_eq!(data, rule("/home/u/dot/vimrc", "/home/u/.vimrc"));
}

#[test]
fn expand_home_expands_both_paths() {
    let mut data = rule("~/dot/vimrc", "~/.vimrc");
    assert_eq!(expand_home(&mut data, Some("/home/u")), Ok(()));
    assert_eq!(data, rule("/home/u/dot/vimrc", "/home/u/.vimrc"));
}

#[test]
fn expand_home_keeps_the_mode() {
    let mut data = Rule { src: "~/a".to_string(), dst: "/b".to_string(), mode: Mode::Copy };
    assert_eq!(expand_home(&mut data, Some("/h")), Ok(()));
    assert_eq!(data, Rule { src: "/h/a".to_string(), dst: "/b".to_string(), mode: Mode::Copy });
}

#[test]
fn expand_home_without_home_fails_on_a_tilde() {
    let mut data = rule("~/dot/vimrc", "/home/u/.vimrc");
    assert_eq!(expand_home(&mut data, None), Err(ProfileError::Expand));
    assert_eq!(data, rule("~/dot/vimrc", "/home/u/.vimrc"));

    let mut data = rule("/srv/vimrc", "~/.vimrc");
    assert_eq!(expand_home(&mut data, None), Err(ProfileError::Expand));
    assert_eq!(data, rule("/srv/vimrc", "~/.vimrc"));
}

#[test]
fn expand_home_without_home_passes_plain_paths() {
    let mut data = rule("/srv/vimrc", "/home/u/.vimrc");
    assert_eq!(expand_home(&mut data, None), Ok(()));
    assert_eq!(data, rule("/srv/vimrc", "/home/u/.vimrc"));
}

#[test]
fn rule_under_home_survives_the_round_trip() {
    let before = rule("/home/u/dot/vimrc", "/home/u/.vimrc");
    let mut data = rule("/home/u/dot/vimrc", "/home/u/.vimrc");
    shrink_home(&mut data, Some("/home/u"));
    assert_eq!(expand_home(&mut data, Some("/home/u")), Ok(()));
    assert_eq!(data, before);
}
