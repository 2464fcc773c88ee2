use ceres::scaffold::host_methods_import_line;
use ceres::text::{contains_substring, join_lines, project_name_of, replace_all};

#[test]
fn contains_substring_basic_cases() {
    assert!(contains_substring("cargo-risczero v0.19", "cargo-risczero"));
    assert!(!contains_substring("cargo-audit v0.17", "cargo-risczero"));
    assert!(contains_substring("anything", ""));
    assert!(!contains_substring("", "x"));
    assert!(contains_substring("abc", "abc"));
}

#[test]
fn replace_all_rewrites_every_occurrence() {
    assert_eq!(replace_all("methods and methods", "methods", "widget-methods"), "widget-methods and widget-methods");
    assert_eq!(replace_all("no match here", "methods", "x"), "no match here");
    assert_eq!(replace_all("aaa", "aa", "b"), "ba");
    assert_eq!(replace_all("", "pat", "r"), "");
}

#[test]
fn replacement_text_is_not_rescanned() {
    assert_eq!(replace_all("ab", "ab", "abab"), "abab");
}

#[test]
fn project_name_is_the_last_path_segment() {
    assert_eq!(project_name_of("/home/user/widget"), "widget");
    assert_eq!(project_name_of("widget"), "widget");
    assert_eq!(project_name_of("/ends/with/slash/"), "");
    assert_eq!(project_name_of(""), "");
}

#[test]
fn join_lines_terminates_each_line() {
    let lines: Vec<String> = vec!["a".to_string(), "".to_string(), "b".to_string()];
    assert_eq!(join_lines(&lines), "a\n\nb\n");
    assert_eq!(join_lines(&Vec::new()), "");
}

#[test]
fn import_line_uses_uppercased_project_name() {
    assert_eq!(
        host_methods_import_line("widget"),
        "use widget_methods::{WIDGET_ELF, WIDGET_ID};"
    );
}
