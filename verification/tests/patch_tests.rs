use ceres::patch::replace_line;

fn lines(v: &[&str]) -> Vec<String> {
    v.iter().map(|s| s.to_string()).collect()
}

#[test]
fn replaces_only_the_target_line() {
    let original = lines(&["line zero", "line one", "line two"]);
    let patched = replace_line(&original, 1, "name = \"widget-methods\"");
    assert_eq!(patched.len(), 3);
    assert_eq!(patched[0], "line zero");
    assert_eq!(patched[1], "name = \"widget-methods\"");
    assert_eq!(patched[2], "line two");
}

#[test]
fn replaces_first_line() {
    let original = lines(&["a", "b"]);
    let patched = replace_line(&original, 0, "x");
    assert_eq!(patched, lines(&["x", "b"]));
}

#[test]
fn index_beyond_line_count_replaces_nothing() {
    let original = lines(&["a", "b", "c"]);
    let patched = replace_line(&original, 3, "x");
    assert_eq!(patched, original);
}

#[test]
fn empty_file_stays_empty() {
    let patched = replace_line(&Vec::new(), 0, "x");
    assert_eq!(patched, Vec::<String>::new());
}
