use ceres::partition::partition_dependencies;

fn lines(v: &[&str]) -> Vec<String> {
    v.iter().map(|s| s.to_string()).collect()
}

#[test]
fn widget_manifest_host_then_guest() {
    let manifest = lines(&["# Host", "foo = \"1.0\"", "# Guest", "bar = \"2.0\""]);
    let packages = partition_dependencies(&manifest);
    assert_eq!(packages.host, lines(&["# Host", "foo = \"1.0\""]));
    assert_eq!(packages.guest, lines(&["bar = \"2.0\"", "cid = \"0.7.0\""]));
}

#[test]
fn no_markers_yields_only_implicit_dep() {
    let manifest = lines(&["[package]", "name = \"demo\"", "", "[dependencies]"]);
    let packages = partition_dependencies(&manifest);
    assert_eq!(packages.host, Vec::<String>::new());
    assert_eq!(packages.guest, lines(&["cid = \"0.7.0\""]));
}

#[test]
fn empty_manifest_yields_only_implicit_dep() {
    let packages = partition_dependencies(&Vec::new());
    assert_eq!(packages.host, Vec::<String>::new());
    assert_eq!(packages.guest, lines(&["cid = \"0.7.0\""]));
}

#[test]
fn implicit_dep_not_duplicated() {
    let manifest = lines(&["# Guest", "cid = \"0.7.0\"", "extra = \"0.1\""]);
    let packages = partition_dependencies(&manifest);
    assert_eq!(packages.host, Vec::<String>::new());
    assert_eq!(packages.guest, lines(&["cid = \"0.7.0\"", "extra = \"0.1\""]));
}

#[test]
fn host_marker_alone_collects_to_end() {
    let manifest = lines(&["before", "# Host", "foo = \"1.0\"", "bar = \"2.0\""]);
    let packages = partition_dependencies(&manifest);
    assert_eq!(packages.host, lines(&["# Host", "foo = \"1.0\"", "bar = \"2.0\""]));
    assert_eq!(packages.guest, lines(&["cid = \"0.7.0\""]));
}

#[test]
fn guest_marker_line_is_skipped() {
    let manifest = lines(&["# Host", "h = \"1\"", "# Guest - install guest dependencies here", "g = \"2\""]);
    let packages = partition_dependencies(&manifest);
    assert_eq!(packages.host, lines(&["# Host", "h = \"1\""]));
    assert_eq!(packages.guest, lines(&["g = \"2\"", "cid = \"0.7.0\""]));
}
