use ceres::rewrite::{apply_std_features, rename_methods_dependency};

fn lines(v: &[&str]) -> Vec<String> {
    v.iter().map(|s| s.to_string()).collect()
}

#[test]
fn augments_features_on_zkvm_line() {
    let manifest = lines(&[
        "[dependencies]",
        "risc0-zkvm = { version = \"0.19\", default-features = false }",
    ]);
    let rewritten = apply_std_features(&manifest);
    assert_eq!(rewritten[0], "[dependencies]");
    assert_eq!(
        rewritten[1],
        "risc0-zkvm = { version = \"0.19\", default-features = false, features = [ \"std\" ] }"
    );
}

#[test]
fn no_op_without_zkvm_marker() {
    let manifest = lines(&[
        "other = { version = \"1\", default-features = false }",
        "plain line",
    ]);
    let rewritten = apply_std_features(&manifest);
    assert_eq!(rewritten, manifest);
}

#[test]
fn zkvm_line_without_target_passes_through() {
    let manifest = lines(&["risc0-zkvm = \"0.19\""]);
    let rewritten = apply_std_features(&manifest);
    assert_eq!(rewritten, manifest);
}

#[test]
fn renames_methods_dependency_after_project() {
    let manifest = lines(&[
        "[dependencies]",
        "methods = { path = \"../methods\" }",
        "methods mention outside a dependency line",
    ]);
    let rewritten = rename_methods_dependency(&manifest, "widget");
    assert_eq!(rewritten[0], "[dependencies]");
    assert_eq!(
        rewritten[1],
        "widget-methods = { path = \"../widget-methods\" }"
    );
    assert_eq!(rewritten[2], "methods mention outside a dependency line");
}
