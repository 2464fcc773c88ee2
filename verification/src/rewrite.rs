//! Whole-manifest line rewriters: the feature-flag augmentation for the
//! proving toolchain dependency, and renaming the generic methods
//! dependency after the project.

use vstd::prelude::*;
use vstd::string::*;
use crate::text::{contains_seq, contains_substring, replace_all, replace_all_seq};

verus! {

/// The dependency marker a manifest line must contain for the feature
/// flags to be augmented.
pub open spec fn zkvm_marker() -> Seq<char> {
    "risc0-zkvm"@
}

/// The default-features declaration the rewriter looks for.
pub open spec fn default_features_old() -> Seq<char> {
    "default-features = false"@
}

/// The declaration with the explicit feature list that replaces it.
pub open spec fn default_features_new() -> Seq<char> {
    "default-features = false, features = [ \"std\" ]"@
}

/// One line after the feature-flag rewrite: a line containing the
/// toolchain-dependency marker has its default-features declaration
/// augmented; any other line passes through unchanged.
pub open spec fn std_features_line(line: Seq<char>) -> Seq<char> {
    if contains_seq(line, zkvm_marker()) {
        replace_all_seq(line, default_features_old(), default_features_new())
    } else {
        line
    }
}

/// Scans every manifest line and augments the feature list of lines that
/// declare the proving-toolchain dependency.
pub fn apply_std_features(lines: &Vec<String>) -> (r: Vec<String>)
    ensures
        r@.len() == lines@.len(),
        forall|i: int| 0 <= i < lines@.len() ==> r@[i]@ == std_features_line(lines@[i]@),
{
    let n = lines.len();
    let mut out: Vec<String> = Vec::new();
    let mut i: usize = 0;
    while i < n
        invariant
            i <= n,
            n == lines@.len(),
            out@.len() == i,
            forall|j: int| 0 <= j < i ==> out@[j]@ == std_features_line(lines@[j]@),
        decreases n - i,
    {
        let line = &lines[i];
        if contains_substring(line.as_str(), "risc0-zkvm") {
            out.push(
                replace_all(
                    line.as_str(),
                    "default-features = false",
                    "default-features = false, features = [ \"std\" ]",
                ),
            );
        } else {
            out.push(line.clone());
        }
        i = i + 1;
    }
    out
}

/// The marker a manifest line must contain for the methods dependency to
/// be renamed after the project.
pub open spec fn methods_dep_marker() -> Seq<char> {
    "methods = "@
}

/// One line after the methods-dependency rename: a line containing the
/// marker has every occurrence of the generic methods name rewritten to
/// the project-qualified one; any other line passes through unchanged.
pub open spec fn methods_import_line(line: Seq<char>, name: Seq<char>) -> Seq<char> {
    if contains_seq(line, methods_dep_marker()) {
        replace_all_seq(line, "methods"@, name + "-methods"@)
    } else {
        line
    }
}

/// Renames the generated methods dependency of a host manifest after the
/// project.
pub fn rename_methods_dependency(lines: &Vec<String>, project_name: &str) -> (r: Vec<String>)
    ensures
        r@.len() == lines@.len(),
        forall|i: int|
            0 <= i < lines@.len() ==> r@[i]@ == methods_import_line(lines@[i]@, project_name@),
{
    let mut qualified = project_name.to_owned();
    qualified.append("-methods");
    let n = lines.len();
    let mut out: Vec<String> = Vec::new();
    let mut i: usize = 0;
    while i < n
        invariant
            i <= n,
            n == lines@.len(),
            out@.len() == i,
            qualified@ == project_name@ + "-methods"@,
            forall|j: int| 0 <= j < i ==> out@[j]@ == methods_import_line(lines@[j]@, project_name@),
        decreases n - i,
    {
        let line = &lines[i];
        if contains_substring(line.as_str(), "methods = ") {
            out.push(replace_all(line.as_str(), "methods", qualified.as_str()));
        } else {
            out.push(line.clone());
        }
        i = i + 1;
    }
    out
}

} // verus!
