//! Project-level decisions: which collector language a new project is
//! initialized for, where its starter files are fetched from, and the
//! validation the generation pipeline performs before patching.

use vstd::prelude::*;
use vstd::string::*;

verus! {

/// The language the collector side of a new project is written in.
#[derive(Debug, PartialEq, Eq)]
pub enum CollectorLang {
    GO,
    JS,
    PY,
}

/// Picks the collector language from the three mutually exclusive flags,
/// the first set flag winning; no flag set selects nothing.
pub fn select_lang(go: bool, js: bool, py: bool) -> (r: Option<CollectorLang>)
    ensures
        r == (if go {
            Some(CollectorLang::GO)
        } else if js {
            Some(CollectorLang::JS)
        } else if py {
            Some(CollectorLang::PY)
        } else {
            None::<CollectorLang>
        }),
{
    if go {
        Some(CollectorLang::GO)
    } else if js {
        Some(CollectorLang::JS)
    } else if py {
        Some(CollectorLang::PY)
    } else {
        None
    }
}

/// The starter-file folder for a collector language.  No starter files
/// exist for the Python collector yet; it falls back to the Go folder.
pub fn collector_folder(lang: &CollectorLang) -> (r: String)
    ensures
        r@ == (match *lang {
            CollectorLang::GO => "ceres-go"@,
            CollectorLang::JS => "ceres-js"@,
            CollectorLang::PY => "ceres-go"@,
        }),
{
    match lang {
        CollectorLang::GO => String::from_str("ceres-go"),
        CollectorLang::JS => String::from_str("ceres-js"),
        CollectorLang::PY => String::from_str("ceres-go"),
    }
}

/// The listing address of a starter-file folder on the remote content
/// source.
pub fn contents_url(folder: &str) -> (r: String)
    ensures
        r@ == "https://api.github.com/repos/mercury-protocol/ceres-p2p-helpers/contents/"@
            + folder@,
{
    let mut r = String::from_str(
        "https://api.github.com/repos/mercury-protocol/ceres-p2p-helpers/contents/",
    );
    r.append(folder);
    r
}

} // verus!
