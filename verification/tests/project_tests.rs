use ceres::orchestrator::{advance, Stage};
use ceres::project::{collector_folder, contents_url, select_lang, CollectorLang};

#[test]
fn language_selection_prefers_the_first_flag() {
    assert_eq!(select_lang(true, false, false), Some(CollectorLang::GO));
    assert_eq!(select_lang(false, true, false), Some(CollectorLang::JS));
    assert_eq!(select_lang(false, false, true), Some(CollectorLang::PY));
    assert_eq!(select_lang(true, true, true), Some(CollectorLang::GO));
    assert_eq!(select_lang(false, false, false), None);
}

#[test]
fn collector_folders_per_language() {
    assert_eq!(collector_folder(&CollectorLang::GO), "ceres-go");
    assert_eq!(collector_folder(&CollectorLang::JS), "ceres-js");
    assert_eq!(collector_folder(&CollectorLang::PY), "ceres-go");
}

#[test]
fn listing_url_for_a_folder() {
    assert_eq!(
        contents_url("ceres-go"),
        "https://api.github.com/repos/mercury-protocol/ceres-p2p-helpers/contents/ceres-go"
    );
}

#[test]
fn pipeline_advances_in_order() {
    let order = [
        Stage::Uninitialized,
        Stage::ToolchainChecked,
        Stage::ProjectValidated,
        Stage::TemplateInstantiated,
        Stage::ManifestsPatched,
        Stage::EntryPointsPatched,
        Stage::DependenciesMerged,
        Stage::UserCodeInjected,
        Stage::Done,
    ];
    let mut stage = Stage::Uninitialized;
    for expected in order.iter().skip(1) {
        let next = advance(&stage, true);
        assert_eq!(next, Some(*expected));
        stage = next.unwrap();
    }
    assert_eq!(advance(&Stage::Done, true), None);
}

#[test]
fn any_step_failure_aborts_the_run() {
    assert_eq!(advance(&Stage::Uninitialized, false), None);
    assert_eq!(advance(&Stage::ManifestsPatched, false), None);
}
