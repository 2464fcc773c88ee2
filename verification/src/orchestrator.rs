//! The generation pipeline as a state machine: strictly sequential
//! stages, where any step's failure aborts the whole run.

use vstd::prelude::*;

verus! {

/// The stages a generation run passes through, in order.
#[derive(Clone, Copy, Debug, PartialEq, Eq)]
pub enum Stage {
    Uninitialized,
    ToolchainChecked,
    ProjectValidated,
    TemplateInstantiated,
    ManifestsPatched,
    EntryPointsPatched,
    DependenciesMerged,
    UserCodeInjected,
    Done,
}

/// Each stage's position in the pipeline.
pub open spec fn stage_index(s: Stage) -> nat {
    match s {
        Stage::Uninitialized => 0,
        Stage::ToolchainChecked => 1,
        Stage::ProjectValidated => 2,
        Stage::TemplateInstantiated => 3,
        Stage::ManifestsPatched => 4,
        Stage::EntryPointsPatched => 5,
        Stage::DependenciesMerged => 6,
        Stage::UserCodeInjected => 7,
        Stage::Done => 8,
    }
}

/// The stage a successful step leads to; none after the last.
pub open spec fn stage_after(s: Stage) -> Option<Stage> {
    match s {
        Stage::Uninitialized => Some(Stage::ToolchainChecked),
        Stage::ToolchainChecked => Some(Stage::ProjectValidated),
        Stage::ProjectValidated => Some(Stage::TemplateInstantiated),
        Stage::TemplateInstantiated => Some(Stage::ManifestsPatched),
        Stage::ManifestsPatched => Some(Stage::EntryPointsPatched),
        Stage::EntryPointsPatched => Some(Stage::DependenciesMerged),
        Stage::DependenciesMerged => Some(Stage::UserCodeInjected),
        Stage::UserCodeInjected => Some(Stage::Done),
        Stage::Done => None,
    }
}

/// Advances the pipeline by one step: a successful step moves to the next
/// stage in order; any failure ends the run with no stage to resume from.
pub fn advance(s: &Stage, step_ok: bool) -> (r: Option<Stage>)
    ensures
        r == (if step_ok {
            stage_after(*s)
        } else {
            None::<Stage>
        }),
        r matches Some(t) ==> stage_index(t) == stage_index(*s) + 1,
{
    if !step_ok {
        return None;
    }
    match s {
        Stage::Uninitialized => Some(Stage::ToolchainChecked),
        Stage::ToolchainChecked => Some(Stage::ProjectValidated),
        Stage::ProjectValidated => Some(Stage::TemplateInstantiated),
        Stage::TemplateInstantiated => Some(Stage::ManifestsPatched),
        Stage::ManifestsPatched => Some(Stage::EntryPointsPatched),
        Stage::EntryPointsPatched => Some(Stage::DependenciesMerged),
        Stage::DependenciesMerged => Some(Stage::UserCodeInjected),
        Stage::UserCodeInjected => Some(Stage::Done),
        Stage::Done => None,
    }
}

} // verus!
