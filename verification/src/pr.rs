//! The submission record for a finished collector-verifier and the two
//! renderings made of it: the human-readable submission text and the
//! one-entry addition to the collector list.

use vstd::prelude::*;
use vstd::string::*;

verus! {

/// Everything a submission gathers about a collector-verifier.
pub struct Pr {
    pub name: String,
    pub description: String,
    pub data_description: String,
    pub data_source: String,
    pub data_usefulness: String,
    pub code_explanation: String,
    pub image_id: String,
    pub email: String,
    pub source_code: String,
}

/// Whether a submission description has an acceptable length: at least
/// one character and at most 280.
pub fn description_ok(desc: &str) -> (r: bool)
    ensures
        r == (1 <= desc@.len() <= 280),
{
    let n = desc.unicode_len();
    1 <= n && n <= 280
}

/// The full submission text rendered from a record.
pub open spec fn pr_md_view(pr: Pr) -> Seq<char> {
    "# "@ + pr.name@ + "   \n\n"@ + "Image ID: "@ + pr.image_id@ + "   \n\n"@ + "Contact email: "@
        + pr.email@ + "   \n\n"@ + "## Collector-verifier description:   \n"@ + pr.description@
        + "   \n\n"@ + "## Data to be collected: type, structure, file format, size, etc.:   \n"@
        + pr.data_description@ + "    \n\n"@ + "## Data will be collected from:    \n"@
        + pr.data_source@ + "    \n\n"@ + "## This data is worth collecting because:   \n"@
        + pr.data_usefulness@ + "    \n\n"@ + "## Explanation of code:    \n"@
        + pr.code_explanation@ + "    \n\n"@
}

/// Renders the submission text for a record.
pub fn render_pr_md(pr: &Pr) -> (r: String)
    ensures
        r@ == pr_md_view(*pr),
{
    let mut r = String::from_str("# ");
    r.append(pr.name.as_str());
    r.append("   \n\n");
    r.append("Image ID: ");
    r.append(pr.image_id.as_str());
    r.append("   \n\n");
    r.append("Contact email: ");
    r.append(pr.email.as_str());
    r.append("   \n\n");
    r.append("## Collector-verifier description:   \n");
    r.append(pr.description.as_str());
    r.append("   \n\n");
    r.append("## Data to be collected: type, structure, file format, size, etc.:   \n");
    r.append(pr.data_description.as_str());
    r.append("    \n\n");
    r.append("## Data will be collected from:    \n");
    r.append(pr.data_source.as_str());
    r.append("    \n\n");
    r.append("## This data is worth collecting because:   \n");
    r.append(pr.data_usefulness.as_str());
    r.append("    \n\n");
    r.append("## Explanation of code:    \n");
    r.append(pr.code_explanation.as_str());
    r.append("    \n\n");
    r
}

/// The one entry a submission adds to the collector list.
pub open spec fn collector_entry_view(pr: Pr) -> Seq<char> {
    "--- \n\n# "@ + pr.name@ + " \n**ID**:  \n**Image ID**: "@ + pr.image_id@
        + "\n**Source code**: "@ + pr.source_code@ + "\n**Full PR text**:  \n**Description**: "@
        + pr.description@
}

/// Renders the collector-list entry for a record.
pub fn render_collector_entry(pr: &Pr) -> (r: String)
    ensures
        r@ == collector_entry_view(*pr),
{
    let mut r = String::from_str("--- \n\n# ");
    r.append(pr.name.as_str());
    r.append(" \n**ID**:  \n**Image ID**: ");
    r.append(pr.image_id.as_str());
    r.append("\n**Source code**: ");
    r.append(pr.source_code.as_str());
    r.append("\n**Full PR text**:  \n**Description**: ");
    r.append(pr.description.as_str());
    r
}

} // verus!
