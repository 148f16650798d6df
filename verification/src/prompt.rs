//! Prompt construction, shared by both backends.

use vstd::prelude::*;

verus! {

/// The generation prompt for a change set: a fixed template with the changed
/// file list and the diff text substituted in. A pure function of its two
/// inputs — no hidden state.
pub open spec fn spec_prompt(changed_files: Seq<char>, file_diffs: Seq<char>) -> Seq<char> {
    "Generate a concise Git commit message based on these changed files:\n"@ + changed_files
        + "\nAnd their changes:\n"@ + file_diffs
}

/// Builds the generation prompt from the changed-file list and the diff text.
pub fn build_prompt(changed_files: &str, file_diffs: &str) -> (r: String)
    ensures
        r@ == spec_prompt(changed_files@, file_diffs@),
{
    let mut r = "Generate a concise Git commit message based on these changed files:\n".to_owned();
    r.append(changed_files);
    r.append("\nAnd their changes:\n");
    r.append(file_diffs);
    r
}

/// Prompt construction is deterministic: equal change sets yield the
/// identical prompt text, however often and from whichever backend it is
/// requested.
pub proof fn lemma_prompt_deterministic(
    files_a: Seq<char>,
    diffs_a: Seq<char>,
    files_b: Seq<char>,
    diffs_b: Seq<char>,
)
    requires
        files_a == files_b,
        diffs_a == diffs_b,
    ensures
        spec_prompt(files_a, diffs_a) == spec_prompt(files_b, diffs_b),
{
}

} // verus!
