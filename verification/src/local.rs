//! The local backend: the offline model process.
//!
//! The caller probes whether the offline executable resolves on the search
//! path. If it does, the caller runs it with the arguments this module
//! builds, captures its standard output (decoded lossily) and hands the text
//! back; this module turns that text into the backend's result. If it does
//! not resolve, the caller runs the bootstrap installation command once, and
//! the call fails regardless of the installation's outcome — the user is
//! told to retry once installation completes.

use vstd::prelude::*;

use crate::orchestrator::GenerationError;
use crate::text::{lemma_trim_empty_iff_whitespace, spec_is_whitespace, spec_trim, trim};

verus! {

/// The local backend's reading of the offline process's standard output: the
/// output trimmed of surrounding whitespace, or an empty-generation failure
/// when nothing but whitespace came back.
pub open spec fn spec_local_response(raw: Seq<char>) -> Result<Seq<char>, GenerationError> {
    if spec_trim(raw).len() == 0 {
        Err(GenerationError::LocalGenerationEmpty)
    } else {
        Ok(spec_trim(raw))
    }
}

/// Turns the offline process's captured standard output into the backend's
/// result: the trimmed text, or `LocalGenerationEmpty` when the output holds
/// nothing but whitespace.
pub fn local_response(raw: &str) -> (r: Result<String, GenerationError>)
    ensures
        (r is Ok) == (spec_local_response(raw@) is Ok),
        r matches Ok(m) ==> m@ == spec_local_response(raw@).unwrap(),
        r matches Err(e) ==> e == GenerationError::LocalGenerationEmpty,
{
    let t = trim(raw);
    if t.as_str().unicode_len() == 0 {
        Err(GenerationError::LocalGenerationEmpty)
    } else {
        Ok(t)
    }
}

/// Whitespace-only process output is always reported as an empty-generation
/// failure, never as a blank success.
pub proof fn lemma_whitespace_output_fails(raw: Seq<char>)
    requires
        forall|i: int| 0 <= i < raw.len() ==> spec_is_whitespace(raw[i]),
    ensures
        spec_local_response(raw) == Err::<Seq<char>, GenerationError>(
            GenerationError::LocalGenerationEmpty,
        ),
{
    lemma_trim_empty_iff_whitespace(raw);
}

/// The name of the offline model executable the caller probes for.
pub fn local_executable() -> (r: String)
    ensures
        r@ == "ollama"@,
{
    "ollama".to_owned()
}

/// The arguments for invoking the offline model process: its `run` action,
/// the model name, then the prompt as a single positional argument.
pub fn local_invoke_args(prompt: &str) -> (r: Vec<String>)
    ensures
        r@.len() == 3,
        r@[0]@ == "run"@,
        r@[1]@ == "mistral"@,
        r@[2]@ == prompt@,
{
    let mut args: Vec<String> = Vec::new();
    args.push("run".to_owned());
    args.push("mistral".to_owned());
    args.push(prompt.to_owned());
    args
}

/// The shell command that bootstraps the offline backend: fetches the
/// platform installation script and pipes it through a shell.
pub fn install_command() -> (r: String)
    ensures
        r@ == "curl -fsSL https://ollama.com/install.sh | sh"@,
{
    "curl -fsSL https://ollama.com/install.sh | sh".to_owned()
}

} // verus!
