//! The generation orchestrator: backend selection and the remote-to-local
//! fallback policy.
//!
//! One generation run is a two-tier fallback chain: at most one remote
//! attempt, unconditionally followed by at most one local attempt when the
//! remote path is unavailable (no credential) or unsuccessful (transport
//! failure). The local attempt's result, success or failure, is final.
//!
//! The orchestrator performs no I/O itself. [`generate_commit_message`]
//! opens a run and names the first action; the caller carries each action
//! out (HTTP send, executable probe, process run, installation) and reports
//! the outcome to [`step`], which answers with the next action, until
//! [`Action::Done`] delivers the final result.

use vstd::prelude::*;

use crate::config::{spec_config_value, spec_selected_model};
use crate::local::{local_response, spec_local_response};
use crate::prompt::{build_prompt, spec_prompt};
use crate::remote::{openai_request, spec_endpoint, spec_request_body, HttpRequest};

verus! {

/// The two generation strategies: a hosted HTTP API or a local offline
/// model process.
#[derive(Clone, Copy, PartialEq, Eq, Structural, Debug)]
pub enum BackendSelector {
    Remote,
    Local,
}

/// A classified generation failure.
#[derive(Clone, Copy, PartialEq, Eq, Structural, Debug)]
pub enum GenerationError {
    /// The offline executable did not resolve on the search path. An
    /// installation was started, but the current call fails regardless of
    /// its outcome; the user should retry once installation completes.
    LocalExecutableMissing,
    /// The offline process ran but produced nothing besides whitespace.
    LocalGenerationEmpty,
}

/// A short description of a generation failure, for the caller to display.
pub fn error_message(e: &GenerationError) -> (r: String)
    ensures
        e is LocalExecutableMissing ==> r@
            == "Ollama was not installed. Please try running the command again."@,
        e is LocalGenerationEmpty ==> r@ == "Ollama failed to generate a commit message"@,
{
    match e {
        GenerationError::LocalExecutableMissing => {
            "Ollama was not installed. Please try running the command again.".to_owned()
        },
        GenerationError::LocalGenerationEmpty => {
            "Ollama failed to generate a commit message".to_owned()
        },
    }
}

/// The backend that a configured model name selects: `"openai"` selects the
/// remote backend, every other name (including the default) the local one.
pub open spec fn spec_select_backend(model: Seq<char>) -> BackendSelector {
    if model == "openai"@ {
        BackendSelector::Remote
    } else {
        BackendSelector::Local
    }
}

/// Compares two string slices character by character.
fn str_eq(a: &str, b: &str) -> (r: bool)
    ensures
        r == (a@ == b@),
{
    let a_len = a.unicode_len();
    let b_len = b.unicode_len();
    if a_len != b_len {
        assert(a@ != b@) by {
            assert(a@.len() != b@.len());
        }
        return false;
    }
    let mut i: usize = 0;
    while i < a_len
        invariant
            i <= a_len,
            a_len == a@.len(),
            b_len == b@.len(),
            a_len == b_len,
            forall|j: int| 0 <= j < i ==> a@[j] == b@[j],
        decreases a_len - i,
    {
        if a.get_char(i) != b.get_char(i) {
            return false;
        }
        i += 1;
    }
    proof {
        assert(a@ =~= b@);
    }
    true
}

/// Maps the configured model name to the backend it selects.
pub fn select_backend(model: &str) -> (r: BackendSelector)
    ensures
        r == spec_select_backend(model@),
{
    if str_eq(model, "openai") {
        BackendSelector::Remote
    } else {
        BackendSelector::Local
    }
}

/// A configuration without a `MODEL=` line resolves to the default model
/// name `"mistral"`, and that name selects the local backend.
pub proof fn lemma_missing_model_selects_local(config: Seq<char>)
    requires
        spec_config_value(config, "MODEL="@) is None,
    ensures
        spec_selected_model(config) == "mistral"@,
        spec_select_backend(spec_selected_model(config)) == BackendSelector::Local,
{
    reveal_strlit("mistral");
    reveal_strlit("openai");
    assert("mistral"@.len() == 7);
    assert("openai"@.len() == 6);
}

/// What the caller must do next to move a generation run forward.
pub enum Action {
    /// POST the request (JSON content type, the given authorization header),
    /// then report `Event::HttpResponse`: the raw body text on transport
    /// success — whatever the HTTP status — or `None` on transport failure.
    SendHttp(HttpRequest),
    /// Probe whether the offline executable resolves on the search path
    /// (an existence probe, not an invocation), then report
    /// `Event::ProbeResult`.
    ProbeExecutable,
    /// Run the offline model process on the given prompt, capture its whole
    /// standard output, decode it lossily, and report `Event::ModelOutput`.
    RunModel(String),
    /// Run the bootstrap installation command, wait for it, and report
    /// `Event::InstallFinished` with its success.
    RunInstall,
    /// The run is over; no further action or event follows.
    Done(Result<String, GenerationError>),
}

/// Where a generation run stands while its latest action is carried out.
pub enum OrchPhase {
    /// The remote attempt is outstanding; the prompt is kept for the
    /// fallback path.
    AwaitingHttp { prompt: String },
    /// The executable probe is outstanding; the prompt is kept for the
    /// invocation.
    AwaitingProbe { prompt: String },
    /// The offline model process is running.
    AwaitingModel,
    /// The bootstrap installation is running.
    AwaitingInstall,
    /// The run is over.
    Finished,
}

/// The caller's report on the action it carried out.
pub enum Event {
    /// The raw response body on transport success (any HTTP status), or
    /// `None` on transport failure (connection error, timeout, TLS error).
    HttpResponse(Option<String>),
    /// Whether the offline executable resolved on the search path.
    ProbeResult(bool),
    /// The offline process's captured standard output, decoded lossily.
    ModelOutput(String),
    /// The bootstrap installation ended, successfully or not.
    InstallFinished(bool),
}

/// The events a phase can take: each awaiting phase takes exactly the report
/// on the action it issued.
pub open spec fn phase_accepts(phase: OrchPhase, event: Event) -> bool {
    match (phase, event) {
        (OrchPhase::AwaitingHttp { .. }, Event::HttpResponse(_)) => true,
        (OrchPhase::AwaitingProbe { .. }, Event::ProbeResult(_)) => true,
        (OrchPhase::AwaitingModel, Event::ModelOutput(_)) => true,
        (OrchPhase::AwaitingInstall, Event::InstallFinished(_)) => true,
        _ => false,
    }
}

/// Opens a generation run for a change set.
///
/// Decides the opening backend: when the selected model name picks the
/// remote backend and a credential is present, the first action is the one
/// remote attempt; in every other case the run goes straight to the local
/// backend's executable probe. The caller carries the action out and drives
/// the run with [`step`] until [`Action::Done`].
pub fn generate_commit_message(
    changed_files: &str,
    file_diffs: &str,
    model: &str,
    api_key: Option<&str>,
) -> (r: (OrchPhase, Action))
    ensures
        ({
            let remote_first = spec_select_backend(model@) == BackendSelector::Remote
                && api_key is Some;
            &&& remote_first ==> {
                &&& r.0 matches OrchPhase::AwaitingHttp { prompt } && prompt@ == spec_prompt(
                    changed_files@,
                    file_diffs@,
                )
                &&& r.1 matches Action::SendHttp(req) && req.url@ == spec_endpoint()
                    && req.authorization@ == "Bearer "@ + api_key.unwrap()@ && req.body@
                    == spec_request_body(spec_prompt(changed_files@, file_diffs@))
            }
            &&& !remote_first ==> {
                &&& r.0 matches OrchPhase::AwaitingProbe { prompt } && prompt@ == spec_prompt(
                    changed_files@,
                    file_diffs@,
                )
                &&& r.1 is ProbeExecutable
            }
        }),
{
    let selector = select_backend(model);
    match (selector, api_key) {
        (BackendSelector::Remote, Some(key)) => {
            let prompt = build_prompt(changed_files, file_diffs);
            let request = openai_request(changed_files, file_diffs, key);
            (OrchPhase::AwaitingHttp { prompt }, Action::SendHttp(request))
        },
        _ => {
            let prompt = build_prompt(changed_files, file_diffs);
            (OrchPhase::AwaitingProbe { prompt }, Action::ProbeExecutable)
        },
    }
}

/// Advances a generation run by one reported outcome.
///
/// The transition table, in full:
/// - remote attempt answered with a body: the run is over, the raw body is
///   the message — the remote backend is attempted at most once;
/// - remote attempt failed in transport: fall through, silently, to the
///   local backend's executable probe — the remote attempt is never retried;
/// - probe found the executable: run the offline model on the kept prompt;
/// - probe missed it: run the bootstrap installation;
/// - model process output: the trimmed text is the message, or the run fails
///   with `LocalGenerationEmpty` when only whitespace came back;
/// - installation ended: the run fails with `LocalExecutableMissing`
///   whether or not the installation succeeded.
///
/// No transition issues another HTTP send: the opening one is the only one.
pub fn step(phase: OrchPhase, event: Event) -> (r: (OrchPhase, Action))
    requires
        phase_accepts(phase, event),
    ensures
        !(r.1 is SendHttp),
        phase matches OrchPhase::AwaitingHttp { prompt } ==> {
            &&& event matches Event::HttpResponse(Some(body)) ==> {
                &&& r.0 is Finished
                &&& (r.1 matches Action::Done(res) && res matches Ok(m) && m@ == body@)
            }
            &&& event matches Event::HttpResponse(None) ==> {
                &&& (r.0 matches OrchPhase::AwaitingProbe { prompt: kept } && kept@ == prompt@)
                &&& r.1 is ProbeExecutable
            }
        },
        phase matches OrchPhase::AwaitingProbe { prompt } ==> {
            &&& event matches Event::ProbeResult(true) ==> {
                &&& r.0 is AwaitingModel
                &&& (r.1 matches Action::RunModel(p) && p@ == prompt@)
            }
            &&& event matches Event::ProbeResult(false) ==> {
                &&& r.0 is AwaitingInstall
                &&& r.1 is RunInstall
            }
        },
        phase is AwaitingModel ==> (event matches Event::ModelOutput(out) ==> {
            &&& r.0 is Finished
            &&& (r.1 matches Action::Done(res) && {
                &&& (res is Ok) == (spec_local_response(out@) is Ok)
                &&& res matches Ok(m) ==> m@ == spec_local_response(out@).unwrap()
                &&& res matches Err(e) ==> e == GenerationError::LocalGenerationEmpty
            })
        }),
        phase is AwaitingInstall ==> {
            &&& r.0 is Finished
            &&& (r.1 matches Action::Done(res) && res matches Err(e) && e
                == GenerationError::LocalExecutableMissing)
        },
{
    match (phase, event) {
        (OrchPhase::AwaitingHttp { prompt: _ }, Event::HttpResponse(Some(body))) => {
            (OrchPhase::Finished, Action::Done(Ok(body)))
        },
        (OrchPhase::AwaitingHttp { prompt }, Event::HttpResponse(None)) => {
            (OrchPhase::AwaitingProbe { prompt }, Action::ProbeExecutable)
        },
        (OrchPhase::AwaitingProbe { prompt }, Event::ProbeResult(true)) => {
            (OrchPhase::AwaitingModel, Action::RunModel(prompt))
        },
        (OrchPhase::AwaitingProbe { prompt: _ }, Event::ProbeResult(false)) => {
            (OrchPhase::AwaitingInstall, Action::RunInstall)
        },
        (OrchPhase::AwaitingModel, Event::ModelOutput(out)) => {
            (OrchPhase::Finished, Action::Done(local_response(out.as_str())))
        },
        (OrchPhase::AwaitingInstall, Event::InstallFinished(_)) => {
            (
                OrchPhase::Finished,
                Action::Done(Err(GenerationError::LocalExecutableMissing)),
            )
        },
        _ => {
            // Unreachable: `phase_accepts` pairs every awaiting phase with
            // the one event kind that reports on its action.
            assert(false);
            (OrchPhase::Finished, Action::Done(Err(GenerationError::LocalExecutableMissing)))
        },
    }
}

} // verus!
