//! The remote backend: request construction for the hosted chat-completion
//! HTTP API.
//!
//! The library builds the complete request — endpoint, authorization header
//! value, and JSON payload — and hands it to the caller to send. On transport
//! success the raw response body text is taken as the commit message
//! verbatim; the orchestrator never parses the response envelope, and a
//! non-2xx status is not a failure. Only a transport failure counts as a
//! failed remote attempt.

use vstd::prelude::*;

use crate::prompt::{build_prompt, spec_prompt};

verus! {

/// The JSON string literal (quoted and escaped) that encodes the characters
/// `s`.
pub uninterp spec fn json_quoted_of(s: Seq<char>) -> Seq<char>;

/// Relies on `serde_json::to_string` applied to a string slice: it writes
/// the JSON string literal for exactly the given characters, a result that
/// depends on those characters alone. Serializing a string value cannot
/// fail, so the error arm is unreachable.
#[verifier::external_body]
fn json_quote(s: &str) -> (r: String)
    ensures
        r@ == json_quoted_of(s@),
{
    match serde_json::to_string(s) {
        Ok(q) => q,
        Err(_) => String::new(),
    }
}

/// The JSON payload sent to the chat-completion endpoint: the fixed model
/// identifier, a fixed system instruction, and the prompt as the user turn.
pub open spec fn spec_request_body(prompt: Seq<char>) -> Seq<char> {
    "{\"messages\":[{\"content\":\"You are an AI that generates concise, professional Git commit messages.\",\"role\":\"system\"},{\"content\":"@
        + json_quoted_of(prompt) + ",\"role\":\"user\"}],\"model\":\"gpt-4\"}"@
}

/// The fixed chat-completion endpoint.
pub open spec fn spec_endpoint() -> Seq<char> {
    "https://api.openai.com/v1/chat/completions"@
}

/// One ready-to-send HTTP request to the chat-completion endpoint. The
/// caller POSTs `body` to `url` with `authorization` as the `Authorization`
/// header and `application/json` as the content type.
pub struct HttpRequest {
    pub url: String,
    pub authorization: String,
    pub body: String,
}

/// Builds the remote backend's request for a change set: the fixed endpoint,
/// a bearer-token authorization value carrying the credential, and the JSON
/// payload holding the generation prompt.
pub fn openai_request(changed_files: &str, file_diffs: &str, api_key: &str) -> (r: HttpRequest)
    ensures
        r.url@ == spec_endpoint(),
        r.authorization@ == "Bearer "@ + api_key@,
        r.body@ == spec_request_body(spec_prompt(changed_files@, file_diffs@)),
{
    let prompt = build_prompt(changed_files, file_diffs);
    let quoted = json_quote(prompt.as_str());
    let mut body =
        "{\"messages\":[{\"content\":\"You are an AI that generates concise, professional Git commit messages.\",\"role\":\"system\"},{\"content\":".to_owned();
    body.append(quoted.as_str());
    body.append(",\"role\":\"user\"}],\"model\":\"gpt-4\"}");
    let mut authorization = "Bearer ".to_owned();
    authorization.append(api_key);
    HttpRequest { url: "https://api.openai.com/v1/chat/completions".to_owned(), authorization, body }
}

} // verus!
