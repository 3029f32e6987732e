//! The transcription client: where it sends what, and what it makes of the
//! answers. The requests themselves are the caller's; JSON is read by the
//! `serde_json` crate.

use crate::error::PipelineError;
use vstd::prelude::*;
use vstd::string::StringExecFns;

verus! {

/// How a request without a body of interest ended.
#[derive(Clone, Copy, Debug, PartialEq, Eq, Structural)]
pub enum ProbeOutcome {
    /// No connection, or the request failed on the way.
    Unreachable,
    /// The service answered with this status.
    Status(u16),
}

/// How the dispatch of the audio ended.
#[derive(Debug)]
pub enum DispatchOutcome {
    /// No connection, or the request failed on the way.
    Unreachable,
    /// The service answered with this status and body.
    Response { status: u16, body: Vec<u8> },
}

/// The statuses that count as success: 200 to 299.
pub open spec fn is_success(status: u16) -> bool {
    200 <= status < 300
}

/// What the reachability check makes of its outcome.
pub open spec fn health_verdict(outcome: ProbeOutcome) -> Result<(), PipelineError> {
    match outcome {
        ProbeOutcome::Unreachable => Err(PipelineError::BackendUnreachable),
        ProbeOutcome::Status(status) => if is_success(status) {
            Ok(())
        } else {
            Err(PipelineError::BackendUnhealthy)
        },
    }
}

/// What the client makes of a 2xx answer, given what the JSON reader found
/// under the key `text`: nothing at all for a body that is no JSON
/// document, else the member if it is a string.
pub open spec fn transcript_of(member: Option<Option<Seq<char>>>) -> Result<
    Seq<char>,
    PipelineError,
> {
    match member {
        None => Err(PipelineError::MalformedResponse),
        Some(None) => Ok("No text returned"@),
        Some(Some(text)) => Ok(text),
    }
}

/// What the client makes of an answer to the dispatch.
pub open spec fn transcription_of(status: u16, body: Seq<u8>) -> Result<Seq<char>, PipelineError> {
    if is_success(status) {
        transcript_of(json_string_member(body, "text"@))
    } else {
        Err(PipelineError::BackendError(status))
    }
}

/// A text result by its characters.
pub open spec fn text_view(r: Result<String, PipelineError>) -> Result<Seq<char>, PipelineError> {
    match r {
        Ok(text) => Ok(text@),
        Err(e) => Err(e),
    }
}

/// `serde_json::Error`, carried through and never looked into.
#[verifier::external_type_specification]
#[verifier::external_body]
pub struct ExJsonError(serde_json::Error);

/// What `serde_json` finds in `body` under `key`: `None` where `body` is
/// not a JSON document, `Some(None)` where the document is no object, has
/// no such member, or has one that is no string, and else the string.
pub uninterp spec fn json_string_member(body: Seq<u8>, key: Seq<char>) -> Option<
    Option<Seq<char>>,
>;

/// `serde_json::from_slice` into a `serde_json::Value`, of which
/// `Value::get` and `Value::as_str` then pick the string under `key`.
/// Trusted: the outcome depends on the bytes and the key alone, and is what
/// `json_string_member` names.
#[verifier::external_body]
pub(crate) fn read_string_member(body: &[u8], key: &str) -> (r: Result<
    Option<String>,
    serde_json::Error,
>)
    ensures
        match r {
            Ok(Some(text)) => json_string_member(body@, key@) == Some(Some(text@)),
            Ok(None) => json_string_member(body@, key@) == Some(None::<Seq<char>>),
            Err(_) => json_string_member(body@, key@) is None,
        },
{
    let document: serde_json::Value = serde_json::from_slice(body)?;
    Ok(document.get(key).and_then(|member| member.as_str()).map(|text| text.to_string()))
}

/// The list of strings that `serde_json` reads from `body`: `None` where
/// `body` is not a JSON array of strings and nothing else.
pub uninterp spec fn json_string_list(body: Seq<u8>) -> Option<Seq<Seq<char>>>;

/// `serde_json::from_slice` into a `Vec<String>`. Trusted: the outcome
/// depends on the bytes alone, and is what `json_string_list` names.
#[verifier::external_body]
pub(crate) fn read_string_list(body: &[u8]) -> (r: Result<Vec<String>, serde_json::Error>)
    ensures
        match r {
            Ok(list) => json_string_list(body@) == Some(list@.map_values(|s: String| s@)),
            Err(_) => json_string_list(body@) is None,
        },
{
    serde_json::from_slice(body)
}

/// What the client makes of an answer to the question for the models,
/// given the list the JSON reader found in a 2xx body, if it found one.
pub open spec fn model_list_of(status: u16, list: Option<Seq<Seq<char>>>) -> Result<
    Seq<Seq<char>>,
    PipelineError,
> {
    if !is_success(status) {
        Err(PipelineError::BackendError(status))
    } else {
        match list {
            Some(models) => Ok(models),
            None => Err(PipelineError::MalformedResponse),
        }
    }
}

/// A list result by the characters of its entries.
pub open spec fn list_view(r: Result<Vec<String>, PipelineError>) -> Result<
    Seq<Seq<char>>,
    PipelineError,
> {
    match r {
        Ok(list) => Ok(list@.map_values(|s: String| s@)),
        Err(e) => Err(e),
    }
}

/// Tests `is_success`.
pub fn status_is_success(status: u16) -> (b: bool)
    ensures
        b == is_success(status),
{
    200 <= status && status < 300
}

/// The address of the reachability check.
pub fn health_url(backend_url: &str) -> (url: String)
    ensures
        url@ == backend_url@ + "/health"@,
{
    String::from_str(backend_url).concat("/health")
}

/// The address the audio goes to.
pub fn transcribe_url(backend_url: &str) -> (url: String)
    ensures
        url@ == backend_url@ + "/transcribe_raw"@,
{
    String::from_str(backend_url).concat("/transcribe_raw")
}

/// The address that takes the choice of a model.
pub fn set_model_url(backend_url: &str) -> (url: String)
    ensures
        url@ == backend_url@ + "/set_model"@,
{
    String::from_str(backend_url).concat("/set_model")
}

/// The address that lists the models.
pub fn models_url(backend_url: &str) -> (url: String)
    ensures
        url@ == backend_url@ + "/models"@,
{
    String::from_str(backend_url).concat("/models")
}

/// The content type the audio is sent under: opaque bytes.
pub fn audio_content_type() -> (t: String)
    ensures
        t@ == "application/octet-stream"@,
{
    String::from_str("application/octet-stream")
}

/// Judges the reachability check. Only a 2xx status lets the session go on
/// to send its audio.
pub fn check_health(outcome: ProbeOutcome) -> (r: Result<(), PipelineError>)
    ensures
        r == health_verdict(outcome),
{
    match outcome {
        ProbeOutcome::Unreachable => Err(PipelineError::BackendUnreachable),
        ProbeOutcome::Status(status) => {
            if status_is_success(status) {
                Ok(())
            } else {
                Err(PipelineError::BackendUnhealthy)
            }
        },
    }
}

/// Turns what the JSON reader found into the transcript: the string under
/// `text`, a placeholder where the document has none, and
/// `MalformedResponse` where there was no document.
pub fn transcript_from_member(member: Option<Option<String>>) -> (r: Result<String, PipelineError>)
    ensures
        text_view(r) == transcript_of(
            match member {
                None => None,
                Some(None) => Some(None),
                Some(Some(text)) => Some(Some(text@)),
            },
        ),
{
    match member {
        None => Err(PipelineError::MalformedResponse),
        Some(None) => Ok(String::from_str("No text returned")),
        Some(Some(text)) => Ok(text),
    }
}

/// Reads the answer to the dispatch. A status outside 2xx is a
/// `BackendError` with that status, whatever the body; a 2xx body is read
/// as JSON.
pub fn read_transcription(status: u16, body: &[u8]) -> (r: Result<String, PipelineError>)
    ensures
        text_view(r) == transcription_of(status, body@),
{
    if !status_is_success(status) {
        return Err(PipelineError::BackendError(status));
    }
    let member = match read_string_member(body, "text") {
        Ok(found) => Some(found),
        Err(_) => None,
    };
    transcript_from_member(member)
}

/// Turns the status and what the JSON reader found into the list of
/// models: a status outside 2xx is a `BackendError`, a body without a list
/// of strings a `MalformedResponse`.
pub fn models_from_answer(status: u16, list: Option<Vec<String>>) -> (r: Result<
    Vec<String>,
    PipelineError,
>)
    ensures
        list_view(r) == model_list_of(
            status,
            match list {
                Some(models) => Some(models@.map_values(|s: String| s@)),
                None => None,
            },
        ),
{
    if !status_is_success(status) {
        return Err(PipelineError::BackendError(status));
    }
    match list {
        Some(models) => Ok(models),
        None => Err(PipelineError::MalformedResponse),
    }
}

/// Reads the answer to the question for the models. The body is read as
/// JSON only behind a 2xx status.
pub fn read_model_list(status: u16, body: &[u8]) -> (r: Result<Vec<String>, PipelineError>)
    ensures
        list_view(r) == model_list_of(status, json_string_list(body@)),
{
    if !status_is_success(status) {
        return Err(PipelineError::BackendError(status));
    }
    let list = match read_string_list(body) {
        Ok(models) => Some(models),
        Err(_) => None,
    };
    models_from_answer(status, list)
}

/// What the dispatch comes to, as far as the bytes alone decide.
pub open spec fn dispatch_verdict(outcome: DispatchOutcome) -> Result<Seq<char>, PipelineError> {
    match outcome {
        DispatchOutcome::Unreachable => Err(PipelineError::BackendUnreachable),
        DispatchOutcome::Response { status, body } => transcription_of(status, body@),
    }
}

/// Judges the dispatch.
pub fn read_dispatch(outcome: &DispatchOutcome) -> (r: Result<String, PipelineError>)
    ensures
        text_view(r) == dispatch_verdict(*outcome),
{
    match outcome {
        DispatchOutcome::Unreachable => Err(PipelineError::BackendUnreachable),
        DispatchOutcome::Response { status, body } => read_transcription(*status, body.as_slice()),
    }
}

} // verus!
