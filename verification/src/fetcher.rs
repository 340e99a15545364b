//! Fetching remote audio: one GET with a fixed timeout, a check of the
//! declared content type, then the whole body.
//!
//! The transport itself is the caller's. This module says what to ask for,
//! decides on the response head whether the body is read at all, and puts the
//! result together.

use crate::error::{ErrorKind, NetworkStage};
use crate::text::{optional_text, same_text, starts_with};
use vstd::prelude::*;

verus! {

/// Seconds allowed for the whole request, the body included.
pub const FETCH_TIMEOUT_SECS: u64 = 60;

/// What a successful fetch hands back.
#[derive(Clone, Debug, PartialEq, Eq)]
pub struct AudioPayload {
    /// The content type that the response declared, or the default.
    pub content_type: String,
    /// The response body, whole and unchanged.
    pub data: Vec<u8>,
}

/// The one request that a fetch makes.
#[derive(Clone, Debug, PartialEq, Eq)]
pub struct FetchRequest {
    /// Where the GET goes, as the caller gave it.
    pub url: String,
    /// The total timeout, in seconds.
    pub timeout_secs: u64,
}

/// How sending the request ended.
#[derive(Clone, Debug, PartialEq, Eq)]
pub enum SendOutcome {
    /// The HTTP client could not be set up.
    ClientFailed { cause: String },
    /// No response: name resolution, connection, TLS or the timeout failed.
    SendFailed { cause: String },
    /// A response head arrived. `content_type` is its `Content-Type` header
    /// where it has one that is text.
    Head { content_type: Option<String> },
}

/// What to do once sending has ended.
#[derive(Clone, Debug, PartialEq, Eq)]
pub enum HeadDecision {
    /// Read the whole body; the payload will carry `content_type`.
    ReadBody { content_type: String },
    /// End the fetch with this error; the body is not read.
    Fail { error: ErrorKind },
}

/// The content type taken for a response that declares none.
pub open spec fn default_content_type() -> Seq<char> {
    "audio/mpeg"@
}

/// The content type of a response whose header, if any, reads `declared`.
pub open spec fn resolved_content_type(declared: Option<Seq<char>>) -> Seq<char> {
    match declared {
        Some(text) => text,
        None => default_content_type(),
    }
}

/// The accepted content types: whatever begins with `audio/`, and one
/// literal besides. The comparison is by characters; nothing is parsed.
pub open spec fn is_supported_content_type(content_type: Seq<char>) -> bool {
    "audio/"@.is_prefix_of(content_type) || content_type
        == "application/octet-stream;charset=UTF-8"@
}

/// Whether `decision` is the one for a response head whose `Content-Type`
/// header, if any, reads `declared`: the body is read under the resolved
/// content type if that is accepted, and else the fetch fails, naming it.
pub open spec fn head_fits(declared: Option<Seq<char>>, decision: HeadDecision) -> bool {
    let resolved = resolved_content_type(declared);
    if is_supported_content_type(resolved) {
        decision matches HeadDecision::ReadBody { content_type: kept } && kept@ == resolved
    } else {
        decision matches HeadDecision::Fail {
            error: ErrorKind::UnsupportedFormatError { content_type: refused },
        } && refused@ == resolved
    }
}

/// Whether `decision` is the one that `outcome` calls for: a transport
/// failure ends the fetch with its cause; a head is accepted or refused by
/// its resolved content type alone.
pub open spec fn decision_fits(outcome: SendOutcome, decision: HeadDecision) -> bool {
    match outcome {
        SendOutcome::ClientFailed { cause } => decision == (HeadDecision::Fail {
            error: ErrorKind::NetworkError { stage: NetworkStage::BuildClient, cause },
        }),
        SendOutcome::SendFailed { cause } => decision == (HeadDecision::Fail {
            error: ErrorKind::NetworkError { stage: NetworkStage::SendRequest, cause },
        }),
        SendOutcome::Head { content_type } => head_fits(optional_text(content_type), decision),
    }
}

/// Whether `result` is what a fetch returns once the head was accepted with
/// `content_type` and reading the body ended in `body`.
pub open spec fn result_fits(
    content_type: String,
    body: Result<Vec<u8>, String>,
    result: Result<AudioPayload, ErrorKind>,
) -> bool {
    match body {
        Ok(data) => result == Ok::<AudioPayload, ErrorKind>(AudioPayload { content_type, data }),
        Err(cause) => result == Err::<AudioPayload, ErrorKind>(
            ErrorKind::NetworkError { stage: NetworkStage::ReadBody, cause },
        ),
    }
}

/// The request for `url`: a GET under the fixed timeout. The URL is passed on
/// as it is.
pub fn plan_request(url: String) -> (request: FetchRequest)
    ensures
        request.url == url,
        request.timeout_secs == 60,
{
    FetchRequest { url, timeout_secs: FETCH_TIMEOUT_SECS }
}

/// The content type of a response, given its header if it has one.
pub fn resolve_content_type(declared: Option<String>) -> (content_type: String)
    ensures
        content_type@ == resolved_content_type(optional_text(declared)),
{
    match declared {
        Some(text) => text,
        None => String::from_str("audio/mpeg"),
    }
}

/// Whether `content_type` is accepted.
pub fn is_supported(content_type: &str) -> (accepted: bool)
    ensures
        accepted == is_supported_content_type(content_type@),
{
    starts_with(content_type, "audio/") || same_text(
        content_type,
        "application/octet-stream;charset=UTF-8",
    )
}

/// Decides, once sending has ended, whether the body is read. A response
/// without a usable `Content-Type` header counts as `audio/mpeg`.
pub fn decide_on_head(outcome: SendOutcome) -> (decision: HeadDecision)
    ensures
        decision_fits(outcome, decision),
{
    match outcome {
        SendOutcome::ClientFailed { cause } => HeadDecision::Fail {
            error: ErrorKind::NetworkError { stage: NetworkStage::BuildClient, cause },
        },
        SendOutcome::SendFailed { cause } => HeadDecision::Fail {
            error: ErrorKind::NetworkError { stage: NetworkStage::SendRequest, cause },
        },
        SendOutcome::Head { content_type } => {
            let resolved = resolve_content_type(content_type);
            if is_supported(resolved.as_str()) {
                HeadDecision::ReadBody { content_type: resolved }
            } else {
                HeadDecision::Fail {
                    error: ErrorKind::UnsupportedFormatError { content_type: resolved },
                }
            }
        },
    }
}

/// Ends a fetch whose head was accepted with `content_type`: the payload with
/// the whole body, or the failure to read it.
pub fn finish_fetch(content_type: String, body: Result<Vec<u8>, String>) -> (result: Result<
    AudioPayload,
    ErrorKind,
>)
    ensures
        result_fits(content_type, body, result),
{
    match body {
        Ok(data) => Ok(AudioPayload { content_type, data }),
        Err(cause) => Err(ErrorKind::NetworkError { stage: NetworkStage::ReadBody, cause }),
    }
}

/// A response that declares no content type is accepted: the default passes
/// the check.
pub proof fn lemma_default_is_supported()
    ensures
        is_supported_content_type(default_content_type()),
        is_supported_content_type(resolved_content_type(None)),
{
    reveal_strlit("audio/mpeg");
    reveal_strlit("audio/");
    assert("audio/mpeg"@.subrange(0, 6) =~= "audio/"@);
}

/// A fetch succeeds only under an accepted content type, and then hands back
/// that content type and the body as it was read; whatever is said of the
/// content type, a failed transport fails the fetch.
pub proof fn lemma_fetch_outcome(
    outcome: SendOutcome,
    decision: HeadDecision,
    body: Result<Vec<u8>, String>,
    result: Result<AudioPayload, ErrorKind>,
)
    requires
        decision_fits(outcome, decision),
        decision matches HeadDecision::ReadBody { content_type } && result_fits(
            content_type,
            body,
            result,
        ),
    ensures
        outcome matches SendOutcome::Head { content_type: declared } && is_supported_content_type(
            resolved_content_type(optional_text(declared)),
        ),
        result matches Ok(payload) ==> body == Ok::<Vec<u8>, String>(payload.data)
            && payload.content_type@ == resolved_content_type(
            optional_text(outcome->Head_content_type),
        ),
        result is Ok <==> body is Ok,
{
}

} // verus!
