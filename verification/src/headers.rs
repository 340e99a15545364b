//! Reading the declared content type out of a response's headers, as the
//! HTTP client holds them.

use crate::fetcher::{decide_on_head, head_fits, HeadDecision, SendOutcome};
use crate::text::optional_text;
use reqwest::header::{HeaderMap, HeaderValue};
use vstd::prelude::*;

verus! {

/// The header map of the HTTP client: opaque here, read only through the
/// functions below.
#[verifier::external_type_specification]
#[verifier::external_body]
#[verifier::reject_recursive_types(T)]
pub struct ExHeaderMap<T>(reqwest::header::HeaderMap<T>);

/// One header value of the HTTP client: opaque here.
#[verifier::external_type_specification]
#[verifier::external_body]
pub struct ExHeaderValue(reqwest::header::HeaderValue);

/// The bytes that a header value holds.
pub uninterp spec fn value_bytes(value: HeaderValue) -> Seq<u8>;

/// The bytes of the first value that `headers` holds under `name`, if it
/// holds any.
pub uninterp spec fn first_value_bytes(headers: HeaderMap, name: Seq<char>) -> Option<Seq<u8>>;

/// A byte that may stand in a header value read as text: visible ASCII, the
/// space or the tab.
pub open spec fn is_text_byte(byte: u8) -> bool {
    32 <= byte < 127 || byte == 9
}

/// Whether each of `bytes` may stand in a header value read as text.
pub open spec fn is_text(bytes: Seq<u8>) -> bool {
    forall|i: int| 0 <= i < bytes.len() ==> is_text_byte(#[trigger] bytes[i])
}

/// `bytes` read as text, one character for each byte.
pub open spec fn as_text(bytes: Seq<u8>) -> Seq<char> {
    Seq::new(bytes.len(), |i: int| bytes[i] as char)
}

/// The `Content-Type` header of `headers` as text: its first value, unless
/// there is none or it holds a byte that is no text.
pub open spec fn content_type_header(headers: HeaderMap) -> Option<Seq<char>> {
    match first_value_bytes(headers, "Content-Type"@) {
        Some(bytes) => if is_text(bytes) {
            Some(as_text(bytes))
        } else {
            None
        },
        None => None,
    }
}

/// `HeaderMap::get` with a text key. The contract names the bytes of what it
/// returns: of the first value stored under `name`, or nothing where there is
/// none (which includes a `name` that is no header name). It claims nothing
/// of which bytes those are.
#[verifier::external_body]
fn lookup<'a>(headers: &'a HeaderMap, name: &str) -> (found: Option<&'a HeaderValue>)
    ensures
        match found {
            Some(value) => first_value_bytes(*headers, name@) == Some(value_bytes(*value)),
            None => first_value_bytes(*headers, name@) is None,
        },
{
    headers.get(name)
}

/// `HeaderValue::to_str`. The contract claims that the value reads as text
/// exactly when each of its bytes is visible ASCII, a space or a tab, and that
/// the text then has one character for each byte, with the byte's code.
#[verifier::external_body]
fn value_text(value: &HeaderValue) -> (text: Option<String>)
    ensures
        text is Some <==> is_text(value_bytes(*value)),
        text matches Some(read) ==> read@ == as_text(value_bytes(*value)),
{
    value.to_str().ok().map(|read| read.to_string())
}

/// The `Content-Type` header of a response, where it has one that is text.
pub fn declared_content_type(headers: &HeaderMap) -> (declared: Option<String>)
    ensures
        optional_text(declared) == content_type_header(*headers),
{
    match lookup(headers, "Content-Type") {
        Some(value) => value_text(value),
        None => None,
    }
}

/// Decides on the headers of a response that arrived whether its body is
/// read: by the resolved content type alone.
pub fn decide_on_headers(headers: &HeaderMap) -> (decision: HeadDecision)
    ensures
        head_fits(content_type_header(*headers), decision),
{
    let outcome = SendOutcome::Head { content_type: declared_content_type(headers) };
    decide_on_head(outcome)
}

} // verus!
