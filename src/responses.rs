//! The bodies of the registry's HTTP responses.

use crate::checksum::hex_digit;
use vstd::prelude::*;
use vstd::string::*;

verus! {

/// How one character is written inside a JSON string: quote and backslash
/// behind a backslash, the usual control characters in their short form,
/// the other control characters as `\u00xx` in lowercase hex, and every
/// other character as it is.
pub open spec fn json_escape_char(c: char) -> Seq<char> {
    if c == '"' {
        seq!['\\', '"']
    } else if c == '\\' {
        seq!['\\', '\\']
    } else if c == '\u{8}' {
        seq!['\\', 'b']
    } else if c == '\t' {
        seq!['\\', 't']
    } else if c == '\n' {
        seq!['\\', 'n']
    } else if c == '\u{c}' {
        seq!['\\', 'f']
    } else if c == '\r' {
        seq!['\\', 'r']
    } else if (c as u32) < 32 {
        seq!['\\', 'u', '0', '0', hex_digit(((c as u32) / 16) as u8), hex_digit(((c as u32) % 16) as u8)]
    } else {
        seq![c]
    }
}

/// The escaped characters of a text, as they stand inside a JSON string.
pub open spec fn json_escape(s: Seq<char>) -> Seq<char>
    decreases s.len(),
{
    if s.len() == 0 {
        seq![]
    } else {
        json_escape(s.drop_last()) + json_escape_char(s.last())
    }
}

/// A text written as a JSON string literal: quoted and escaped.
pub open spec fn json_string_of(s: Seq<char>) -> Seq<char> {
    seq!['"'] + json_escape(s) + seq!['"']
}

/// Relies on `serde_json::to_string` on a `str`: the text in quotes, each
/// character escaped by serde_json's escape table. Serialising a `str` cannot
/// fail: it has no map keys and its `Serialize` impl never errs.
#[verifier::external_body]
fn json_string(s: &str) -> (r: String)
    ensures
        r@ == json_string_of(s@),
{
    match serde_json::to_string(s) {
        Ok(t) => t,
        Err(_) => String::new(),
    }
}

/// The body of an error response whose detail is the given quoted text.
pub open spec fn error_body_of(quoted: Seq<char>) -> Seq<char> {
    "{\"errors\":[{\"detail\":"@ + quoted + "}]}"@
}

/// The body of an error response around a detail that is already a JSON
/// value.
pub fn error_body_quoted(quoted: &str) -> (r: String)
    ensures
        r@ == error_body_of(quoted@),
{
    String::from_str("{\"errors\":[{\"detail\":").concat(quoted).concat("}]}")
}

/// The body of an error response: `{"errors":[{"detail":<text>}]}`, with the
/// text as a JSON string.
pub fn error_body(text: &str) -> (r: String)
    ensures
        r@ == error_body_of(json_string_of(text@)),
{
    let quoted = json_string(text);
    error_body_quoted(quoted.as_str())
}

/// The body of the response to a successful publish.
pub fn publish_ok_body() -> (r: String)
    ensures
        r@ == "{\"warnings\":{\"invalid_categories\":[],\"invalid_badges\":[],\"other\":[]}}"@,
{
    String::from_str("{\"warnings\":{\"invalid_categories\":[],\"invalid_badges\":[],\"other\":[]}}")
}

/// The plain-text body of the response to a download of an absent archive.
pub fn not_found_body() -> (r: String)
    ensures
        r@ == "Crate not found"@,
{
    String::from_str("Crate not found")
}

/// The detail of the error returned for a request to no known endpoint.
pub fn unknown_endpoint_detail() -> (r: String)
    ensures
        r@ == "Unexpected endpoint"@,
{
    String::from_str("Unexpected endpoint")
}

/// The HTTP status of the answer to a request for no known endpoint: 404.
/// The error body comes with this status rather than with a success status,
/// so that clients see the failure without reading the body.
pub fn unknown_endpoint_status() -> (r: u16)
    ensures
        r == 404,
{
    404
}

} // verus!
