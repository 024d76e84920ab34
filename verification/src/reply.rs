//! What the callback server answers: status, header lines and body.

use crate::text::{decimal_digits, push_decimal};
use vstd::prelude::*;
use vstd::string::*;
use vstd::utf8::*;

verus! {

/// One header line of a reply.
pub struct HeaderLine {
    pub name: String,
    pub value: String,
}

impl View for HeaderLine {
    type V = (Seq<char>, Seq<char>);

    open spec fn view(&self) -> (Seq<char>, Seq<char>) {
        (self.name@, self.value@)
    }
}

/// The header lines of a list, each as a pair of name and value.
pub open spec fn line_views(lines: Seq<HeaderLine>) -> Seq<(Seq<char>, Seq<char>)> {
    Seq::new(lines.len(), |i: int| lines[i]@)
}

/// A reply as plain data, for the HTTP layer to send.
pub struct Reply {
    pub status: u16,
    pub headers: Vec<HeaderLine>,
    /// `None` for a reply without a body.
    pub body: Option<String>,
}

/// A reply in specifications.
pub struct ReplyView {
    pub status: u16,
    pub headers: Seq<(Seq<char>, Seq<char>)>,
    pub body: Option<Seq<char>>,
}

impl View for Reply {
    type V = ReplyView;

    open spec fn view(&self) -> ReplyView {
        ReplyView {
            status: self.status,
            headers: line_views(self.headers@),
            body: match self.body {
                Some(text) => Some(text@),
                None => None,
            },
        }
    }
}

/// Why a delivery was turned down.
#[derive(Clone, Copy, Debug, PartialEq, Eq, Structural)]
pub enum RequestError {
    /// The body could not be read as text.
    BodyReadFailure,
    /// The body is no JSON.
    InvalidJson,
    /// One of `code`, `nonce`, `state` is absent or no string.
    MissingFields,
    /// The nonce is not the one that the session waits for.
    NonceMismatch,
}

/// The status code that reports `error`: 403 for a wrong nonce, 400 for the rest.
pub open spec fn error_status(error: RequestError) -> u16 {
    match error {
        RequestError::NonceMismatch => 403,
        _ => 400,
    }
}

/// The words that report `error`.
pub open spec fn error_message(error: RequestError) -> Seq<char> {
    match error {
        RequestError::BodyReadFailure => "Failed to read body"@,
        RequestError::InvalidJson => "Invalid JSON"@,
        RequestError::MissingFields => "Missing fields"@,
        RequestError::NonceMismatch => "Invalid nonce"@,
    }
}

/// The body that reports `error`: a JSON object with the one member `error`.
pub open spec fn error_body(error: RequestError) -> Seq<char> {
    "{\"error\":\""@ + error_message(error) + "\"}"@
}

/// The body that reports success.
pub open spec fn success_body() -> Seq<char> {
    "{\"success\":true}"@
}

impl RequestError {
    /// The status code that reports this error.
    pub fn status(&self) -> (code: u16)
        ensures
            code == error_status(*self),
    {
        match self {
            RequestError::NonceMismatch => 403,
            _ => 400,
        }
    }

    /// The words that report this error.
    pub fn message(&self) -> (words: &'static str)
        ensures
            words@ == error_message(*self),
    {
        match self {
            RequestError::BodyReadFailure => "Failed to read body",
            RequestError::InvalidJson => "Invalid JSON",
            RequestError::MissingFields => "Missing fields",
            RequestError::NonceMismatch => "Invalid nonce",
        }
    }

    /// The body that reports this error.
    pub fn body(&self) -> (text: String)
        ensures
            text@ == error_body(*self),
    {
        let mut text = String::from_str("{\"error\":\"");
        text.append(self.message());
        text.append("\"}");
        text
    }
}

/// The header lines that every reply carries, so that a browser lets a page of
/// another origin read it.
pub open spec fn cors_lines() -> Seq<(Seq<char>, Seq<char>)> {
    seq![
        ("Access-Control-Allow-Origin"@, "*"@),
        ("Access-Control-Allow-Methods"@, "POST, OPTIONS"@),
        ("Access-Control-Allow-Headers"@, "Content-Type"@),
        ("Content-Type"@, "application/json"@),
        ("Connection"@, "close"@),
    ]
}

/// Whether each of the lines of `cors_lines` is among `headers`.
pub open spec fn carries_cors(headers: Seq<(Seq<char>, Seq<char>)>) -> bool {
    forall|i: int| 0 <= i < cors_lines().len() ==> headers.contains(#[trigger] cors_lines()[i])
}

/// The reply to a preflight request.
pub open spec fn preflight_model() -> ReplyView {
    ReplyView {
        status: 204,
        headers: seq![("Access-Control-Max-Age"@, "86400"@)] + cors_lines(),
        body: None,
    }
}

/// The reply that turns a delivery down.
pub open spec fn error_model(error: RequestError) -> ReplyView {
    ReplyView {
        status: error_status(error),
        headers: cors_lines(),
        body: Some(error_body(error)),
    }
}

/// The reply to the delivery that was accepted. Its `Content-Length` is the
/// number of bytes of the body.
pub open spec fn success_model() -> ReplyView {
    ReplyView {
        status: 200,
        headers: seq![
            ("Content-Length"@, decimal_digits(encode_utf8(success_body()).len())),
        ] + cors_lines(),
        body: Some(success_body()),
    }
}

/// A header line with the given name and value.
pub fn header_line(name: &str, value: &str) -> (line: HeaderLine)
    ensures
        line@ == (name@, value@),
{
    HeaderLine { name: String::from_str(name), value: String::from_str(value) }
}

/// Appends the lines of `cors_lines` to `headers`.
fn push_cors(headers: &mut Vec<HeaderLine>)
    ensures
        line_views(final(headers)@) == line_views(old(headers)@) + cors_lines(),
{
    headers.push(header_line("Access-Control-Allow-Origin", "*"));
    headers.push(header_line("Access-Control-Allow-Methods", "POST, OPTIONS"));
    headers.push(header_line("Access-Control-Allow-Headers", "Content-Type"));
    headers.push(header_line("Content-Type", "application/json"));
    headers.push(header_line("Connection", "close"));
    assert(line_views(headers@) =~= line_views(old(headers)@) + cors_lines());
}

/// The header lines that every reply carries.
pub fn cors_headers() -> (headers: Vec<HeaderLine>)
    ensures
        line_views(headers@) == cors_lines(),
{
    let mut headers: Vec<HeaderLine> = Vec::new();
    push_cors(&mut headers);
    assert(line_views(headers@) =~= cors_lines());
    headers
}

/// The reply to a preflight request: 204, no body, and how long the browser may
/// remember the answer.
pub fn preflight_reply() -> (reply: Reply)
    ensures
        reply@ == preflight_model(),
{
    let mut headers: Vec<HeaderLine> = Vec::new();
    headers.push(header_line("Access-Control-Max-Age", "86400"));
    push_cors(&mut headers);
    let reply = Reply { status: 204, headers, body: None };
    assert(reply@.headers =~= preflight_model().headers);
    reply
}

/// The reply that turns a delivery down for `error`.
pub fn error_reply(error: RequestError) -> (reply: Reply)
    ensures
        reply@ == error_model(error),
{
    let headers = cors_headers();
    Reply { status: error.status(), headers, body: Some(error.body()) }
}

/// The reply to the delivery that was accepted.
pub fn success_reply() -> (reply: Reply)
    ensures
        reply@ == success_model(),
{
    let body = String::from_str("{\"success\":true}");
    proof {
        lemma_success_body_length();
    }
    let mut length = String::new();
    push_decimal(&mut length, body.as_str().len() as u64);
    let mut headers: Vec<HeaderLine> = Vec::new();
    headers.push(header_line("Content-Length", length.as_str()));
    push_cors(&mut headers);
    let reply = Reply { status: 200, headers, body: Some(body) };
    assert(reply@.headers =~= success_model().headers);
    reply
}

/// The body that reports success is sixteen bytes long, and `Content-Length` says so.
pub proof fn lemma_success_body_length()
    ensures
        encode_utf8(success_body()).len() == 16,
        decimal_digits(encode_utf8(success_body()).len()) == "16"@,
{
    reveal_strlit("{\"success\":true}");
    reveal_strlit("16");
    let body = success_body();
    assert(is_ascii_chars(body));
    is_ascii_chars_encode_utf8(body);
    assert(decimal_digits(1) == seq!['1']);
    assert(decimal_digits(16) =~= "16"@);
}

/// Whether every name and every value among `headers` is ASCII: what an HTTP
/// layer asks of a header line before it sends it.
pub open spec fn lines_are_ascii(headers: Seq<(Seq<char>, Seq<char>)>) -> bool {
    forall|i: int|
        0 <= i < headers.len() ==> is_ascii_chars((#[trigger] headers[i]).0) && is_ascii_chars(
            headers[i].1,
        )
}

/// The CORS lines are ASCII.
proof fn lemma_cors_lines_are_ascii()
    ensures
        lines_are_ascii(cors_lines()),
{
    reveal_strlit("Access-Control-Allow-Origin");
    reveal_strlit("*");
    reveal_strlit("Access-Control-Allow-Methods");
    reveal_strlit("POST, OPTIONS");
    reveal_strlit("Access-Control-Allow-Headers");
    reveal_strlit("Content-Type");
    reveal_strlit("application/json");
    reveal_strlit("Connection");
    reveal_strlit("close");
    let cors = cors_lines();
    assert(is_ascii_chars(cors[0].0) && is_ascii_chars(cors[0].1));
    assert(is_ascii_chars(cors[1].0) && is_ascii_chars(cors[1].1));
    assert(is_ascii_chars(cors[2].0) && is_ascii_chars(cors[2].1));
    assert(is_ascii_chars(cors[3].0) && is_ascii_chars(cors[3].1));
    assert(is_ascii_chars(cors[4].0) && is_ascii_chars(cors[4].1));
}

/// Every header line of every reply of this module is ASCII.
pub proof fn lemma_header_lines_are_ascii(error: RequestError)
    ensures
        lines_are_ascii(preflight_model().headers),
        lines_are_ascii(error_model(error).headers),
        lines_are_ascii(success_model().headers),
{
    lemma_cors_lines_are_ascii();
    lemma_success_body_length();
    reveal_strlit("Access-Control-Max-Age");
    reveal_strlit("86400");
    reveal_strlit("Content-Length");
    reveal_strlit("16");
    let cors = cors_lines();
    let preflight = preflight_model().headers;
    assert(is_ascii_chars(preflight[0].0) && is_ascii_chars(preflight[0].1));
    assert forall|i: int| 0 <= i < preflight.len() implies is_ascii_chars(
        (#[trigger] preflight[i]).0,
    ) && is_ascii_chars(preflight[i].1) by {
        if i > 0 {
            assert(preflight[i] == cors[i - 1]);
        }
    }
    let success = success_model().headers;
    assert(is_ascii_chars(success[0].0) && is_ascii_chars(success[0].1));
    assert forall|i: int| 0 <= i < success.len() implies is_ascii_chars(
        (#[trigger] success[i]).0,
    ) && is_ascii_chars(success[i].1) by {
        if i > 0 {
            assert(success[i] == cors[i - 1]);
        }
    }
}

/// Every reply of this module carries the lines of `cors_lines`.
pub proof fn lemma_replies_carry_cors(error: RequestError)
    ensures
        carries_cors(preflight_model().headers),
        carries_cors(error_model(error).headers),
        carries_cors(success_model().headers),
{
    let cors = cors_lines();
    assert forall|i: int| 0 <= i < cors.len() implies preflight_model().headers.contains(
        #[trigger] cors[i],
    ) by {
        assert(preflight_model().headers[i + 1] == cors[i]);
    }
    assert forall|i: int| 0 <= i < cors.len() implies error_model(error).headers.contains(
        #[trigger] cors[i],
    ) by {
        assert(error_model(error).headers[i] == cors[i]);
    }
    assert forall|i: int| 0 <= i < cors.len() implies success_model().headers.contains(
        #[trigger] cors[i],
    ) by {
        assert(success_model().headers[i + 1] == cors[i]);
    }
}

} // verus!
