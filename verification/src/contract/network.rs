//! Networking and preview action DTOs and the bounds their inputs must satisfy.
use vstd::prelude::*;
use vstd::string::StrSliceExecFns;

use crate::actor::filesystem::{content_bytes, FileBytes, FileContentInput};
use crate::error::{fault, outcome, outcome_of, then, ActorError, ErrorCode, Outcome};
use crate::strmap::{pairs_bytes, total_bytes, StringMap};
use crate::text::{appended, byte_len, decimal, owned, with_number};

verus! {

pub const MAX_HTTP_PATH_BYTES: usize = 16 * 1024;
pub const MAX_HTTP_METHOD_BYTES: usize = 32;
pub const MAX_HTTP_HEADERS: usize = 128;
pub const MAX_HTTP_HEADER_BYTES: usize = 64 * 1024;
pub const MAX_HTTP_BODY_BYTES: usize = 512 * 1024;
pub const MAX_HTTP_RESPONSE_BYTES: usize = 768 * 1024;
pub const MAX_STREAM_CHUNK_BYTES: u32 = 128 * 1024;
pub const DEFAULT_STREAM_CHUNK_BYTES: u32 = 64 * 1024;
pub const MAX_STREAM_ID_BYTES: usize = 256;
pub const MAX_STREAM_LIFETIME_MS: i64 = 60 * 60 * 1_000;
pub const MAX_PREVIEW_TOKEN_BYTES: usize = 128;

// ---------------------------------------------------------------------------
// Specification
// ---------------------------------------------------------------------------

/// A value within `max`.
pub open spec fn check_limit(label: Seq<char>, actual: nat, max: nat) -> Outcome {
    if actual > max {
        Err(fault(ErrorCode::LimitExceeded, label + " is "@ + decimal(actual) + "; maximum is "@ + decimal(max)))
    } else {
        Ok(())
    }
}

/// A nonempty string of at most `max` bytes.
pub open spec fn check_nonempty_bytes(label: Seq<char>, value: Seq<char>, max: nat) -> Outcome {
    if value.len() == 0 {
        Err(fault(ErrorCode::InvalidInput, label + " cannot be empty"@))
    } else {
        check_limit(label, byte_len(value), max)
    }
}

/// A byte sum that saturates at `usize::MAX`.
pub open spec fn saturate(n: nat) -> nat {
    if n > usize::MAX { usize::MAX as nat } else { n }
}

/// Request headers: bounded count and bounded total bytes.
pub open spec fn check_headers(headers: Seq<(Seq<char>, Seq<char>)>) -> Outcome {
    if headers.len() > MAX_HTTP_HEADERS {
        Err(fault(ErrorCode::LimitExceeded, "HTTP headers has "@ + decimal(headers.len()) + " entries; maximum is 128"@))
    } else {
        check_limit("HTTP headers"@, saturate(total_bytes(headers)), MAX_HTTP_HEADER_BYTES as nat)
    }
}

/// An ASCII hexadecimal digit.
pub open spec fn is_hex_digit(c: char) -> bool {
    ('0' <= c && c <= '9') || ('a' <= c && c <= 'f') || ('A' <= c && c <= 'F')
}

/// An ASCII letter of either case, or '-': what an HTTP method may contain
/// once lower-case letters are upper-cased.
pub open spec fn is_method_char(c: char) -> bool {
    ('A' <= c && c <= 'Z') || ('a' <= c && c <= 'z') || c == '-'
}

/// A preview token: nonempty, bounded, hexadecimal.
pub open spec fn check_token(token: Seq<char>) -> Outcome {
    then(
        check_nonempty_bytes("preview token"@, token, MAX_PREVIEW_TOKEN_BYTES as nat),
        if forall|i: int| 0 <= i < token.len() ==> is_hex_digit(#[trigger] token[i]) {
            Ok(())
        } else {
            Err(fault(ErrorCode::InvalidInput, "preview token contains invalid bytes"@))
        },
    )
}

/// A fetch stream handle.
pub open spec fn check_stream(stream: ActorFetchStreamId) -> Outcome {
    if stream.generation == 0 {
        Err(fault(ErrorCode::InvalidInput, "fetch stream generation must be greater than zero"@))
    } else if stream.expires_at_ms <= 0 {
        Err(fault(ErrorCode::InvalidInput, "fetch stream expiration must be greater than zero"@))
    } else {
        check_nonempty_bytes("fetch stream id"@, stream.stream_id@, MAX_STREAM_ID_BYTES as nat)
    }
}

/// An HTTP request forwarded into the VM, in check order.
pub open spec fn check_http_request(request: ActorHttpRequest) -> Outcome {
    if request.port == 0 {
        Err(fault(ErrorCode::InvalidInput, "network port must be between 1 and 65535"@))
    } else {
        then(check_nonempty_bytes("HTTP path"@, request.path@, MAX_HTTP_PATH_BYTES as nat),
        then(if request.path@[0] != '/' {
                Err(fault(ErrorCode::InvalidInput, "HTTP path must start with '/'"@))
            } else { Ok(()) },
        then(check_nonempty_bytes("HTTP method"@, request.method@, MAX_HTTP_METHOD_BYTES as nat),
        then(if forall|i: int| 0 <= i < request.method@.len() ==> is_method_char(#[trigger] request.method@[i]) {
                Ok(())
            } else {
                Err(fault(ErrorCode::InvalidInput, "HTTP method contains invalid bytes"@))
            },
        then(check_headers(request.headers@),
        match request.body {
            Some(body) => check_limit("HTTP body"@, content_bytes(body), MAX_HTTP_BODY_BYTES as nat),
            None => Ok(()),
        })))))
    }
}

/// ASCII lower-casing of one character; other characters are unchanged.
pub open spec fn ascii_lower(c: char) -> char {
    if 'A' <= c && c <= 'Z' { ((c as int) + 32) as char } else { c }
}

/// ASCII lower-casing of a string.
pub open spec fn ascii_lowercase(s: Seq<char>) -> Seq<char> {
    s.map_values(|c: char| ascii_lower(c))
}

/// Headers that describe one connection and must not be forwarded.
pub open spec fn hop_by_hop(name: Seq<char>) -> bool {
    let lower = ascii_lowercase(name);
    lower == "connection"@ || lower == "keep-alive"@ || lower == "proxy-authenticate"@
        || lower == "proxy-authorization"@ || lower == "te"@ || lower == "trailer"@
        || lower == "transfer-encoding"@ || lower == "upgrade"@
}

// ---------------------------------------------------------------------------
// DTOs
// ---------------------------------------------------------------------------

/// An HTTP request sent to a port inside the VM.
#[derive(Debug, Clone, PartialEq, Eq)]
pub struct ActorHttpRequest {
    pub port: u16,
    pub method: String,
    pub path: String,
    pub headers: StringMap,
    pub body: Option<FileContentInput>,
}

/// A buffered HTTP response as the VM returned it.
#[derive(Debug, Clone, PartialEq, Eq)]
pub struct HttpResponse {
    pub status: u16,
    pub status_text: String,
    pub headers: Vec<(String, String)>,
    pub body: Vec<u8>,
}

/// The head of a streamed HTTP response as the VM returned it.
#[derive(Debug, Clone, PartialEq, Eq)]
pub struct HttpStreamHead {
    pub stream_id: String,
    pub status: u16,
    pub status_text: String,
    pub headers: Vec<(String, String)>,
}

/// One chunk of a streamed HTTP response as the VM returned it.
#[derive(Debug, Clone, PartialEq, Eq)]
pub struct HttpStreamChunk {
    pub body: Vec<u8>,
    pub done: bool,
}

/// `network.fetch` result.
#[derive(Debug, Clone, PartialEq, Eq)]
pub struct ActorHttpResponse {
    pub status: u16,
    pub status_text: String,
    pub headers: Vec<(String, String)>,
    pub body: FileBytes,
}

/// A fetch stream, scoped to a VM generation, with its expiry.
#[derive(Debug, Clone, PartialEq, Eq)]
pub struct ActorFetchStreamId {
    pub generation: u64,
    pub stream_id: String,
    pub expires_at_ms: i64,
}

/// `network.fetchStream.start` result.
#[derive(Debug, Clone, PartialEq, Eq)]
pub struct ActorFetchStreamHead {
    pub stream: ActorFetchStreamId,
    pub status: u16,
    pub status_text: String,
    pub headers: Vec<(String, String)>,
}

/// `network.fetchStream.read` result.
#[derive(Debug, Clone, PartialEq, Eq)]
pub struct ActorFetchStreamChunk {
    pub body: FileBytes,
    pub done: bool,
}

/// `network.fetch` input.
#[derive(Debug, Clone, PartialEq, Eq)]
pub struct NetworkFetch {
    pub request: ActorHttpRequest,
}

/// `network.fetchStream.start` input.
#[derive(Debug, Clone, PartialEq, Eq)]
pub struct NetworkFetchStreamStart {
    pub request: ActorHttpRequest,
}

/// `network.fetchStream.read` input.
#[derive(Debug, Clone, PartialEq, Eq)]
pub struct NetworkFetchStreamRead {
    pub stream: ActorFetchStreamId,
    pub max_bytes: Option<u32>,
}

/// `network.fetchStream.cancel` input.
#[derive(Debug, Clone, PartialEq, Eq)]
pub struct NetworkFetchStreamCancel {
    pub stream: ActorFetchStreamId,
}

/// `network.preview.create` input.
#[derive(Debug, Clone, PartialEq, Eq)]
pub struct NetworkPreviewCreate {
    pub port: u16,
    pub ttl_ms: Option<u64>,
}

/// A signed preview of a VM port.
#[derive(Debug, Clone, PartialEq, Eq)]
pub struct ActorPreview {
    pub token: String,
    pub path: String,
    pub port: u16,
    pub expires_at_ms: i64,
}

/// `network.preview.expire` input.
#[derive(Debug, Clone, PartialEq, Eq)]
pub struct NetworkPreviewExpire {
    pub token: String,
}

// ---------------------------------------------------------------------------
// Validation
// ---------------------------------------------------------------------------

/// Rejects a value above `max`.
pub fn validate_limit(label: &str, actual: usize, max: usize) -> (r: Result<(), ActorError>)
    ensures
        outcome(r) == check_limit(label@, actual as nat, max as nat),
{
    if actual > max {
        let body = with_number(with_number(appended(owned(label), " is "), actual, "; maximum is "), max, "");
        proof {
            reveal_strlit("");
        }
        assert(body@ =~= label@ + " is "@ + decimal(actual as nat) + "; maximum is "@ + decimal(max as nat));
        return Err(ActorError::new(ErrorCode::LimitExceeded, body));
    }
    Ok(())
}

/// Rejects an empty string or one longer than `max` bytes.
pub fn validate_nonempty_bytes(label: &str, value: &str, max: usize) -> (r: Result<(), ActorError>)
    ensures
        outcome(r) == check_nonempty_bytes(label@, value@, max as nat),
{
    if value.is_empty() {
        return Err(ActorError::new(ErrorCode::InvalidInput, appended(owned(label), " cannot be empty")));
    }
    validate_limit(label, value.len(), max)
}

/// Checks request headers.
pub fn validate_headers(headers: &StringMap) -> (r: Result<(), ActorError>)
    ensures
        outcome(r) == check_headers(headers@),
{
    let n = headers.len();
    if n > MAX_HTTP_HEADERS {
        let body = with_number(owned("HTTP headers has "), n, " entries; maximum is 128");
        return Err(ActorError::new(ErrorCode::LimitExceeded, body));
    }
    validate_limit("HTTP headers", headers.saturating_total_bytes(), MAX_HTTP_HEADER_BYTES)
}

/// Checks a fetch stream handle.
pub fn validate_stream(stream: &ActorFetchStreamId) -> (r: Result<(), ActorError>)
    ensures
        outcome(r) == check_stream(*stream),
{
    if stream.generation == 0 {
        return Err(ActorError::new(ErrorCode::InvalidInput, owned("fetch stream generation must be greater than zero")));
    }
    if stream.expires_at_ms <= 0 {
        return Err(ActorError::new(ErrorCode::InvalidInput, owned("fetch stream expiration must be greater than zero")));
    }
    validate_nonempty_bytes("fetch stream id", stream.stream_id.as_str(), MAX_STREAM_ID_BYTES)
}

/// Whether every character satisfies the hexadecimal-digit test.
fn all_hex_digits(s: &str) -> (b: bool)
    ensures
        b == forall|i: int| 0 <= i < s@.len() ==> is_hex_digit(#[trigger] s@[i]),
{
    let n = s.unicode_len();
    let mut i: usize = 0;
    while i < n
        invariant
            n == s@.len(),
            i <= n,
            forall|j: int| 0 <= j < i ==> is_hex_digit(#[trigger] s@[j]),
        decreases n - i,
    {
        let c = s.get_char(i);
        if !(('0' <= c && c <= '9') || ('a' <= c && c <= 'f') || ('A' <= c && c <= 'F')) {
            assert(!is_hex_digit(s@[i as int]));
            return false;
        }
        i += 1;
    }
    true
}

/// Checks a preview token.
pub fn validate_token(token: &str) -> (r: Result<(), ActorError>)
    ensures
        outcome(r) == check_token(token@),
{
    let r = validate_nonempty_bytes("preview token", token, MAX_PREVIEW_TOKEN_BYTES);
    if r.is_err() {
        return r;
    }
    if !all_hex_digits(token) {
        return Err(ActorError::new(ErrorCode::InvalidInput, owned("preview token contains invalid bytes")));
    }
    Ok(())
}

/// Whether every character may appear in an HTTP method.
fn all_method_chars(s: &str) -> (b: bool)
    ensures
        b == forall|i: int| 0 <= i < s@.len() ==> is_method_char(#[trigger] s@[i]),
{
    let n = s.unicode_len();
    let mut i: usize = 0;
    while i < n
        invariant
            n == s@.len(),
            i <= n,
            forall|j: int| 0 <= j < i ==> is_method_char(#[trigger] s@[j]),
        decreases n - i,
    {
        let c = s.get_char(i);
        if !(('A' <= c && c <= 'Z') || ('a' <= c && c <= 'z') || c == '-') {
            assert(!is_method_char(s@[i as int]));
            return false;
        }
        i += 1;
    }
    true
}

/// Checks an HTTP request forwarded into the VM.
pub fn validate_http_request(request: &ActorHttpRequest) -> (r: Result<(), ActorError>)
    ensures
        outcome(r) == check_http_request(*request),
{
    if request.port == 0 {
        return Err(ActorError::new(ErrorCode::InvalidInput, owned("network port must be between 1 and 65535")));
    }
    let r = validate_nonempty_bytes("HTTP path", request.path.as_str(), MAX_HTTP_PATH_BYTES);
    if r.is_err() {
        return r;
    }
    if request.path.as_str().get_char(0) != '/' {
        return Err(ActorError::new(ErrorCode::InvalidInput, owned("HTTP path must start with '/'")));
    }
    let r = validate_nonempty_bytes("HTTP method", request.method.as_str(), MAX_HTTP_METHOD_BYTES);
    if r.is_err() {
        return r;
    }
    if !all_method_chars(request.method.as_str()) {
        return Err(ActorError::new(ErrorCode::InvalidInput, owned("HTTP method contains invalid bytes")));
    }
    let r = validate_headers(&request.headers);
    if r.is_err() {
        return r;
    }
    match &request.body {
        Some(body) => validate_limit("HTTP body", body.byte_len(), MAX_HTTP_BODY_BYTES),
        None => Ok(()),
    }
}

/// Whether `name`, ASCII-lower-cased, equals `lowered`.
pub fn ascii_lower_equals(name: &str, lowered: &str) -> (b: bool)
    ensures
        b == (ascii_lowercase(name@) == lowered@),
{
    let n = name.unicode_len();
    let m = lowered.unicode_len();
    if n != m {
        assert(ascii_lowercase(name@).len() != lowered@.len());
        return false;
    }
    let mut i: usize = 0;
    while i < n
        invariant
            n == name@.len(),
            m == lowered@.len(),
            n == m,
            i <= n,
            forall|j: int| 0 <= j < i ==> ascii_lower(#[trigger] name@[j]) == lowered@[j],
        decreases n - i,
    {
        let c = name.get_char(i);
        let d = lowered.get_char(i);
        let lc = if 'A' <= c && c <= 'Z' { ((c as u32) + 32) } else { c as u32 };
        if lc != d as u32 {
            assert(ascii_lowercase(name@)[i as int] != lowered@[i as int]);
            return false;
        }
        assert(ascii_lower(c) == d);
        i += 1;
    }
    assert(ascii_lowercase(name@) =~= lowered@);
    true
}

/// Whether a header describes one connection and must not be forwarded.
pub fn is_hop_by_hop_header(name: &str) -> (b: bool)
    ensures
        b == hop_by_hop(name@),
{
    ascii_lower_equals(name, "connection") || ascii_lower_equals(name, "keep-alive")
        || ascii_lower_equals(name, "proxy-authenticate")
        || ascii_lower_equals(name, "proxy-authorization") || ascii_lower_equals(name, "te")
        || ascii_lower_equals(name, "trailer") || ascii_lower_equals(name, "transfer-encoding")
        || ascii_lower_equals(name, "upgrade")
}

// ---------------------------------------------------------------------------
// Responses reported by the VM
// ---------------------------------------------------------------------------

/// The contents of a header list.
pub open spec fn header_pairs(headers: Seq<(String, String)>) -> Seq<(Seq<char>, Seq<char>)> {
    Seq::new(headers.len(), |i: int| (headers[i].0@, headers[i].1@))
}

/// The bytes of a header list's names and values, saturating at `usize::MAX`.
fn saturating_header_bytes(headers: &Vec<(String, String)>) -> (t: usize)
    ensures
        t == saturate(total_bytes(header_pairs(headers@))),
{
    let ghost pairs = header_pairs(headers@);
    let n = headers.len();
    let mut total: usize = 0;
    let mut i: usize = 0;
    while i < n
        invariant
            n == headers@.len(),
            pairs == header_pairs(headers@),
            i <= n,
            total == saturate(pairs_bytes(pairs, i as int)),
        decreases n - i,
    {
        let name = headers[i].0.as_str().len();
        let value = headers[i].1.as_str().len();
        assert(pairs_bytes(pairs, i as int + 1) == pairs_bytes(pairs, i as int) + name + value);
        total = total.saturating_add(name).saturating_add(value);
        i += 1;
    }
    total
}

/// The bounds of a buffered response: header bytes, then body bytes.
pub open spec fn check_http_response(r: HttpResponse) -> Outcome {
    then(
        check_limit("HTTP response headers"@, saturate(total_bytes(header_pairs(r.headers@))), MAX_HTTP_HEADER_BYTES as nat),
        check_limit("HTTP response body"@, r.body@.len(), MAX_HTTP_RESPONSE_BYTES as nat),
    )
}

/// Bounds a buffered response and maps it to its public form.
pub fn actor_http_response(response: HttpResponse) -> (r: Result<ActorHttpResponse, ActorError>)
    ensures
        outcome_of(r, |x: ActorHttpResponse| ()) == check_http_response(response),
        r matches Ok(x) ==> x == (ActorHttpResponse {
            status: response.status,
            status_text: response.status_text,
            headers: response.headers,
            body: FileBytes(response.body),
        }),
{
    validate_limit("HTTP response headers", saturating_header_bytes(&response.headers), MAX_HTTP_HEADER_BYTES)?;
    validate_limit("HTTP response body", response.body.len(), MAX_HTTP_RESPONSE_BYTES)?;
    Ok(ActorHttpResponse {
        status: response.status,
        status_text: response.status_text,
        headers: response.headers,
        body: FileBytes(response.body),
    })
}

/// The bounds of a stream head received at `now_ms`: its id, its header
/// bytes, then whether its expiry fits.
pub open spec fn check_stream_head(now_ms: i64, head: HttpStreamHead) -> Outcome {
    then(check_nonempty_bytes("fetch stream id"@, head.stream_id@, MAX_STREAM_ID_BYTES as nat),
    then(check_limit("HTTP response headers"@, saturate(total_bytes(header_pairs(head.headers@))), MAX_HTTP_HEADER_BYTES as nat),
    if now_ms + MAX_STREAM_LIFETIME_MS > i64::MAX {
        Err(fault(ErrorCode::Internal, "fetch stream expiration overflow"@))
    } else {
        Ok(())
    }))
}

/// Bounds the head of a streamed response received at `now_ms` and maps it
/// to its public form; the stream expires after its maximum lifetime.
pub fn actor_stream_head(generation: u64, now_ms: i64, head: HttpStreamHead) -> (r: Result<ActorFetchStreamHead, ActorError>)
    ensures
        outcome_of(r, |x: ActorFetchStreamHead| ()) == check_stream_head(now_ms, head),
        r matches Ok(x) ==> x == (ActorFetchStreamHead {
            stream: ActorFetchStreamId {
                generation,
                stream_id: head.stream_id,
                expires_at_ms: (now_ms + MAX_STREAM_LIFETIME_MS) as i64,
            },
            status: head.status,
            status_text: head.status_text,
            headers: head.headers,
        }),
{
    validate_nonempty_bytes("fetch stream id", head.stream_id.as_str(), MAX_STREAM_ID_BYTES)?;
    validate_limit("HTTP response headers", saturating_header_bytes(&head.headers), MAX_HTTP_HEADER_BYTES)?;
    let expires_at_ms = match now_ms.checked_add(MAX_STREAM_LIFETIME_MS) {
        Some(t) => t,
        None => return Err(ActorError::new(ErrorCode::Internal, owned("fetch stream expiration overflow"))),
    };
    Ok(ActorFetchStreamHead {
        stream: ActorFetchStreamId { generation, stream_id: head.stream_id, expires_at_ms },
        status: head.status,
        status_text: head.status_text,
        headers: head.headers,
    })
}

/// Bounds one chunk of a streamed response and maps it to its public form.
pub fn actor_stream_chunk(chunk: HttpStreamChunk) -> (r: Result<ActorFetchStreamChunk, ActorError>)
    ensures
        outcome_of(r, |x: ActorFetchStreamChunk| ()) == check_limit("fetch stream chunk"@, chunk.body@.len(), MAX_STREAM_CHUNK_BYTES as nat),
        r matches Ok(x) ==> x == (ActorFetchStreamChunk { body: FileBytes(chunk.body), done: chunk.done }),
{
    validate_limit("fetch stream chunk", chunk.body.len(), MAX_STREAM_CHUNK_BYTES as usize)?;
    Ok(ActorFetchStreamChunk { body: FileBytes(chunk.body), done: chunk.done })
}

} // verus!
