//! Preview URLs: leasing a guest port under a token, routing a preview
//! request to the guest and filtering the headers that cross.
use vstd::prelude::*;
use vstd::string::StrSliceExecFns;

use crate::contract::config::{PreviewPolicy, MIN_PREVIEW_TTL_MS};
use crate::actor::filesystem::FileContentInput;
use crate::contract::network::{
    check_http_request, validate_http_request, ActorHttpRequest, MAX_HTTP_BODY_BYTES,
    ascii_lower_equals, ascii_lowercase, check_limit, check_token, hop_by_hop, is_hop_by_hop_header, validate_limit,
    validate_token, MAX_HTTP_RESPONSE_BYTES,
};
use crate::error::{fault, outcome_of, ActorError, ErrorCode, Fault};
use crate::strmap::{pairs_insert, StringMap};
use crate::text::{appended, chars_of, decimal, matches_at, owned, u64_text, with_text};

verus! {

/// The path under which preview leases are served.
pub const PREVIEW_PREFIX: &'static str = "/preview/";

/// Refuses port zero for a preview.
pub fn preview_port(port: u16) -> (r: Result<(), ActorError>)
    ensures
        port != 0 ==> r is Ok,
        port == 0 ==> (r matches Err(e) && e@ == fault(ErrorCode::InvalidInput, "preview port must be between 1 and 65535"@)),
{
    if port == 0 {
        return Err(ActorError::new(ErrorCode::InvalidInput, owned("preview port must be between 1 and 65535")));
    }
    Ok(())
}

/// The lifetime of a new preview: the requested one or the policy's default,
/// which must lie between the minimum and the policy's maximum.
pub open spec fn preview_ttl_spec(requested: Option<u64>, policy: PreviewPolicy) -> Result<u64, Fault> {
    let ttl = match requested {
        Some(t) => t,
        None => policy.default_ttl_ms,
    };
    if MIN_PREVIEW_TTL_MS <= ttl && ttl <= policy.max_ttl_ms {
        Ok(ttl)
    } else {
        Err(fault(ErrorCode::LimitExceeded, "preview ttlMs must be between 1000 and "@ + decimal(policy.max_ttl_ms as nat)
            + "; raise config.preview.maxTtlMs up to its actor maximum"@))
    }
}

/// Chooses and bounds the lifetime of a new preview.
pub fn preview_ttl(requested: Option<u64>, policy: &PreviewPolicy) -> (r: Result<u64, ActorError>)
    ensures
        outcome_of(r, |t: u64| t) == preview_ttl_spec(requested, *policy),
{
    let ttl = match requested {
        Some(t) => t,
        None => policy.default_ttl_ms,
    };
    if !(MIN_PREVIEW_TTL_MS <= ttl && ttl <= policy.max_ttl_ms) {
        let head = with_text(owned("preview ttlMs must be between 1000 and "), u64_text(policy.max_ttl_ms).as_str(), "");
        proof {
            reveal_strlit("");
        }
        let body = appended(head, "; raise config.preview.maxTtlMs up to its actor maximum");
        return Err(ActorError::new(ErrorCode::LimitExceeded, body));
    }
    Ok(ttl)
}

/// When a preview created at `created_at_ms` with lifetime `ttl_ms` expires.
pub fn preview_expiry(created_at_ms: i64, ttl_ms: u64) -> (r: Result<i64, ActorError>)
    ensures
        ttl_ms > i64::MAX ==> (r matches Err(e) && e@ == fault(ErrorCode::Internal, "preview TTL exceeds signed range"@)),
        ttl_ms <= i64::MAX && created_at_ms + ttl_ms > i64::MAX ==> (r matches Err(e)
            && e@ == fault(ErrorCode::Internal, "preview expiration overflow"@)),
        ttl_ms <= i64::MAX && created_at_ms + ttl_ms <= i64::MAX ==> r == Ok::<i64, ActorError>((created_at_ms + ttl_ms) as i64),
{
    if ttl_ms > i64::MAX as u64 {
        return Err(ActorError::new(ErrorCode::Internal, owned("preview TTL exceeds signed range")));
    }
    match created_at_ms.checked_add(ttl_ms as i64) {
        Some(t) => Ok(t),
        None => Err(ActorError::new(ErrorCode::Internal, owned("preview expiration overflow"))),
    }
}

/// The URL path of a preview: the prefix, the token and a final slash.
pub fn preview_path(token: &str) -> (p: String)
    ensures
        p@ == PREVIEW_PREFIX@ + token@ + "/"@,
{
    with_text(owned(PREVIEW_PREFIX), token, "/")
}

/// The index of the first '/' at or after `i`.
pub open spec fn slash_from(s: Seq<char>, i: int) -> Option<int>
    decreases s.len() - i,
{
    if i < 0 || i >= s.len() {
        None
    } else if s[i] == '/' {
        Some(i)
    } else {
        slash_from(s, i + 1)
    }
}

/// The token and guest path a preview request path names: after the prefix,
/// the token runs to the next '/' and the rest, with its '/', is the guest
/// path ("/" when there is none). A path without the prefix, or with a token
/// that is not a valid lease token, names no preview.
pub open spec fn preview_route_spec(path: Seq<char>) -> Option<(Seq<char>, Seq<char>)> {
    let prefix = PREVIEW_PREFIX@;
    if path.len() >= prefix.len() && path.take(prefix.len() as int) == prefix {
        let rest = path.skip(prefix.len() as int);
        let (token, guest) = match slash_from(rest, 0) {
            Some(i) => (rest.take(i), rest.skip(i)),
            None => (rest, "/"@),
        };
        if check_token(token) is Ok {
            Some((token, guest))
        } else {
            None
        }
    } else {
        None
    }
}

proof fn lemma_slash_from(s: Seq<char>, i: int)
    requires
        0 <= i,
    ensures
        slash_from(s, i) matches Some(j) ==> i <= j < s.len() && s[j] == '/',
        slash_from(s, i) is None ==> forall|j: int| i <= j < s.len() ==> #[trigger] s[j] != '/',
    decreases s.len() - i,
{
    if i < s.len() && s[i] != '/' {
        lemma_slash_from(s, i + 1);
    }
}

/// Routes a preview request path to its lease token and guest path.
pub fn preview_route(path: &str) -> (r: Option<(String, String)>)
    ensures
        match r {
            Some((token, guest)) => preview_route_spec(path@) == Some((token@, guest@)),
            None => preview_route_spec(path@) is None,
        },
{
    proof {
        reveal_strlit("/preview/");
        reveal_strlit("/");
    }
    let chars = chars_of(path);
    let n = chars.len();
    if !matches_at(&chars, 0, PREVIEW_PREFIX) {
        assert(!(path@.len() >= 9 && path@.take(9) == PREVIEW_PREFIX@)) by {
            if path@.len() >= 9 && path@.take(9) == PREVIEW_PREFIX@ {
                assert(chars@.subrange(0, 9) =~= path@.take(9));
            }
        }
        return None;
    }
    assert(path@.take(9) =~= chars@.subrange(0, 9));
    let ghost rest = path@.skip(9);
    let mut i: usize = 9;
    while i < n && chars[i] != '/'
        invariant
            n == chars@.len(),
            chars@ == path@,
            rest == path@.skip(9),
            9 <= i <= n,
            slash_from(rest, 0) == slash_from(rest, i - 9),
        decreases n - i,
    {
        i += 1;
    }
    let token: String;
    let guest: String;
    if i < n {
        token = owned(path.substring_char(9, i));
        guest = owned(path.substring_char(i, n));
        assert(token@ =~= rest.take(i - 9));
        assert(guest@ =~= rest.skip(i - 9));
    } else {
        token = owned(path.substring_char(9, n));
        guest = owned("/");
        assert(token@ =~= rest);
    }
    if validate_token(token.as_str()).is_err() {
        return None;
    }
    Some((token, guest))
}

/// The guest request target: the guest path, then `?` and the query when
/// the request has one.
pub fn guest_target(guest_path: String, query: Option<&str>) -> (t: String)
    ensures
        t@ == match query {
            Some(q) => guest_path@ + "?"@ + q@,
            None => guest_path@,
        },
{
    match query {
        Some(q) => with_text(guest_path, "?", q),
        None => guest_path,
    }
}

/// The headers forwarded to the guest after the first `n` request headers:
/// hop-by-hop headers are dropped; a later header replaces an earlier one
/// of the same name.
pub open spec fn forwarded_upto(headers: Seq<(Seq<char>, Seq<char>)>, n: int) -> Seq<(Seq<char>, Seq<char>)>
    decreases n,
{
    if n <= 0 || n > headers.len() {
        Seq::empty()
    } else if hop_by_hop(headers[n - 1].0) {
        forwarded_upto(headers, n - 1)
    } else {
        pairs_insert(forwarded_upto(headers, n - 1), headers[n - 1].0, headers[n - 1].1)
    }
}

/// The contents of a header list.
pub open spec fn header_list(headers: Seq<(String, String)>) -> Seq<(Seq<char>, Seq<char>)> {
    Seq::new(headers.len(), |i: int| (headers[i].0@, headers[i].1@))
}

/// The request headers forwarded to the guest.
pub fn forwarded_request_headers(headers: &Vec<(String, String)>) -> (m: StringMap)
    ensures
        m@ == forwarded_upto(header_list(headers@), headers@.len() as int),
{
    let ghost list = header_list(headers@);
    let n = headers.len();
    let mut m = StringMap::new();
    let mut i: usize = 0;
    while i < n
        invariant
            n == headers@.len(),
            list == header_list(headers@),
            i <= n,
            m@ == forwarded_upto(list, i as int),
        decreases n - i,
    {
        let (name, value) = &headers[i];
        if !is_hop_by_hop_header(name.as_str()) {
            m.insert(name.clone(), value.clone());
        }
        i += 1;
    }
    m
}

/// Whether a response header reaches the preview client: neither hop-by-hop
/// nor `content-length`, in any letter case.
pub open spec fn forwarded_response_header(name: Seq<char>) -> bool {
    !hop_by_hop(name) && ascii_lowercase(name) != "content-length"@
}

/// Whether a guest response header is passed on to the preview client.
pub fn is_forwarded_response_header(name: &str) -> (b: bool)
    ensures
        b == forwarded_response_header(name@),
{
    !is_hop_by_hop_header(name) && !ascii_lower_equals(name, "content-length")
}

/// A reply to a preview request: a status, headers in order and a body.
#[derive(Debug, Clone, PartialEq, Eq)]
pub struct PreviewReply {
    pub status: u16,
    pub headers: Vec<(String, String)>,
    pub body: Vec<u8>,
}

/// The reply to a preview request that names no live lease: 404, with no
/// header and an empty body.
pub fn not_found_reply() -> (r: PreviewReply)
    ensures
        r.status == 404,
        r.headers@.len() == 0,
        r.body@.len() == 0,
{
    PreviewReply { status: 404, headers: Vec::new(), body: Vec::new() }
}

/// Whether a guest response header is copied into the preview reply: it is
/// forwarded, and it is not `cache-control`, which the reply sets itself.
pub open spec fn copied_response_header(name: Seq<char>) -> bool {
    forwarded_response_header(name) && ascii_lowercase(name) != "cache-control"@
}

/// The guest response headers among the first `n` that are copied, in order.
pub open spec fn copied_upto(headers: Seq<(Seq<char>, Seq<char>)>, n: int) -> Seq<(Seq<char>, Seq<char>)>
    decreases n,
{
    if n <= 0 || n > headers.len() {
        Seq::empty()
    } else if copied_response_header(headers[n - 1].0) {
        copied_upto(headers, n - 1).push(headers[n - 1])
    } else {
        copied_upto(headers, n - 1)
    }
}

/// The headers of a preview reply: the copied guest headers in order, then
/// `cache-control: no-store`, so no preview response is ever cached.
pub open spec fn preview_reply_headers(headers: Seq<(Seq<char>, Seq<char>)>) -> Seq<(Seq<char>, Seq<char>)> {
    copied_upto(headers, headers.len() as int).push(("cache-control"@, "no-store"@))
}

proof fn lemma_copied_upto(headers: Seq<(Seq<char>, Seq<char>)>, n: int)
    ensures
        forall|i: int| 0 <= i < copied_upto(headers, n).len() ==> copied_response_header(#[trigger] copied_upto(headers, n)[i].0),
    decreases n,
{
    if n > 0 && n <= headers.len() {
        lemma_copied_upto(headers, n - 1);
        let prev = copied_upto(headers, n - 1);
        let cur = copied_upto(headers, n);
        assert forall|i: int| 0 <= i < cur.len() implies copied_response_header(#[trigger] cur[i].0) by {
            if i < prev.len() {
                assert(cur[i] == prev[i]);
            }
        }
    }
}

/// Every preview reply ends with `cache-control: no-store`, its only
/// `cache-control` header, and carries no hop-by-hop or `content-length`
/// header.
pub proof fn lemma_preview_reply_is_never_cached(headers: Seq<(Seq<char>, Seq<char>)>)
    ensures
        ({
            let out = preview_reply_headers(headers);
            &&& out.last() == ("cache-control"@, "no-store"@)
            &&& forall|i: int| 0 <= i < out.len() - 1 ==> {
                &&& !hop_by_hop(#[trigger] out[i].0)
                &&& ascii_lowercase(out[i].0) != "content-length"@
                &&& ascii_lowercase(out[i].0) != "cache-control"@
            }
        }),
{
    lemma_copied_upto(headers, headers.len() as int);
    let c = copied_upto(headers, headers.len() as int);
    let out = preview_reply_headers(headers);
    assert forall|i: int| 0 <= i < out.len() - 1 implies {
        &&& !hop_by_hop(#[trigger] out[i].0)
        &&& ascii_lowercase(out[i].0) != "content-length"@
        &&& ascii_lowercase(out[i].0) != "cache-control"@
    } by {
        assert(out[i] == c[i]);
        assert(copied_response_header(c[i].0));
    }
}

/// The reply to a forwarded preview request, from the guest's response: a
/// body over the response limit is refused; otherwise the status and body
/// pass unchanged and the headers are those of `preview_reply_headers`.
pub fn preview_reply(status: u16, headers: &Vec<(String, String)>, body: Vec<u8>) -> (r: Result<PreviewReply, ActorError>)
    ensures
        r is Err <==> body@.len() > MAX_HTTP_RESPONSE_BYTES,
        r matches Err(e) ==> Err::<(), Fault>(e@) == check_limit("preview response body"@, body@.len(), MAX_HTTP_RESPONSE_BYTES as nat),
        r matches Ok(reply) ==> reply.status == status && reply.body@ == body@
            && header_list(reply.headers@) == preview_reply_headers(header_list(headers@)),
{
    if let Err(e) = validate_limit("preview response body", body.len(), MAX_HTTP_RESPONSE_BYTES) {
        return Err(e);
    }
    let ghost list = header_list(headers@);
    let n = headers.len();
    let mut out: Vec<(String, String)> = Vec::new();
    let mut i: usize = 0;
    while i < n
        invariant
            n == headers@.len(),
            list == header_list(headers@),
            i <= n,
            header_list(out@) == copied_upto(list, i as int),
        decreases n - i,
    {
        let (name, value) = &headers[i];
        if is_forwarded_response_header(name.as_str()) && !ascii_lower_equals(name.as_str(), "cache-control") {
            let ghost before = out@;
            out.push((name.clone(), value.clone()));
            assert(header_list(out@) =~= header_list(before).push(list[i as int]));
        }
        i += 1;
    }
    let ghost before = out@;
    out.push((owned("cache-control"), owned("no-store")));
    assert(header_list(out@) =~= header_list(before).push(("cache-control"@, "no-store"@)));
    Ok(PreviewReply { status, headers: out, body })
}

/// The empty 404 a preview request gets when it names no live lease.
pub open spec fn empty_not_found(r: PreviewReply) -> bool {
    r.status == 404 && r.headers@.len() == 0 && r.body@.len() == 0
}

/// The first step of serving a preview request.
pub enum PreviewStart {
    /// Answer at once; nothing reaches the VM.
    Reply(PreviewReply),
    /// Look up the live lease of the token, then continue with `preview_forward`.
    LookUpLease { token: String, guest_path: String },
}

/// The first step of serving a preview request by its path: a path that
/// names no preview (no prefix, or a token that is not a valid lease token)
/// is answered with the empty 404 at once; otherwise the token's lease is
/// looked up next, with the guest path kept for the request.
pub fn preview_start(path: &str) -> (r: PreviewStart)
    ensures
        match preview_route_spec(path@) {
            None => r matches PreviewStart::Reply(reply) && empty_not_found(reply),
            Some((token, guest)) => r matches PreviewStart::LookUpLease { token: t, guest_path: g } && t@ == token && g@ == guest,
        },
{
    match preview_route(path) {
        None => PreviewStart::Reply(not_found_reply()),
        Some((token, guest_path)) => PreviewStart::LookUpLease { token, guest_path },
    }
}

/// The second step of serving a preview request.
pub enum PreviewNext {
    /// Answer at once; nothing reaches the VM.
    Reply(PreviewReply),
    /// Send this request to the guest, then answer with `preview_reply`.
    Send(ActorHttpRequest),
}

/// The guest request target of a guest path and an optional query.
pub open spec fn target_of(guest_path: Seq<char>, query: Option<&str>) -> Seq<char> {
    match query {
        Some(q) => guest_path + "?"@ + q@,
        None => guest_path,
    }
}

/// The request a preview request becomes, given its lease's port: the
/// method as received, the guest target, the forwarded headers and the body
/// as bytes.
pub open spec fn forwarded_request(request: ActorHttpRequest, port: u16, method: Seq<char>, target: Seq<char>,
    headers: Seq<(String, String)>, body: Seq<u8>) -> bool {
    &&& request.port == port
    &&& request.method@ == method
    &&& request.path@ == target
    &&& request.headers@ == forwarded_upto(header_list(headers), headers.len() as int)
    &&& request.body matches Some(FileContentInput::Bytes(b)) && b@ == body
}

/// The second step of serving a preview request, once the token's lease is
/// looked up: without a live lease the empty 404, and nothing reaches the
/// VM; with one, a body over the request limit is refused, and otherwise the
/// request to the guest, refused when it is not a valid HTTP request.
pub fn preview_forward(lease_port: Option<u16>, guest_path: String, query: Option<&str>, method: String,
    headers: &Vec<(String, String)>, body: Vec<u8>) -> (r: Result<PreviewNext, ActorError>)
    ensures
        lease_port is None ==> (r matches Ok(PreviewNext::Reply(reply)) && empty_not_found(reply)),
        lease_port is Some && body@.len() > MAX_HTTP_BODY_BYTES ==> (r matches Err(e)
            && Err::<(), Fault>(e@) == check_limit("preview request body"@, body@.len(), MAX_HTTP_BODY_BYTES as nat)),
        lease_port is Some && body@.len() <= MAX_HTTP_BODY_BYTES ==> match r {
            Ok(PreviewNext::Send(request)) => forwarded_request(request, lease_port->0, method@, target_of(guest_path@, query), headers@, body@)
                && check_http_request(request) is Ok,
            Ok(PreviewNext::Reply(_)) => false,
            Err(e) => exists|request: ActorHttpRequest| forwarded_request(request, lease_port->0, method@, target_of(guest_path@, query), headers@, body@)
                && #[trigger] check_http_request(request) == Err::<(), Fault>(e@),
        },
{
    let port = match lease_port {
        None => return Ok(PreviewNext::Reply(not_found_reply())),
        Some(p) => p,
    };
    if let Err(e) = validate_limit("preview request body", body.len(), MAX_HTTP_BODY_BYTES) {
        return Err(e);
    }
    let target = guest_target(guest_path, query);
    let forwarded = forwarded_request_headers(headers);
    let request = ActorHttpRequest { port, method, path: target, headers: forwarded, body: Some(FileContentInput::Bytes(body)) };
    match validate_http_request(&request) {
        Ok(()) => Ok(PreviewNext::Send(request)),
        Err(e) => {
            assert(check_http_request(request) == Err::<(), Fault>(e@));
            Err(e)
        },
    }
}

/// Only a valid lease token reaches the lease lookup, and so the VM: a path
/// routed to a lookup carries a valid token, and every other path is
/// answered by `preview_start` with the empty 404.
pub proof fn lemma_only_valid_tokens_reach_the_vm(path: Seq<char>, token: Seq<char>, guest: Seq<char>)
    requires
        preview_route_spec(path) == Some((token, guest)),
    ensures
        check_token(token) is Ok,
{
}

} // verus!
