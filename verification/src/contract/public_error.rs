//! Stable public error codes for failures that reach actor clients.
//!
//! A failure is a chain of causes, outermost first. A cause that already
//! carries a public error leaves the chain untouched; otherwise the first cause
//! that names a code, either through a typed Core client error or through the
//! `code:` prefix of its message, decides the public code, and the failure is
//! then reported as a public error under that code.
use vstd::prelude::*;

use crate::error::{code_name, code_prefix, ErrorCode};
use crate::text::{appended, chars_equal, chars_of, owned, str_equals, with_text};

verus! {

/// The typed Core client failures whose kind decides a public code.
#[derive(Debug, Clone, PartialEq, Eq)]
pub enum ClientErrorKind {
    ExecutionTimedOut,
    OperationTimedOut,
    TerminationFailed,
    ProcessNotFound,
    ShellNotFound,
    SoftwareNotFound,
    Kernel { code: String },
    PathNotAbsolute,
    PathNotNormalized,
    InvalidSchedule,
    PastSchedule,
    InvalidPackageSource,
    InvalidPackageFormat,
    PackageDigestMismatch,
    ResourceLimit,
    PackageTooLarge,
    PackageCacheCapacity,
    PackageCacheEntryCapacity,
    PackageCachePendingLimit,
    PackageAcquisition { code: String },
    Other,
}

/// One cause in a failure chain: whether it is already a public error, the
/// typed client failure it is (if any), its message text, and the JSON of
/// the details record a timeout, resource-limit or package-acquisition
/// client failure carries.
#[derive(Debug, Clone)]
pub struct ErrorCause {
    pub public: bool,
    pub client: Option<ClientErrorKind>,
    pub text: String,
    pub details: Option<String>,
}

/// The public code a typed client failure maps to, if any.
pub open spec fn client_code(kind: ClientErrorKind) -> Option<ErrorCode> {
    match kind {
        ClientErrorKind::ExecutionTimedOut | ClientErrorKind::OperationTimedOut => Some(ErrorCode::Timeout),
        ClientErrorKind::TerminationFailed => Some(ErrorCode::TerminationFailed),
        ClientErrorKind::ProcessNotFound | ClientErrorKind::ShellNotFound
        | ClientErrorKind::SoftwareNotFound => Some(ErrorCode::NotFound),
        ClientErrorKind::Kernel { code } => if code@ == "ENOENT"@ || code@ == "ESRCH"@ {
            Some(ErrorCode::NotFound)
        } else {
            None
        },
        ClientErrorKind::PathNotAbsolute | ClientErrorKind::PathNotNormalized
        | ClientErrorKind::InvalidSchedule | ClientErrorKind::PastSchedule
        | ClientErrorKind::InvalidPackageSource | ClientErrorKind::InvalidPackageFormat
        | ClientErrorKind::PackageDigestMismatch => Some(ErrorCode::InvalidInput),
        ClientErrorKind::ResourceLimit | ClientErrorKind::PackageTooLarge
        | ClientErrorKind::PackageCacheCapacity | ClientErrorKind::PackageCacheEntryCapacity
        | ClientErrorKind::PackageCachePendingLimit => Some(ErrorCode::LimitExceeded),
        ClientErrorKind::PackageAcquisition { code } => if code@ == "invalid_package_source"@
            || code@ == "invalid_package_format"@ || code@ == "package_digest_mismatch"@ {
            Some(ErrorCode::InvalidInput)
        } else {
            None
        },
        ClientErrorKind::Other => None,
    }
}

/// The index of the first `:` in `s` at or after `i`, or `s.len()`.
pub open spec fn colon_from(s: Seq<char>, i: int) -> int
    decreases s.len() - i,
{
    if i >= s.len() {
        s.len() as int
    } else if s[i] == ':' {
        i
    } else {
        colon_from(s, i + 1)
    }
}

/// The text before the first `:`, or the whole text when there is none.
pub open spec fn message_head(s: Seq<char>) -> Seq<char> {
    s.subrange(0, colon_from(s, 0))
}

/// The public code a message head names, if any.
pub open spec fn prefix_code(head: Seq<char>) -> Option<ErrorCode> {
    if head == "config_conflict"@ || head == "revision_conflict"@ {
        Some(ErrorCode::RevisionConflict)
    } else if head == "invalid_input"@ {
        Some(ErrorCode::InvalidInput)
    } else if head == "limit_exceeded"@ {
        Some(ErrorCode::LimitExceeded)
    } else if head == "stale_generation"@ {
        Some(ErrorCode::StaleGeneration)
    } else if head == "not_found"@ || head == "software_not_found"@ {
        Some(ErrorCode::NotFound)
    } else if head == "not_ready"@ || head == "vm_not_ready"@ || head == "runtime_not_ready"@ {
        Some(ErrorCode::NotReady)
    } else if head == "timeout"@ || head == "config_package_resolution_timeout"@ {
        Some(ErrorCode::Timeout)
    } else if head == "fetch_stream_expired"@ {
        Some(ErrorCode::Expired)
    } else if head == "termination_failed"@ {
        Some(ErrorCode::TerminationFailed)
    } else {
        None
    }
}

/// The code one cause names: its typed client kind first, then its message.
pub open spec fn cause_code(cause: ErrorCause) -> Option<ErrorCode> {
    let typed = match cause.client {
        Some(kind) => client_code(kind),
        None => None,
    };
    match typed {
        Some(code) => Some(code),
        None => prefix_code(message_head(cause.text@)),
    }
}

/// The first code named by a cause at or after `i`.
pub open spec fn first_code(causes: Seq<ErrorCause>, i: int) -> Option<ErrorCode>
    decreases causes.len() - i,
{
    if i >= causes.len() {
        None
    } else {
        match cause_code(causes[i]) {
            Some(code) => Some(code),
            None => first_code(causes, i + 1),
        }
    }
}

/// The public code a failure chain is reported under; `None` leaves the
/// failure as it is (it is already public, or names no code).
pub open spec fn public_code(causes: Seq<ErrorCause>) -> Option<ErrorCode> {
    if exists|i: int| 0 <= i < causes.len() && (#[trigger] causes[i]).public {
        None
    } else {
        first_code(causes, 0)
    }
}

/// The public code a typed client failure maps to, if any.
pub fn client_error_code(kind: &ClientErrorKind) -> (r: Option<ErrorCode>)
    ensures
        r == client_code(*kind),
{
    match kind {
        ClientErrorKind::ExecutionTimedOut | ClientErrorKind::OperationTimedOut => Some(ErrorCode::Timeout),
        ClientErrorKind::TerminationFailed => Some(ErrorCode::TerminationFailed),
        ClientErrorKind::ProcessNotFound | ClientErrorKind::ShellNotFound
        | ClientErrorKind::SoftwareNotFound => Some(ErrorCode::NotFound),
        ClientErrorKind::Kernel { code } => {
            if str_equals(code.as_str(), "ENOENT") || str_equals(code.as_str(), "ESRCH") {
                Some(ErrorCode::NotFound)
            } else {
                None
            }
        },
        ClientErrorKind::PathNotAbsolute | ClientErrorKind::PathNotNormalized
        | ClientErrorKind::InvalidSchedule | ClientErrorKind::PastSchedule
        | ClientErrorKind::InvalidPackageSource | ClientErrorKind::InvalidPackageFormat
        | ClientErrorKind::PackageDigestMismatch => Some(ErrorCode::InvalidInput),
        ClientErrorKind::ResourceLimit | ClientErrorKind::PackageTooLarge
        | ClientErrorKind::PackageCacheCapacity | ClientErrorKind::PackageCacheEntryCapacity
        | ClientErrorKind::PackageCachePendingLimit => Some(ErrorCode::LimitExceeded),
        ClientErrorKind::PackageAcquisition { code } => {
            let c = code.as_str();
            if str_equals(c, "invalid_package_source") || str_equals(c, "invalid_package_format")
                || str_equals(c, "package_digest_mismatch") {
                Some(ErrorCode::InvalidInput)
            } else {
                None
            }
        },
        ClientErrorKind::Other => None,
    }
}

/// The public code a message names through the text before its first `:`.
pub fn message_prefix_code(message: &str) -> (r: Option<ErrorCode>)
    ensures
        r == prefix_code(message_head(message@)),
{
    let v = chars_of(message);
    let n = v.len();
    let mut i: usize = 0;
    while i < n && v[i] != ':'
        invariant
            n == v@.len(),
            v@ == message@,
            i <= n,
            colon_from(message@, 0) == colon_from(message@, i as int),
        decreases n - i,
    {
        i += 1;
    }
    assert(colon_from(message@, i as int) == i);
    let h = i;
    if chars_equal(&v, h, "config_conflict") || chars_equal(&v, h, "revision_conflict") {
        Some(ErrorCode::RevisionConflict)
    } else if chars_equal(&v, h, "invalid_input") {
        Some(ErrorCode::InvalidInput)
    } else if chars_equal(&v, h, "limit_exceeded") {
        Some(ErrorCode::LimitExceeded)
    } else if chars_equal(&v, h, "stale_generation") {
        Some(ErrorCode::StaleGeneration)
    } else if chars_equal(&v, h, "not_found") || chars_equal(&v, h, "software_not_found") {
        Some(ErrorCode::NotFound)
    } else if chars_equal(&v, h, "not_ready") || chars_equal(&v, h, "vm_not_ready")
        || chars_equal(&v, h, "runtime_not_ready") {
        Some(ErrorCode::NotReady)
    } else if chars_equal(&v, h, "timeout") || chars_equal(&v, h, "config_package_resolution_timeout") {
        Some(ErrorCode::Timeout)
    } else if chars_equal(&v, h, "fetch_stream_expired") {
        Some(ErrorCode::Expired)
    } else if chars_equal(&v, h, "termination_failed") {
        Some(ErrorCode::TerminationFailed)
    } else {
        None
    }
}

/// The public code one cause names.
pub fn cause_public_code(cause: &ErrorCause) -> (r: Option<ErrorCode>)
    ensures
        r == cause_code(*cause),
{
    let typed = match &cause.client {
        Some(kind) => client_error_code(kind),
        None => None,
    };
    match typed {
        Some(code) => Some(code),
        None => message_prefix_code(cause.text.as_str()),
    }
}

/// The public code of a failure chain (outermost cause first): `None` when a
/// cause is already a public error or no cause names a code, otherwise the
/// code of the first cause that names one.
pub fn public_error_code(causes: &[ErrorCause]) -> (r: Option<ErrorCode>)
    ensures
        r == public_code(causes@),
{
    let n = causes.len();
    let mut i: usize = 0;
    while i < n
        invariant
            n == causes@.len(),
            i <= n,
            forall|j: int| 0 <= j < i ==> !(#[trigger] causes@[j]).public,
        decreases n - i,
    {
        if causes[i].public {
            return None;
        }
        i += 1;
    }
    let mut k: usize = 0;
    while k < n
        invariant
            n == causes@.len(),
            k <= n,
            forall|j: int| 0 <= j < n ==> !(#[trigger] causes@[j]).public,
            first_code(causes@, 0) == first_code(causes@, k as int),
        decreases n - k,
    {
        let code = cause_public_code(&causes[k]);
        if code.is_some() {
            return code;
        }
        k += 1;
    }
    None
}

/// The public error a classified failure becomes: in the `agentos` group,
/// under its code, with the outermost cause's text as both its message and
/// its default message, and the whole chain as its `cause` metadata.
#[derive(Debug, Clone, PartialEq, Eq)]
pub struct PublicError {
    pub group: String,
    pub code: ErrorCode,
    pub message: String,
    pub default_message: String,
    pub cause: String,
    pub limit: Option<String>,
    pub package: Option<(String, String)>,
}

/// What classification does with a failure: it leaves it as it is, or
/// replaces it by a public error.
#[derive(Debug, Clone)]
pub enum ClassifiedError {
    Unchanged(Vec<ErrorCause>),
    Public(PublicError),
}

/// The texts of the causes from `i` on, joined by ": ", outermost first: how
/// the whole chain reads.
pub open spec fn chain_text_from(causes: Seq<ErrorCause>, i: int) -> Seq<char>
    decreases causes.len() - i,
{
    if i >= causes.len() {
        Seq::empty()
    } else if i == causes.len() - 1 {
        causes[i].text@
    } else {
        causes[i].text@ + ": "@ + chain_text_from(causes, i + 1)
    }
}

/// A client failure whose details describe the limit it hit.
pub open spec fn limit_kind(k: Option<ClientErrorKind>) -> bool {
    k == Some(ClientErrorKind::OperationTimedOut) || k == Some(ClientErrorKind::ResourceLimit)
}

/// The details of the first cause from `i` on that is a timeout or
/// resource-limit client failure carrying details.
pub open spec fn limit_details_from(causes: Seq<ErrorCause>, i: int) -> Option<Seq<char>>
    decreases causes.len() - i,
{
    if i < 0 || i >= causes.len() {
        None
    } else if limit_kind(causes[i].client) && causes[i].details is Some {
        Some(causes[i].details->0@)
    } else {
        limit_details_from(causes, i + 1)
    }
}

/// The package code and details of the first cause from `i` on that is a
/// package-acquisition client failure carrying details.
pub open spec fn package_details_from(causes: Seq<ErrorCause>, i: int) -> Option<(Seq<char>, Seq<char>)>
    decreases causes.len() - i,
{
    if i < 0 || i >= causes.len() {
        None
    } else if causes[i].client is Some && causes[i].client->0 is PackageAcquisition && causes[i].details is Some {
        Some((causes[i].client->0->PackageAcquisition_code@, causes[i].details->0@))
    } else {
        package_details_from(causes, i + 1)
    }
}

/// The view of an optional text pair.
pub open spec fn pair_view(p: Option<(String, String)>) -> Option<(Seq<char>, Seq<char>)> {
    match p {
        Some((a, b)) => Some((a@, b@)),
        None => None,
    }
}

/// The view of an optional text.
pub open spec fn text_view(t: Option<String>) -> Option<Seq<char>> {
    match t {
        Some(a) => Some(a@),
        None => None,
    }
}

/// The limit details of a chain.
fn limit_details(causes: &Vec<ErrorCause>) -> (r: Option<String>)
    ensures
        text_view(r) == limit_details_from(causes@, 0),
{
    let n = causes.len();
    let mut i: usize = 0;
    while i < n
        invariant
            n == causes@.len(),
            i <= n,
            limit_details_from(causes@, 0) == limit_details_from(causes@, i as int),
        decreases n - i,
    {
        let c = &causes[i];
        let limit = match &c.client {
            Some(ClientErrorKind::OperationTimedOut) | Some(ClientErrorKind::ResourceLimit) => true,
            _ => false,
        };
        if limit {
            if let Some(d) = &c.details {
                return Some(owned(d.as_str()));
            }
        }
        i += 1;
    }
    None
}

/// The package code and details of a chain.
fn package_details(causes: &Vec<ErrorCause>) -> (r: Option<(String, String)>)
    ensures
        pair_view(r) == package_details_from(causes@, 0),
{
    let n = causes.len();
    let mut i: usize = 0;
    while i < n
        invariant
            n == causes@.len(),
            i <= n,
            package_details_from(causes@, 0) == package_details_from(causes@, i as int),
        decreases n - i,
    {
        let c = &causes[i];
        if let Some(ClientErrorKind::PackageAcquisition { code }) = &c.client {
            if let Some(d) = &c.details {
                return Some((owned(code.as_str()), owned(d.as_str())));
            }
        }
        i += 1;
    }
    None
}

/// The whole chain's text, outermost cause first.
pub open spec fn chain_text(causes: Seq<ErrorCause>) -> Seq<char> {
    chain_text_from(causes, 0)
}

/// The views of a sequence of causes.
pub open spec fn causes_view(causes: Seq<ErrorCause>) -> Seq<(bool, Option<ClientErrorKind>, Seq<char>)> {
    Seq::new(causes.len(), |i: int| (causes[i].public, causes[i].client, causes[i].text@))
}

proof fn lemma_chain_text_step(causes: Seq<ErrorCause>, i: int)
    requires
        0 <= i < causes.len() - 1,
    ensures
        chain_text_from(causes, i) == causes[i].text@ + ": "@ + chain_text_from(causes, i + 1),
{
}

/// The text of the whole chain.
fn chain_display(causes: &Vec<ErrorCause>) -> (r: String)
    ensures
        r@ == chain_text(causes@),
{
    let n = causes.len();
    if n == 0 {
        return String::new();
    }
    let mut i: usize = n - 1;
    let mut out = owned(causes[i].text.as_str());
    while i > 0
        invariant
            n == causes@.len(),
            0 <= i < n,
            out@ == chain_text_from(causes@, i as int),
        decreases i,
    {
        i -= 1;
        proof {
            lemma_chain_text_step(causes@, i as int);
        }
        let head = with_text(owned(causes[i].text.as_str()), ": ", out.as_str());
        out = head;
    }
    out
}

/// Classifies a failure chain (outermost cause first). A chain that already
/// holds a public error, or in which no cause names a code, is left as it
/// is; otherwise the failure becomes a public error under the code of the
/// first cause that names one, whose message and default message are the
/// outermost cause's text, with the whole chain's text, the first limit
/// details and the first package code and details as its metadata.
pub fn classify_public_error(causes: Vec<ErrorCause>) -> (r: ClassifiedError)
    ensures
        match public_code(causes@) {
            None => r matches ClassifiedError::Unchanged(c) && causes_view(c@) == causes_view(causes@),
            Some(code) => r matches ClassifiedError::Public(p) && p.group@ == "agentos"@ && p.code == code
                && p.message@ == causes@[0].text@ && p.default_message@ == causes@[0].text@
                && p.cause@ == chain_text(causes@)
                && text_view(p.limit) == limit_details_from(causes@, 0)
                && pair_view(p.package) == package_details_from(causes@, 0),
        },
{
    match public_error_code(causes.as_slice()) {
        None => ClassifiedError::Unchanged(causes),
        Some(code) => {
            proof {
                if causes@.len() == 0 {
                    assert(first_code(causes@, 0) is None);
                }
            }
            let message = owned(causes[0].text.as_str());
            let default_message = owned(causes[0].text.as_str());
            let cause = chain_display(&causes);
            let limit = limit_details(&causes);
            let package = package_details(&causes);
            ClassifiedError::Public(PublicError { group: owned("agentos"), code, message, default_message, cause, limit, package })
        },
    }
}

impl ClassifiedError {
    /// The failure as a chain again: the unchanged chain, or a chain whose one
    /// cause is the public error, reading as its message.
    pub fn into_causes(self) -> (r: Vec<ErrorCause>)
        ensures
            match self {
                ClassifiedError::Unchanged(c) => causes_view(r@) == causes_view(c@),
                ClassifiedError::Public(p) => r@.len() == 1 && r@[0].public && r@[0].client is None
                    && r@[0].text@ == p.message@,
            },
    {
        match self {
            ClassifiedError::Unchanged(c) => c,
            ClassifiedError::Public(p) => {
                let mut v: Vec<ErrorCause> = Vec::new();
                v.push(ErrorCause { public: true, client: None, text: p.message, details: None });
                v
            },
        }
    }
}

/// The public code of a chain depends only on what each cause is.
proof fn lemma_public_code_by_view(a: Seq<ErrorCause>, b: Seq<ErrorCause>)
    requires
        causes_view(a) == causes_view(b),
    ensures
        public_code(a) == public_code(b),
{
    assert(a.len() == causes_view(a).len());
    assert(b.len() == causes_view(b).len());
    assert forall|i: int| 0 <= i < a.len() implies #[trigger] a[i].public == b[i].public
        && a[i].client == b[i].client && a[i].text@ == b[i].text@ by {
        assert(causes_view(a)[i] == causes_view(b)[i]);
    }
    assert forall|i: int| 0 <= i < a.len() implies cause_code(#[trigger] a[i]) == cause_code(b[i]) by {
        assert(a[i].public == b[i].public && a[i].client == b[i].client && a[i].text@ == b[i].text@);
    }
    lemma_first_code_by_view(a, b, 0);
    assert((exists|i: int| 0 <= i < a.len() && (#[trigger] a[i]).public)
        == (exists|i: int| 0 <= i < b.len() && (#[trigger] b[i]).public)) by {
        if exists|i: int| 0 <= i < a.len() && (#[trigger] a[i]).public {
            let i = choose|i: int| 0 <= i < a.len() && (#[trigger] a[i]).public;
            assert(b[i].public);
        }
        if exists|i: int| 0 <= i < b.len() && (#[trigger] b[i]).public {
            let i = choose|i: int| 0 <= i < b.len() && (#[trigger] b[i]).public;
            assert(a[i].public);
        }
    }
}

proof fn lemma_first_code_by_view(a: Seq<ErrorCause>, b: Seq<ErrorCause>, i: int)
    requires
        0 <= i,
        a.len() == b.len(),
        forall|j: int| 0 <= j < a.len() ==> cause_code(#[trigger] a[j]) == cause_code(b[j]),
    ensures
        first_code(a, i) == first_code(b, i),
    decreases a.len() - i,
{
    if i < a.len() {
        lemma_first_code_by_view(a, b, i + 1);
        assert(cause_code(a[i]) == cause_code(b[i]));
    }
}

/// A failure that already holds a public error is never reclassified, and
/// classifying a classified failure again leaves it as it is: whatever
/// chain a classification hands back names no further public code.
pub proof fn lemma_classification_is_idempotent(causes: Seq<ErrorCause>, classified: Seq<ErrorCause>)
    requires
        public_code(causes) is None ==> causes_view(classified) == causes_view(causes),
        public_code(causes) is Some ==> classified.len() == 1 && classified[0].public,
    ensures
        (exists|i: int| 0 <= i < causes.len() && (#[trigger] causes[i]).public) ==> public_code(causes) is None,
        public_code(classified) is None,
{
    if public_code(causes) is None {
        lemma_public_code_by_view(classified, causes);
    } else {
        assert(classified[0].public);
    }
}

proof fn lemma_colon_at(s: Seq<char>, n: int, i: int)
    requires
        0 <= i <= n < s.len(),
        s[n] == ':',
        forall|j: int| i <= j < n ==> s[j] != ':',
    ensures
        colon_from(s, i) == n,
    decreases n - i,
{
    if i < n {
        lemma_colon_at(s, n, i + 1);
    }
}

/// A message that starts with a code's prefix has that code's name as its head.
proof fn lemma_prefixed_head(c: ErrorCode, body: Seq<char>)
    requires
        c != ErrorCode::Internal,
    ensures
        message_head(code_prefix(c) + body) == code_name(c),
{
    let name = code_name(c);
    let s = code_prefix(c) + body;
    match c {
        ErrorCode::InvalidInput => { reveal_strlit("invalid_input: "); reveal_strlit("invalid_input"); },
        ErrorCode::LimitExceeded => { reveal_strlit("limit_exceeded: "); reveal_strlit("limit_exceeded"); },
        ErrorCode::RevisionConflict => { reveal_strlit("revision_conflict: "); reveal_strlit("revision_conflict"); },
        ErrorCode::NotFound => { reveal_strlit("not_found: "); reveal_strlit("not_found"); },
        ErrorCode::NotReady => { reveal_strlit("not_ready: "); reveal_strlit("not_ready"); },
        ErrorCode::Timeout => { reveal_strlit("timeout: "); reveal_strlit("timeout"); },
        ErrorCode::Expired => { reveal_strlit("expired: "); reveal_strlit("expired"); },
        ErrorCode::TerminationFailed => { reveal_strlit("termination_failed: "); reveal_strlit("termination_failed"); },
        ErrorCode::StaleGeneration => { reveal_strlit("stale_generation: "); reveal_strlit("stale_generation"); },
        ErrorCode::Internal => {},
    }
    assert(code_prefix(c) =~= name + seq![':', ' ']);
    assert forall|j: int| 0 <= j < name.len() implies s[j] != ':' by {
        assert(s[j] == name[j]);
    }
    lemma_colon_at(s, name.len() as int, 0);
    assert(s.subrange(0, name.len() as int) =~= name);
}

/// Every code the actor writes as a message prefix classifies back to that
/// code, except `expired` (whose messages are named by their own
/// `fetch_stream_expired` prefix) and `internal` (which has no prefix): in a
/// chain with no public cause, whose first code-naming cause is a plain
/// message starting with the code's prefix, the failure is reported under
/// that code.
pub proof fn lemma_prefixed_messages_classify_back(c: ErrorCode, body: Seq<char>, causes: Seq<ErrorCause>, k: int)
    requires
        c != ErrorCode::Internal,
        c != ErrorCode::Expired,
        0 <= k < causes.len(),
        causes[k].client is None,
        causes[k].text@ == code_prefix(c) + body,
        forall|j: int| 0 <= j < k ==> (#[trigger] cause_code(causes[j])) is None,
        forall|j: int| 0 <= j < causes.len() ==> !(#[trigger] causes[j]).public,
    ensures
        public_code(causes) == Some(c),
{
    lemma_prefixed_head(c, body);
    reveal_strlit("config_conflict");
    reveal_strlit("revision_conflict");
    reveal_strlit("invalid_input");
    reveal_strlit("limit_exceeded");
    reveal_strlit("stale_generation");
    reveal_strlit("not_found");
    reveal_strlit("software_not_found");
    reveal_strlit("not_ready");
    reveal_strlit("vm_not_ready");
    reveal_strlit("runtime_not_ready");
    reveal_strlit("timeout");
    reveal_strlit("config_package_resolution_timeout");
    reveal_strlit("fetch_stream_expired");
    reveal_strlit("termination_failed");
    assert(message_head(causes[k].text@) == code_name(c));
    match c {
        ErrorCode::InvalidInput => {
            assert("invalid_input"@.len() != "config_conflict"@.len());
            assert("invalid_input"@.len() != "revision_conflict"@.len());
            assert(prefix_code("invalid_input"@) == Some(c));
        },
        ErrorCode::LimitExceeded => {
            assert("limit_exceeded"@.len() != "config_conflict"@.len());
            assert("limit_exceeded"@.len() != "revision_conflict"@.len());
            assert("limit_exceeded"@.len() != "invalid_input"@.len());
            assert(prefix_code("limit_exceeded"@) == Some(c));
        },
        ErrorCode::RevisionConflict => {
            assert("revision_conflict"@.len() != "config_conflict"@.len());
            assert(prefix_code("revision_conflict"@) == Some(c));
        },
        ErrorCode::NotFound => {
            assert("not_found"@.len() != "config_conflict"@.len());
            assert("not_found"@.len() != "revision_conflict"@.len());
            assert("not_found"@.len() != "invalid_input"@.len());
            assert("not_found"@.len() != "limit_exceeded"@.len());
            assert("not_found"@.len() != "stale_generation"@.len());
            assert(prefix_code("not_found"@) == Some(c));
        },
        ErrorCode::NotReady => {
            assert("not_ready"@.len() != "config_conflict"@.len());
            assert("not_ready"@.len() != "revision_conflict"@.len());
            assert("not_ready"@.len() != "invalid_input"@.len());
            assert("not_ready"@.len() != "limit_exceeded"@.len());
            assert("not_ready"@.len() != "stale_generation"@.len());
            assert("not_ready"@[4] != "not_found"@[4]);
            assert("not_ready"@.len() != "software_not_found"@.len());
            assert(prefix_code("not_ready"@) == Some(c));
        },
        ErrorCode::Timeout => {
            assert("timeout"@.len() != "config_conflict"@.len());
            assert("timeout"@.len() != "revision_conflict"@.len());
            assert("timeout"@.len() != "invalid_input"@.len());
            assert("timeout"@.len() != "limit_exceeded"@.len());
            assert("timeout"@.len() != "stale_generation"@.len());
            assert("timeout"@.len() != "not_found"@.len());
            assert("timeout"@.len() != "software_not_found"@.len());
            assert("timeout"@.len() != "not_ready"@.len());
            assert("timeout"@.len() != "vm_not_ready"@.len());
            assert("timeout"@.len() != "runtime_not_ready"@.len());
            assert(prefix_code("timeout"@) == Some(c));
        },
        ErrorCode::TerminationFailed => {
            assert("termination_failed"@.len() != "config_conflict"@.len());
            assert("termination_failed"@.len() != "revision_conflict"@.len());
            assert("termination_failed"@.len() != "invalid_input"@.len());
            assert("termination_failed"@.len() != "limit_exceeded"@.len());
            assert("termination_failed"@.len() != "stale_generation"@.len());
            assert("termination_failed"@.len() != "not_found"@.len());
            assert("termination_failed"@[0] != "software_not_found"@[0]);
            assert("termination_failed"@.len() != "not_ready"@.len());
            assert("termination_failed"@.len() != "vm_not_ready"@.len());
            assert("termination_failed"@.len() != "runtime_not_ready"@.len());
            assert("termination_failed"@.len() != "timeout"@.len());
            assert("termination_failed"@.len() != "config_package_resolution_timeout"@.len());
            assert("termination_failed"@.len() != "fetch_stream_expired"@.len());
            assert(prefix_code("termination_failed"@) == Some(c));
        },
        ErrorCode::StaleGeneration => {
            assert("stale_generation"@.len() != "config_conflict"@.len());
            assert("stale_generation"@.len() != "revision_conflict"@.len());
            assert("stale_generation"@.len() != "invalid_input"@.len());
            assert("stale_generation"@.len() != "limit_exceeded"@.len());
            assert(prefix_code("stale_generation"@) == Some(c));
        },
        _ => {},
    }
    assert(cause_code(causes[k]) == Some(c));
    lemma_first_code_reaches(causes, 0, k);
}

proof fn lemma_first_code_reaches(causes: Seq<ErrorCause>, i: int, k: int)
    requires
        0 <= i <= k < causes.len(),
        cause_code(causes[k]) is Some,
        forall|j: int| 0 <= j < k ==> (#[trigger] cause_code(causes[j])) is None,
    ensures
        first_code(causes, i) == cause_code(causes[k]),
    decreases k - i,
{
    if i < k {
        lemma_first_code_reaches(causes, i + 1, k);
    }
}

/// Typed client failures keep their public codes through any context: in a
/// chain with no public cause whose first code-naming cause is a typed
/// client failure, timeouts are reported as `timeout`, termination failures
/// as `termination_failed`, missing processes, shells and software (and the
/// kernel's ENOENT and ESRCH) as `not_found`, caller validation failures as
/// `invalid_input`, and resource and package-cache limits as `limit_exceeded`.
pub proof fn lemma_typed_failures_keep_their_codes(causes: Seq<ErrorCause>, k: int)
    requires
        0 <= k < causes.len(),
        causes[k].client is Some,
        forall|j: int| 0 <= j < k ==> (#[trigger] cause_code(causes[j])) is None,
        forall|j: int| 0 <= j < causes.len() ==> !(#[trigger] causes[j]).public,
    ensures
        ({
            let kind = causes[k].client->0;
            &&& (kind == ClientErrorKind::ExecutionTimedOut || kind == ClientErrorKind::OperationTimedOut)
                ==> public_code(causes) == Some(ErrorCode::Timeout)
            &&& kind == ClientErrorKind::TerminationFailed ==> public_code(causes) == Some(ErrorCode::TerminationFailed)
            &&& (kind == ClientErrorKind::ProcessNotFound || kind == ClientErrorKind::ShellNotFound
                || kind == ClientErrorKind::SoftwareNotFound
                || (kind is Kernel && (kind->Kernel_code@ == "ENOENT"@ || kind->Kernel_code@ == "ESRCH"@)))
                ==> public_code(causes) == Some(ErrorCode::NotFound)
            &&& (kind == ClientErrorKind::PathNotAbsolute || kind == ClientErrorKind::PathNotNormalized
                || kind == ClientErrorKind::InvalidSchedule || kind == ClientErrorKind::PastSchedule
                || kind == ClientErrorKind::InvalidPackageSource || kind == ClientErrorKind::InvalidPackageFormat
                || kind == ClientErrorKind::PackageDigestMismatch
                || (kind is PackageAcquisition && (kind->PackageAcquisition_code@ == "invalid_package_source"@
                    || kind->PackageAcquisition_code@ == "invalid_package_format"@
                    || kind->PackageAcquisition_code@ == "package_digest_mismatch"@)))
                ==> public_code(causes) == Some(ErrorCode::InvalidInput)
            &&& (kind == ClientErrorKind::ResourceLimit || kind == ClientErrorKind::PackageTooLarge
                || kind == ClientErrorKind::PackageCacheCapacity || kind == ClientErrorKind::PackageCacheEntryCapacity
                || kind == ClientErrorKind::PackageCachePendingLimit)
                ==> public_code(causes) == Some(ErrorCode::LimitExceeded)
        }),
{
    if cause_code(causes[k]) is Some {
        lemma_first_code_reaches(causes, 0, k);
    }
}

} // verus!
