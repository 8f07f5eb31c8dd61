//! Closed hosted-actor configuration: normalization of the hosted filesystem,
//! preview policy, remote software and bounded environment and permissions.
use vstd::prelude::*;

use crate::actor::software::ActorInstalledSoftware;
use crate::error::{first_failure, fault, outcome, outcome_of, scan, then, ActorError, ErrorCode, Fault, Outcome};
use crate::contract::language::opt_view;
use crate::strmap::{pairs_bytes, total_bytes, StringMap};
use crate::text::{appended, byte_len, chars_of, contains_char, debug_quoted, debug_text, decimal, matches_at, numbered, owned, u64_text, with_number, with_text};

verus! {

pub const MAX_ENVIRONMENT_ENTRIES: usize = 256;
pub const MAX_ENVIRONMENT_KEY_BYTES: usize = 256;
pub const MAX_ENVIRONMENT_VALUE_BYTES: usize = 8 * 1024;
pub const MAX_ENVIRONMENT_BYTES: usize = 64 * 1024;
pub const MAX_PERMISSION_RULES_PER_DOMAIN: usize = 256;
pub const MAX_PERMISSION_VALUES_PER_RULE: usize = 128;
pub const MAX_PERMISSION_VALUE_BYTES: usize = 4 * 1024;
pub const MAX_PERMISSION_CONFIG_BYTES: usize = 256 * 1024;
pub const MAX_HOSTED_MOUNTS: usize = 32;
pub const MAX_FILESYSTEM_PATH_BYTES: usize = 4 * 1024;
pub const MAX_FILESYSTEM_NAMESPACE_BYTES: usize = 128;
pub const MAX_REMOTE_SOFTWARE: usize = 128;

pub const MIN_PREVIEW_TTL_MS: u64 = 1_000;
pub const MAX_PREVIEW_TTL_MS: u64 = 24 * 60 * 60 * 1_000;
pub const MAX_ACTIVE_PREVIEWS: u32 = 128;
pub const DEFAULT_PREVIEW_TTL_MS: u64 = 15 * 60 * 1_000;

// ---------------------------------------------------------------------------
// DTOs
// ---------------------------------------------------------------------------

/// URL-only hosted package input; resolution metadata is accepted but re-derived.
#[derive(Debug, Clone, PartialEq, Eq)]
pub struct RemotePackageSourceInput {
    pub url: String,
    pub digest: Option<String>,
    pub size: Option<u64>,
    pub package_id: Option<String>,
}

/// A normalized hosted package source.
#[derive(Debug, Clone, PartialEq, Eq)]
pub struct RemotePackageSource {
    pub url: String,
    pub digest: Option<String>,
    pub size: Option<u64>,
    pub package_id: Option<String>,
}

/// Preview policy as supplied; absent fields take the defaults.
#[derive(Debug, Clone, Copy, PartialEq, Eq, Structural)]
pub struct PreviewPolicyInput {
    pub default_ttl_ms: Option<u64>,
    pub max_ttl_ms: Option<u64>,
    pub max_active: Option<u32>,
}

/// The complete preview policy.
#[derive(Debug, Clone, Copy, PartialEq, Eq, Structural)]
pub struct PreviewPolicy {
    pub default_ttl_ms: u64,
    pub max_ttl_ms: u64,
    pub max_active: u32,
}

impl Default for PreviewPolicy {
    fn default() -> (p: PreviewPolicy)
        ensures
            p == (PreviewPolicy { default_ttl_ms: DEFAULT_PREVIEW_TTL_MS, max_ttl_ms: MAX_PREVIEW_TTL_MS, max_active: MAX_ACTIVE_PREVIEWS }),
    {
        PreviewPolicy {
            default_ttl_ms: DEFAULT_PREVIEW_TTL_MS,
            max_ttl_ms: MAX_PREVIEW_TTL_MS,
            max_active: MAX_ACTIVE_PREVIEWS,
        }
    }
}

/// Hosted filesystem as supplied.
#[derive(Debug, Clone, PartialEq, Eq)]
pub struct HostedFilesystemConfigInput {
    pub root: Option<HostedRootFilesystemInput>,
    pub mounts: Vec<HostedFilesystemMountInput>,
}

/// Root filesystem as supplied.
#[derive(Debug, Clone, PartialEq, Eq)]
pub enum HostedRootFilesystemInput {
    Default {},
    Durable { namespace: Option<String>, read_only: bool },
}

/// One mount as supplied.
#[derive(Debug, Clone, PartialEq, Eq)]
pub struct HostedFilesystemMountInput {
    pub path: String,
    pub backend: HostedFilesystemBackendInput,
    pub read_only: bool,
}

/// Backend of a mount as supplied.
#[derive(Debug, Clone, PartialEq, Eq)]
pub enum HostedFilesystemBackendInput {
    Durable { namespace: Option<String> },
}

/// The normalized hosted filesystem.
#[derive(Debug, Clone, PartialEq, Eq)]
pub struct HostedFilesystemConfig {
    pub root: HostedRootFilesystem,
    pub mounts: Vec<HostedFilesystemMount>,
}

impl Default for HostedFilesystemConfig {
    fn default() -> (c: HostedFilesystemConfig)
        ensures
            c.root == HostedRootFilesystem::Default,
            c.mounts@.len() == 0,
    {
        HostedFilesystemConfig { root: HostedRootFilesystem::Default, mounts: Vec::new() }
    }
}

/// The normalized root filesystem.
#[derive(Debug, Clone, PartialEq, Eq)]
pub enum HostedRootFilesystem {
    Default,
    Durable { namespace: String, read_only: bool },
}

/// One normalized mount.
#[derive(Debug, Clone, PartialEq, Eq)]
pub struct HostedFilesystemMount {
    pub path: String,
    pub backend: HostedFilesystemBackend,
    pub read_only: bool,
}

/// The normalized backend of a mount.
#[derive(Debug, Clone, PartialEq, Eq)]
pub enum HostedFilesystemBackend {
    Durable { namespace: String },
}

// ---------------------------------------------------------------------------
// Preview policy
// ---------------------------------------------------------------------------

/// The preview policy with defaults filled in, if it is within bounds.
pub open spec fn preview_policy_spec(input: PreviewPolicyInput) -> Result<PreviewPolicy, Fault> {
    let policy = PreviewPolicy {
        default_ttl_ms: match input.default_ttl_ms { Some(v) => v, None => DEFAULT_PREVIEW_TTL_MS },
        max_ttl_ms: match input.max_ttl_ms { Some(v) => v, None => MAX_PREVIEW_TTL_MS },
        max_active: match input.max_active { Some(v) => v, None => MAX_ACTIVE_PREVIEWS },
    };
    if !(MIN_PREVIEW_TTL_MS <= policy.max_ttl_ms && policy.max_ttl_ms <= MAX_PREVIEW_TTL_MS) {
        Err(fault(ErrorCode::LimitExceeded, "preview.maxTtlMs must be between 1000 and 86400000; lower it or raise MAX_PREVIEW_TTL_MS"@))
    } else if !(MIN_PREVIEW_TTL_MS <= policy.default_ttl_ms && policy.default_ttl_ms <= policy.max_ttl_ms) {
        Err(fault(ErrorCode::InvalidInput, "preview.defaultTtlMs must be between 1000 and preview.maxTtlMs ("@ + decimal(policy.max_ttl_ms as nat) + ")"@))
    } else if policy.max_active == 0 || policy.max_active > MAX_ACTIVE_PREVIEWS {
        Err(fault(ErrorCode::LimitExceeded, "preview.maxActive must be between 1 and 128; lower it or raise MAX_ACTIVE_PREVIEWS"@))
    } else {
        Ok(policy)
    }
}

/// Fills in the preview policy defaults and checks its bounds.
pub fn normalize_preview_policy(input: PreviewPolicyInput) -> (r: Result<PreviewPolicy, ActorError>)
    ensures
        outcome_of(r, |p: PreviewPolicy| p) == preview_policy_spec(input),
{
    let policy = PreviewPolicy {
        default_ttl_ms: match input.default_ttl_ms { Some(v) => v, None => DEFAULT_PREVIEW_TTL_MS },
        max_ttl_ms: match input.max_ttl_ms { Some(v) => v, None => MAX_PREVIEW_TTL_MS },
        max_active: match input.max_active { Some(v) => v, None => MAX_ACTIVE_PREVIEWS },
    };
    if !(MIN_PREVIEW_TTL_MS <= policy.max_ttl_ms && policy.max_ttl_ms <= MAX_PREVIEW_TTL_MS) {
        return Err(ActorError::new(ErrorCode::LimitExceeded, owned("preview.maxTtlMs must be between 1000 and 86400000; lower it or raise MAX_PREVIEW_TTL_MS")));
    }
    if !(MIN_PREVIEW_TTL_MS <= policy.default_ttl_ms && policy.default_ttl_ms <= policy.max_ttl_ms) {
        let mut body = owned("preview.defaultTtlMs must be between 1000 and preview.maxTtlMs (");
        let digits = u64_text(policy.max_ttl_ms);
        body.append(digits.as_str());
        body.append(")");
        return Err(ActorError::new(ErrorCode::InvalidInput, body));
    }
    if policy.max_active == 0 || policy.max_active > MAX_ACTIVE_PREVIEWS {
        return Err(ActorError::new(ErrorCode::LimitExceeded, owned("preview.maxActive must be between 1 and 128; lower it or raise MAX_ACTIVE_PREVIEWS")));
    }
    Ok(policy)
}


// ---------------------------------------------------------------------------
// Hosted filesystem
// ---------------------------------------------------------------------------

/// Two consecutive '/' somewhere in the path.
pub open spec fn has_double_slash(s: Seq<char>) -> bool {
    exists|i: int| 0 <= i && i + 1 < s.len() && #[trigger] s[i] == '/' && s[i + 1] == '/'
}

/// A NUL character somewhere in the path.
pub open spec fn has_nul(s: Seq<char>) -> bool {
    exists|i: int| 0 <= i < s.len() && #[trigger] s[i] == '\0'
}

/// A `/`-delimited segment of `k` dots (`.` or `..`) starts at `i`.
pub open spec fn dot_segment_at(s: Seq<char>, i: int, k: int) -> bool {
    &&& k == 1 || k == 2
    &&& 0 <= i && i + k <= s.len()
    &&& forall|j: int| i <= j < i + k ==> #[trigger] s[j] == '.'
    &&& i == 0 || s[i - 1] == '/'
    &&& i + k == s.len() || s[i + k] == '/'
}

/// The path has a `.` or `..` segment.
pub open spec fn has_traversal(s: Seq<char>) -> bool {
    exists|i: int, k: int| #[trigger] dot_segment_at(s, i, k)
}

/// `s` is `r` or lies below `r`.
pub open spec fn at_or_under(s: Seq<char>, r: Seq<char>) -> bool {
    s == r || (s.len() > r.len() && s.subrange(0, r.len() as int) == r && s[r.len() as int] == '/')
}

/// Paths that agentOS keeps for itself.
pub open spec fn reserved_path(s: Seq<char>) -> bool {
    at_or_under(s, "/proc"@) || at_or_under(s, "/etc/agentos"@) || at_or_under(s, "/opt/agentos"@)
        || at_or_under(s, "/__agentos"@)
}

/// A hosted mount path: bounded, normalized, absolute, not the root, without
/// traversal and outside the reserved trees.
pub open spec fn check_mount_path(s: Seq<char>) -> Outcome {
    if s.len() == 0 || byte_len(s) > MAX_FILESYSTEM_PATH_BYTES {
        Err(fault(ErrorCode::Internal, "filesystem mount path must contain 1..=4096 bytes"@))
    } else if s[0] != '/' || s == seq!['/'] || s.last() == '/' || has_double_slash(s) || has_nul(s) {
        Err(fault(ErrorCode::Internal, "filesystem mount path must be a normalized, non-root absolute path"@))
    } else if has_traversal(s) {
        Err(fault(ErrorCode::Internal, "filesystem mount path must not contain traversal segments"@))
    } else if reserved_path(s) {
        Err(fault(ErrorCode::Internal, "filesystem mount path "@ + debug_text(s) + " is reserved by agentOS"@))
    } else {
        Ok(())
    }
}

/// A character allowed in a durable namespace.
pub open spec fn is_namespace_char(c: char) -> bool {
    ('a' <= c && c <= 'z') || ('A' <= c && c <= 'Z') || ('0' <= c && c <= '9') || c == '-' || c == '_' || c == '.'
}

/// A durable namespace: 1..=128 bytes of ASCII letters, digits, '-', '_' and '.'.
pub open spec fn check_namespace(ns: Seq<char>) -> Outcome {
    if ns.len() == 0 || byte_len(ns) > MAX_FILESYSTEM_NAMESPACE_BYTES {
        Err(fault(ErrorCode::Internal, "durable filesystem namespace must contain 1..=128 bytes"@))
    } else if !(forall|i: int| 0 <= i < ns.len() ==> is_namespace_char(#[trigger] ns[i])) {
        Err(fault(ErrorCode::Internal, "durable filesystem namespace may contain only ASCII letters, digits, '-', '_', and '.'"@))
    } else {
        Ok(())
    }
}

/// `a` lies strictly below `b`.
pub open spec fn strictly_under(a: Seq<char>, b: Seq<char>) -> bool {
    a.len() > b.len() && a.subrange(0, b.len() as int) == b && a[b.len() as int] == '/'
}

/// Two mount paths are the same or one lies below the other.
pub open spec fn overlap(left: Seq<char>, right: Seq<char>) -> bool {
    left == right || strictly_under(left, right) || strictly_under(right, left)
}

/// A normalized mount: path, durable namespace, read-only flag.
pub type MountView = (Seq<char>, Seq<char>, bool);

/// A normalized root: `None` for the default root, else its namespace and read-only flag.
pub type RootView = Option<(Seq<char>, bool)>;

/// The mathematical content of a normalized mount.
pub open spec fn mount_view(m: HostedFilesystemMount) -> MountView {
    match m.backend {
        HostedFilesystemBackend::Durable { namespace } => (m.path@, namespace@, m.read_only),
    }
}

/// The mathematical content of a normalized root.
pub open spec fn root_view(r: HostedRootFilesystem) -> RootView {
    match r {
        HostedRootFilesystem::Default => None,
        HostedRootFilesystem::Durable { namespace, read_only } => Some((namespace@, read_only)),
    }
}

/// The mathematical content of a normalized hosted filesystem.
pub open spec fn filesystem_view(c: HostedFilesystemConfig) -> (RootView, Seq<MountView>) {
    (root_view(c.root), Seq::new(c.mounts@.len(), |i: int| mount_view(c.mounts@[i])))
}

/// The namespace a mount asks for, or `mount-<index>` when it names none.
pub open spec fn requested_namespace(m: HostedFilesystemMountInput, index: nat) -> Seq<char> {
    match m.backend {
        HostedFilesystemBackendInput::Durable { namespace } => match namespace {
            Some(n) => n@,
            None => "mount-"@ + decimal(index),
        },
    }
}

/// The namespace is already used by the root or an earlier mount.
pub open spec fn namespace_taken(root: RootView, mounts: Seq<MountView>, ns: Seq<char>) -> bool {
    (root matches Some(r) && r.0 == ns) || exists|j: int| 0 <= j < mounts.len() && (#[trigger] mounts[j]).1 == ns
}

/// The path overlaps the path of an earlier mount.
pub open spec fn overlaps_earlier(mounts: Seq<MountView>, path: Seq<char>) -> bool {
    exists|j: int| 0 <= j < mounts.len() && overlap((#[trigger] mounts[j]).0, path)
}

/// Adding the mount at `index` to the mounts normalized so far.
pub open spec fn mount_step(acc: Result<Seq<MountView>, Fault>, root: RootView, m: HostedFilesystemMountInput, index: nat) -> Result<Seq<MountView>, Fault> {
    match acc {
        Err(f) => Err(f),
        Ok(mounts) => match check_mount_path(m.path@) {
            Err(f) => Err(f),
            Ok(()) => {
                let ns = requested_namespace(m, index);
                match check_namespace(ns) {
                    Err(f) => Err(f),
                    Ok(()) => if namespace_taken(root, mounts, ns) {
                        Err(fault(ErrorCode::Internal, "durable filesystem namespace "@ + debug_text(ns) + " is used more than once"@))
                    } else if overlaps_earlier(mounts, m.path@) {
                        Err(fault(ErrorCode::Internal, "filesystem mount path "@ + debug_text(m.path@) + " overlaps another configured mount"@))
                    } else {
                        Ok(mounts.push((m.path@, ns, m.read_only)))
                    },
                }
            },
        },
    }
}

/// The first `n` mounts, normalized in order.
pub open spec fn mounts_fold(inputs: Seq<HostedFilesystemMountInput>, root: RootView, n: int) -> Result<Seq<MountView>, Fault>
    decreases n,
{
    if n <= 0 {
        Ok(Seq::empty())
    } else {
        mount_step(mounts_fold(inputs, root, n - 1), root, inputs[n - 1], (n - 1) as nat)
    }
}

/// The normalized root, or why it is rejected.
pub open spec fn root_spec(root: Option<HostedRootFilesystemInput>) -> Result<RootView, Fault> {
    match root {
        Some(HostedRootFilesystemInput::Durable { namespace, read_only }) => {
            let ns = match namespace { Some(n) => n@, None => "root"@ };
            match check_namespace(ns) {
                Err(f) => Err(f),
                Ok(()) => Ok(Some((ns, read_only))),
            }
        },
        _ => Ok(None),
    }
}

/// The normalized hosted filesystem, or why it is rejected.
pub open spec fn filesystem_spec(input: HostedFilesystemConfigInput) -> Result<(RootView, Seq<MountView>), Fault> {
    if input.mounts@.len() > MAX_HOSTED_MOUNTS {
        Err(fault(ErrorCode::Internal, "filesystem.mounts exceeds limit of 32; reduce the mount collection"@))
    } else {
        match root_spec(input.root) {
            Err(f) => Err(f),
            Ok(root) => match mounts_fold(input.mounts@, root, input.mounts@.len() as int) {
                Err(f) => Err(f),
                Ok(mounts) => Ok((root, mounts)),
            },
        }
    }
}

/// Checks a hosted mount path.
pub fn validate_hosted_mount_path(path: &str) -> (r: Result<(), ActorError>)
    ensures
        outcome(r) == check_mount_path(path@),
{
    let v = chars_of(path);
    let n = v.len();
    if n == 0 || path.len() > MAX_FILESYSTEM_PATH_BYTES {
        return Err(ActorError::new(ErrorCode::Internal, owned("filesystem mount path must contain 1..=4096 bytes")));
    }
    let ghost s = path@;
    let mut normalized = v[0] == '/' && n != 1 && v[n - 1] != '/';
    if v[0] == '/' && n == 1 {
        assert(s =~= seq!['/']);
    }
    if n != 1 {
        assert(s != seq!['/']);
    }
    let mut i: usize = 0;
    while i < n
        invariant
            n == v@.len(),
            v@ == s,
            s == path@,
            i <= n,
            normalized ==> (forall|j: int| 0 <= j < i ==> #[trigger] s[j] != '\0' && (j + 1 < n ==> !(s[j] == '/' && s[j + 1] == '/'))),
            normalized ==> (s[0] == '/' && s != seq!['/'] && s.last() != '/'),
            !normalized ==> (s[0] != '/' || s == seq!['/'] || s.last() == '/' || has_double_slash(s) || has_nul(s)),
        decreases n - i,
    {
        if v[i] == '\0' {
            assert(has_nul(s));
            normalized = false;
        }
        if i + 1 < n && v[i] == '/' && v[i + 1] == '/' {
            assert(has_double_slash(s));
            normalized = false;
        }
        i += 1;
    }
    if !normalized {
        return Err(ActorError::new(ErrorCode::Internal, owned("filesystem mount path must be a normalized, non-root absolute path")));
    }
    assert(!has_nul(s));
    assert(!has_double_slash(s));
    let mut i: usize = 0;
    while i < n
        invariant
            n == v@.len(),
            v@ == s,
            s == path@,
            i <= n,
            forall|j: int, k: int| 0 <= j < i ==> !dot_segment_at(s, j, k),
            !(s.len() == 0 || byte_len(s) > MAX_FILESYSTEM_PATH_BYTES),
            !(s[0] != '/' || s == seq!['/'] || s.last() == '/' || has_double_slash(s) || has_nul(s)),
        decreases n - i,
    {
        if v[i] == '.' && (i == 0 || v[i - 1] == '/') {
            if i + 1 == n || v[i + 1] == '/' {
                assert(dot_segment_at(s, i as int, 1));
                assert(has_traversal(s));
                return Err(ActorError::new(ErrorCode::Internal, owned("filesystem mount path must not contain traversal segments")));
            }
            if v[i + 1] == '.' && (i + 2 == n || v[i + 2] == '/') {
                assert(dot_segment_at(s, i as int, 2));
                assert(has_traversal(s));
                return Err(ActorError::new(ErrorCode::Internal, owned("filesystem mount path must not contain traversal segments")));
            }
        }
        assert forall|k: int| !dot_segment_at(s, i as int, k) by {
            if dot_segment_at(s, i as int, k) {
                assert(s[i as int] == '.');
                if k == 2 {
                    assert(s[i + 1] == '.');
                }
            }
        }
        i += 1;
    }
    assert(!has_traversal(s));
    if under_literal(&v, "/proc") || under_literal(&v, "/etc/agentos")
        || under_literal(&v, "/opt/agentos") || under_literal(&v, "/__agentos")
    {
        let body = with_text(owned("filesystem mount path "), debug_quoted(path).as_str(), " is reserved by agentOS");
        return Err(ActorError::new(ErrorCode::Internal, body));
    }
    Ok(())
}

/// Whether the characters are `r` or lie below `r`.
fn under_literal(v: &Vec<char>, r: &str) -> (b: bool)
    ensures
        b == at_or_under(v@, r@),
{
    if !matches_at(v, 0, r) {
        proof {
            if v@ == r@ {
                assert(v@.subrange(0, r@.len() as int) =~= v@);
            }
        }
        return false;
    }
    let m = r.unicode_len();
    let n = v.len();
    if n == m {
        assert(v@ =~= v@.subrange(0, m as int));
        return true;
    }
    v[m] == '/'
}

/// Checks a durable namespace.
pub fn normalize_namespace(namespace: String) -> (r: Result<String, ActorError>)
    ensures
        outcome_of(r, |s: String| s@) == match check_namespace(namespace@) {
            Err(f) => Err(f),
            Ok(()) => Ok(namespace@),
        },
{
    let n = namespace.as_str().unicode_len();
    if n == 0 || namespace.as_str().len() > MAX_FILESYSTEM_NAMESPACE_BYTES {
        return Err(ActorError::new(ErrorCode::Internal, owned("durable filesystem namespace must contain 1..=128 bytes")));
    }
    let mut i: usize = 0;
    while i < n
        invariant
            n == namespace@.len(),
            i <= n,
            n > 0,
            byte_len(namespace@) <= MAX_FILESYSTEM_NAMESPACE_BYTES,
            forall|j: int| 0 <= j < i ==> is_namespace_char(#[trigger] namespace@[j]),
        decreases n - i,
    {
        let c = namespace.as_str().get_char(i);
        if !(('a' <= c && c <= 'z') || ('A' <= c && c <= 'Z') || ('0' <= c && c <= '9') || c == '-' || c == '_' || c == '.') {
            assert(!is_namespace_char(namespace@[i as int]));
            return Err(ActorError::new(ErrorCode::Internal, owned("durable filesystem namespace may contain only ASCII letters, digits, '-', '_', and '.'")));
        }
        i += 1;
    }
    Ok(namespace)
}

/// Whether `a` lies strictly below `b`.
fn strictly_under_chars(a: &Vec<char>, b: &Vec<char>) -> (r: bool)
    ensures
        r == strictly_under(a@, b@),
{
    let n = a.len();
    let m = b.len();
    if n <= m {
        return false;
    }
    let mut i: usize = 0;
    while i < m
        invariant
            n == a@.len(),
            m == b@.len(),
            m < n,
            i <= m,
            forall|j: int| 0 <= j < i ==> a@[j] == b@[j],
        decreases m - i,
    {
        if a[i] != b[i] {
            assert(a@.subrange(0, m as int)[i as int] != b@[i as int]);
            return false;
        }
        i += 1;
    }
    assert(a@.subrange(0, m as int) =~= b@);
    a[m] == '/'
}

/// Whether two character sequences are equal.
fn chars_equal(a: &Vec<char>, b: &Vec<char>) -> (r: bool)
    ensures
        r == (a@ == b@),
{
    let n = a.len();
    if n != b.len() {
        return false;
    }
    let mut i: usize = 0;
    while i < n
        invariant
            n == a@.len(),
            n == b@.len(),
            i <= n,
            forall|j: int| 0 <= j < i ==> a@[j] == b@[j],
        decreases n - i,
    {
        if a[i] != b[i] {
            return false;
        }
        i += 1;
    }
    assert(a@ =~= b@);
    true
}

/// Whether two mount paths are the same or one lies below the other.
pub fn paths_overlap(left: &str, right: &str) -> (r: bool)
    ensures
        r == overlap(left@, right@),
{
    let l = chars_of(left);
    let rr = chars_of(right);
    chars_equal(&l, &rr) || strictly_under_chars(&l, &rr) || strictly_under_chars(&rr, &l)
}

/// Overlap does not depend on which path is named first.
pub proof fn lemma_overlap_symmetric(left: Seq<char>, right: Seq<char>)
    ensures
        overlap(left, right) == overlap(right, left),
{
}


/// The mathematical content of normalized mounts.
pub open spec fn mounts_view(mounts: Seq<HostedFilesystemMount>) -> Seq<MountView> {
    Seq::new(mounts.len(), |j: int| mount_view(mounts[j]))
}

/// Once normalizing a prefix fails, every longer prefix fails the same way.
proof fn lemma_mounts_fold_sticks(inputs: Seq<HostedFilesystemMountInput>, root: RootView, i: int, m: int)
    requires
        0 <= i <= m,
        mounts_fold(inputs, root, i) is Err,
    ensures
        mounts_fold(inputs, root, m) == mounts_fold(inputs, root, i),
    decreases m - i,
{
    if i < m {
        lemma_mounts_fold_sticks(inputs, root, i, m - 1);
    }
}

/// Whether the namespace is already used by the root or an earlier mount.
fn namespace_is_taken(root: &HostedRootFilesystem, mounts: &Vec<HostedFilesystemMount>, ns: &String) -> (b: bool)
    ensures
        b == namespace_taken(root_view(*root), mounts_view(mounts@), ns@),
{
    if let HostedRootFilesystem::Durable { namespace, .. } = root {
        if *namespace == *ns {
            return true;
        }
    }
    let n = mounts.len();
    let mut j: usize = 0;
    while j < n
        invariant
            n == mounts@.len(),
            j <= n,
            forall|k: int| 0 <= k < j ==> (#[trigger] mounts_view(mounts@)[k]).1 != ns@,
        decreases n - j,
    {
        let HostedFilesystemBackend::Durable { namespace } = &mounts[j].backend;
        if *namespace == *ns {
            assert(mounts_view(mounts@)[j as int].1 == ns@);
            return true;
        }
        j += 1;
    }
    false
}

/// Whether the path overlaps the path of an earlier mount.
fn overlaps_existing(mounts: &Vec<HostedFilesystemMount>, path: &String) -> (b: bool)
    ensures
        b == overlaps_earlier(mounts_view(mounts@), path@),
{
    let n = mounts.len();
    let mut j: usize = 0;
    while j < n
        invariant
            n == mounts@.len(),
            j <= n,
            forall|k: int| 0 <= k < j ==> !overlap((#[trigger] mounts_view(mounts@)[k]).0, path@),
        decreases n - j,
    {
        if paths_overlap(mounts[j].path.as_str(), path.as_str()) {
            assert(overlap(mounts_view(mounts@)[j as int].0, path@));
            return true;
        }
        j += 1;
    }
    false
}

/// Normalizes the hosted filesystem: fills in namespaces (`root`, `mount-<index>`),
/// and rejects malformed or reserved mount paths, bad or repeated namespaces and
/// overlapping mounts.
pub fn normalize_filesystem(input: HostedFilesystemConfigInput) -> (r: Result<HostedFilesystemConfig, ActorError>)
    ensures
        outcome_of(r, |c: HostedFilesystemConfig| filesystem_view(c)) == filesystem_spec(input),
{
    let n = input.mounts.len();
    if n > MAX_HOSTED_MOUNTS {
        return Err(ActorError::new(ErrorCode::Internal, owned("filesystem.mounts exceeds limit of 32; reduce the mount collection")));
    }
    let root = match &input.root {
        Some(HostedRootFilesystemInput::Durable { namespace, read_only }) => {
            let raw = match namespace {
                Some(value) => value.clone(),
                None => owned("root"),
            };
            match normalize_namespace(raw) {
                Err(e) => return Err(e),
                Ok(ns) => HostedRootFilesystem::Durable { namespace: ns, read_only: *read_only },
            }
        },
        _ => HostedRootFilesystem::Default,
    };
    assert(root_spec(input.root) == Ok::<RootView, Fault>(root_view(root)));
    let ghost inputs = input.mounts@;
    let ghost rv = root_view(root);
    let mut mounts: Vec<HostedFilesystemMount> = Vec::new();
    assert(mounts_view(mounts@) =~= Seq::<MountView>::empty());
    let mut i: usize = 0;
    while i < n
        invariant
            n == inputs.len(),
            inputs == input.mounts@,
            rv == root_view(root),
            n <= MAX_HOSTED_MOUNTS,
            root_spec(input.root) == Ok::<RootView, Fault>(rv),
            i <= n,
            mounts_fold(inputs, rv, i as int) == Ok::<Seq<MountView>, Fault>(mounts_view(mounts@)),
        decreases n - i,
    {
        let m = &input.mounts[i];
        assert(mounts_fold(inputs, rv, i as int + 1) == mount_step(mounts_fold(inputs, rv, i as int), rv, inputs[i as int], i as nat));
        let checked = validate_hosted_mount_path(m.path.as_str());
        if let Err(e) = checked {
            proof {
                lemma_mounts_fold_sticks(inputs, rv, i as int + 1, n as int);
            }
            return Err(e);
        }
        let raw = match &m.backend {
            HostedFilesystemBackendInput::Durable { namespace } => match namespace {
                Some(value) => value.clone(),
                None => numbered("mount-", i),
            },
        };
        assert(raw@ == requested_namespace(inputs[i as int], i as nat));
        let ns = match normalize_namespace(raw) {
            Err(e) => {
                proof {
                    lemma_mounts_fold_sticks(inputs, rv, i as int + 1, n as int);
                }
                return Err(e);
            },
            Ok(ns) => ns,
        };
        if namespace_is_taken(&root, &mounts, &ns) {
            let body = with_text(owned("durable filesystem namespace "), debug_quoted(ns.as_str()).as_str(), " is used more than once");
            proof {
                lemma_mounts_fold_sticks(inputs, rv, i as int + 1, n as int);
            }
            return Err(ActorError::new(ErrorCode::Internal, body));
        }
        if overlaps_existing(&mounts, &m.path) {
            let body = with_text(owned("filesystem mount path "), debug_quoted(m.path.as_str()).as_str(), " overlaps another configured mount");
            proof {
                lemma_mounts_fold_sticks(inputs, rv, i as int + 1, n as int);
            }
            return Err(ActorError::new(ErrorCode::Internal, body));
        }
        let mount = HostedFilesystemMount {
            path: m.path.clone(),
            backend: HostedFilesystemBackend::Durable { namespace: ns },
            read_only: m.read_only,
        };
        let ghost before = mounts_view(mounts@);
        mounts.push(mount);
        assert(mounts_view(mounts@) =~= before.push((inputs[i as int].path@, requested_namespace(inputs[i as int], i as nat), inputs[i as int].read_only)));
        i += 1;
    }
    let config = HostedFilesystemConfig { root, mounts };
    assert(filesystem_view(config).1 =~= mounts_view(config.mounts@));
    Ok(config)
}

/// What normalized mounts guarantee: each path and namespace is valid, paths
/// never overlap, namespaces never repeat and never equal the root's.
pub open spec fn mounts_well_formed(root: RootView, mounts: Seq<MountView>) -> bool {
    &&& forall|j: int| 0 <= j < mounts.len() ==> check_mount_path((#[trigger] mounts[j]).0) is Ok && check_namespace(mounts[j].1) is Ok
    &&& forall|j: int, k: int| 0 <= j < k < mounts.len() ==> !overlap((#[trigger] mounts[j]).0, (#[trigger] mounts[k]).0) && mounts[j].1 != mounts[k].1
    &&& forall|j: int| 0 <= j < mounts.len() ==> !(root matches Some(r) && r.0 == (#[trigger] mounts[j]).1)
}

proof fn lemma_mounts_fold_well_formed(inputs: Seq<HostedFilesystemMountInput>, root: RootView, n: int)
    requires
        0 <= n <= inputs.len(),
        mounts_fold(inputs, root, n) is Ok,
    ensures
        mounts_well_formed(root, mounts_fold(inputs, root, n)->Ok_0),
        mounts_fold(inputs, root, n)->Ok_0.len() == n,
    decreases n,
{
    if n > 0 {
        lemma_mounts_fold_well_formed(inputs, root, n - 1);
        let prev = mounts_fold(inputs, root, n - 1)->Ok_0;
        let cur = mounts_fold(inputs, root, n)->Ok_0;
        let m = inputs[n - 1];
        let ns = requested_namespace(m, (n - 1) as nat);
        assert(!namespace_taken(root, prev, ns));
        assert(!overlaps_earlier(prev, m.path@));
        assert(cur == prev.push((m.path@, ns, m.read_only)));
        assert forall|j: int, k: int| 0 <= j < k < cur.len() implies !overlap((#[trigger] cur[j]).0, (#[trigger] cur[k]).0) && cur[j].1 != cur[k].1 by {
            if k == cur.len() - 1 {
                assert(cur[j] == prev[j]);
                if overlap(prev[j].0, m.path@) {
                    assert(overlaps_earlier(prev, m.path@));
                }
                if prev[j].1 == ns {
                    assert(namespace_taken(root, prev, ns));
                }
            } else {
                assert(cur[j] == prev[j]);
                assert(cur[k] == prev[k]);
            }
        }
        assert forall|j: int| 0 <= j < cur.len() implies !(root matches Some(r) && r.0 == (#[trigger] cur[j]).1) by {
            if j < cur.len() - 1 {
                assert(cur[j] == prev[j]);
            }
        }
        assert forall|j: int| 0 <= j < cur.len() implies check_mount_path((#[trigger] cur[j]).0) is Ok && check_namespace(cur[j].1) is Ok by {
            if j < cur.len() - 1 {
                assert(cur[j] == prev[j]);
            }
        }
    }
}

/// A normalized hosted filesystem never has two mounts whose paths overlap or
/// that share a durable namespace, never reuses the root's namespace, and only
/// holds valid mount paths and namespaces.
pub proof fn lemma_normalized_filesystem_is_disjoint(input: HostedFilesystemConfigInput)
    requires
        filesystem_spec(input) is Ok,
    ensures
        mounts_well_formed(filesystem_spec(input)->Ok_0.0, filesystem_spec(input)->Ok_0.1),
        filesystem_spec(input)->Ok_0.1.len() == input.mounts@.len(),
{
    let root = root_spec(input.root)->Ok_0;
    lemma_mounts_fold_well_formed(input.mounts@, root, input.mounts@.len() as int);
}

// ---------------------------------------------------------------------------
// Environment and permissions
// ---------------------------------------------------------------------------

/// The character occurs in the sequence.
pub open spec fn has_char(s: Seq<char>, c: char) -> bool {
    exists|i: int| 0 <= i < s.len() && #[trigger] s[i] == c
}

/// One environment entry, in key-value order, and the running byte count.
pub open spec fn check_env_entry(pairs: Seq<(Seq<char>, Seq<char>)>, i: int) -> Outcome {
    let key = pairs[i].0;
    let value = pairs[i].1;
    if key.len() == 0 || byte_len(key) > MAX_ENVIRONMENT_KEY_BYTES || has_char(key, '=') || has_char(key, '\0') {
        Err(fault(ErrorCode::InvalidInput, "environment key "@ + debug_text(key) + " must contain 1..=256 bytes without '=' or NUL"@))
    } else if byte_len(value) > MAX_ENVIRONMENT_VALUE_BYTES || has_char(value, '\0') {
        Err(fault(ErrorCode::LimitExceeded, "environment value for "@ + debug_text(key) + " exceeds 8192 bytes or contains NUL; reduce it or raise MAX_ENVIRONMENT_VALUE_BYTES"@))
    } else if pairs_bytes(pairs, i + 1) > usize::MAX {
        Err(fault(ErrorCode::LimitExceeded, "environment byte count overflow"@))
    } else {
        Ok(())
    }
}

/// The total size of the actor configuration environment.
pub open spec fn check_env_total(pairs: Seq<(Seq<char>, Seq<char>)>) -> Outcome {
    if total_bytes(pairs) > MAX_ENVIRONMENT_BYTES {
        Err(fault(ErrorCode::LimitExceeded, "environment contains "@ + decimal(total_bytes(pairs)) + " bytes; maximum is 65536; reduce it or raise MAX_ENVIRONMENT_BYTES"@))
    } else {
        Ok(())
    }
}

/// The actor configuration environment, if one is supplied.
pub open spec fn check_config_environment(env: Option<Seq<(Seq<char>, Seq<char>)>>) -> Outcome {
    match env {
        None => Ok(()),
        Some(pairs) => if pairs.len() > MAX_ENVIRONMENT_ENTRIES {
            Err(fault(ErrorCode::LimitExceeded, "environment has "@ + decimal(pairs.len()) + " entries; maximum is 256; reduce the environment or raise MAX_ENVIRONMENT_ENTRIES"@))
        } else {
            then(first_failure(pairs.len() as int, |i: int| check_env_entry(pairs, i)), check_env_total(pairs))
        },
    }
}

proof fn lemma_scan_reaches(len: int, check: spec_fn(int) -> Outcome, start: int, k: int)
    requires
        start <= k < len,
        check(k) is Err,
    ensures
        scan(len, check, start) is Err,
        (forall|j: int| start <= j < k ==> (#[trigger] check(j)) is Ok) ==> scan(len, check, start) == check(k),
    decreases k - start,
{
    if start < k {
        lemma_scan_reaches(len, check, start + 1, k);
    }
}

/// An environment key that holds '=' or NUL is never accepted: the
/// environment is refused, and when that entry is the first bad one of an
/// environment within the entry limit, the refusal is invalid input.
pub proof fn lemma_environment_keys_never_hold_equals_or_nul(pairs: Seq<(Seq<char>, Seq<char>)>, k: int, at: int)
    requires
        0 <= k < pairs.len(),
        0 <= at < pairs[k].0.len(),
        pairs[k].0[at] == '=' || pairs[k].0[at] == '\0',
    ensures
        check_config_environment(Some(pairs)) is Err,
        pairs.len() <= MAX_ENVIRONMENT_ENTRIES && (forall|j: int| 0 <= j < k ==> (#[trigger] check_env_entry(pairs, j)) is Ok)
            ==> (check_config_environment(Some(pairs)) matches Err(f) && f.0 == ErrorCode::InvalidInput),
{
    let check = |i: int| check_env_entry(pairs, i);
    if pairs.len() <= MAX_ENVIRONMENT_ENTRIES {
        assert(has_char(pairs[k].0, pairs[k].0[at]));
        assert(check(k) is Err);
        lemma_scan_reaches(pairs.len() as int, check, 0, k);
        if forall|j: int| 0 <= j < k ==> (#[trigger] check_env_entry(pairs, j)) is Ok {
            assert forall|j: int| 0 <= j < k implies (#[trigger] check(j)) is Ok by {
                assert(check(j) == check_env_entry(pairs, j));
            }
        }
    }
}

proof fn lemma_scan_ok(len: int, check: spec_fn(int) -> Outcome, start: int, k: int)
    requires
        0 <= start <= k < len,
        scan(len, check, start) is Ok,
    ensures
        check(k) is Ok,
    decreases k - start,
{
    if start < k {
        lemma_scan_ok(len, check, start + 1, k);
    }
}

/// An accepted environment has at most 256 entries, each key of 1 to 256
/// bytes without '=' or NUL, each value of at most 8192 bytes without NUL,
/// and at most 65536 bytes in all.
pub proof fn lemma_accepted_environment_is_within_limits(pairs: Seq<(Seq<char>, Seq<char>)>)
    requires
        check_config_environment(Some(pairs)) is Ok,
    ensures
        pairs.len() <= MAX_ENVIRONMENT_ENTRIES,
        total_bytes(pairs) <= MAX_ENVIRONMENT_BYTES,
        forall|k: int, at: int| 0 <= k < pairs.len() && 0 <= at < pairs[k].0.len()
            ==> (#[trigger] pairs[k].0[at]) != '=' && pairs[k].0[at] != '\0',
        forall|k: int, at: int| 0 <= k < pairs.len() && 0 <= at < pairs[k].1.len()
            ==> (#[trigger] pairs[k].1[at]) != '\0',
        forall|k: int| 0 <= k < pairs.len() ==> (#[trigger] pairs[k].0).len() > 0
            && byte_len(pairs[k].0) <= MAX_ENVIRONMENT_KEY_BYTES && byte_len(pairs[k].1) <= MAX_ENVIRONMENT_VALUE_BYTES,
{
    let check = |i: int| check_env_entry(pairs, i);
    assert forall|k: int| 0 <= k < pairs.len() implies (#[trigger] check_env_entry(pairs, k)) is Ok by {
        lemma_scan_ok(pairs.len() as int, check, 0, k);
        assert(check(k) == check_env_entry(pairs, k));
    }
    assert forall|k: int, at: int| 0 <= k < pairs.len() && 0 <= at < pairs[k].0.len()
        implies (#[trigger] pairs[k].0[at]) != '=' && pairs[k].0[at] != '\0' by {
        assert(check_env_entry(pairs, k) is Ok);
        if pairs[k].0[at] == '=' || pairs[k].0[at] == '\0' {
            assert(has_char(pairs[k].0, pairs[k].0[at]));
        }
    }
    assert forall|k: int, at: int| 0 <= k < pairs.len() && 0 <= at < pairs[k].1.len()
        implies (#[trigger] pairs[k].1[at]) != '\0' by {
        assert(check_env_entry(pairs, k) is Ok);
        if pairs[k].1[at] == '\0' {
            assert(has_char(pairs[k].1, pairs[k].1[at]));
        }
    }
    assert forall|k: int| 0 <= k < pairs.len() implies (#[trigger] pairs[k].0).len() > 0
        && byte_len(pairs[k].0) <= MAX_ENVIRONMENT_KEY_BYTES && byte_len(pairs[k].1) <= MAX_ENVIRONMENT_VALUE_BYTES by {
        assert(check_env_entry(pairs, k) is Ok);
    }
}

/// Checks the actor configuration environment.
pub fn validate_environment(environment: Option<&StringMap>) -> (r: Result<(), ActorError>)
    ensures
        outcome(r) == check_config_environment(match environment { Some(m) => Some(m@), None => None }),
{
    let env = match environment {
        None => return Ok(()),
        Some(m) => m,
    };
    let n = env.len();
    if n > MAX_ENVIRONMENT_ENTRIES {
        let body = with_number(owned("environment has "), n, " entries; maximum is 256; reduce the environment or raise MAX_ENVIRONMENT_ENTRIES");
        return Err(ActorError::new(ErrorCode::LimitExceeded, body));
    }
    let ghost pairs = env@;
    let ghost check = |i: int| check_env_entry(pairs, i);
    let mut total: usize = 0;
    let mut i: usize = 0;
    while i < n
        invariant
            n == pairs.len(),
            pairs == env@,
            environment == Some(env),
            n <= MAX_ENVIRONMENT_ENTRIES,
            i <= n,
            check == (|i: int| check_env_entry(pairs, i)),
            check_config_environment(Some(pairs)) == then(first_failure(n as int, check), check_env_total(pairs)),
            first_failure(n as int, check) == scan(n as int, check, i as int),
            total == pairs_bytes(pairs, i as int),
        decreases n - i,
    {
        let (key, value) = env.entry(i);
        if key.as_str().unicode_len() == 0 || key.as_str().len() > MAX_ENVIRONMENT_KEY_BYTES
            || contains_char(key.as_str(), '=') || contains_char(key.as_str(), '\0')
        {
            let body = with_text(owned("environment key "), debug_quoted(key.as_str()).as_str(), " must contain 1..=256 bytes without '=' or NUL");
            return Err(ActorError::new(ErrorCode::InvalidInput, body));
        }
        if value.as_str().len() > MAX_ENVIRONMENT_VALUE_BYTES || contains_char(value.as_str(), '\0') {
            let body = with_text(owned("environment value for "), debug_quoted(key.as_str()).as_str(), " exceeds 8192 bytes or contains NUL; reduce it or raise MAX_ENVIRONMENT_VALUE_BYTES");
            return Err(ActorError::new(ErrorCode::LimitExceeded, body));
        }
        let kl = key.as_str().len();
        let vl = value.as_str().len();
        assert(pairs_bytes(pairs, i as int + 1) == total + kl + vl);
        if total > usize::MAX - kl || total + kl > usize::MAX - vl {
            return Err(ActorError::new(ErrorCode::LimitExceeded, owned("environment byte count overflow")));
        }
        total = total + kl + vl;
        i += 1;
    }
    if total > MAX_ENVIRONMENT_BYTES {
        let body = with_number(owned("environment contains "), total, " bytes; maximum is 65536; reduce it or raise MAX_ENVIRONMENT_BYTES");
        return Err(ActorError::new(ErrorCode::LimitExceeded, body));
    }
    Ok(())
}

/// A permission domain's rule count.
pub open spec fn check_rule_count(label: Seq<char>, count: nat) -> Outcome {
    if count > MAX_PERMISSION_RULES_PER_DOMAIN {
        Err(fault(ErrorCode::LimitExceeded, label + " has "@ + decimal(count) + " rules; maximum is 256; reduce it or raise MAX_PERMISSION_RULES_PER_DOMAIN"@))
    } else {
        Ok(())
    }
}

/// A permission value that is too long or holds a NUL.
pub open spec fn oversized_value(v: Seq<char>) -> bool {
    byte_len(v) > MAX_PERMISSION_VALUE_BYTES || has_char(v, '\0')
}

/// A rule's optional value list: bounded count, each value bounded and NUL-free.
pub open spec fn check_permission_values(label: Seq<char>, values: Option<Seq<String>>) -> Outcome {
    match values {
        None => Ok(()),
        Some(vs) => if vs.len() > MAX_PERMISSION_VALUES_PER_RULE {
            Err(fault(ErrorCode::LimitExceeded, label + " has "@ + decimal(vs.len()) + " values; maximum is 128; reduce it or raise MAX_PERMISSION_VALUES_PER_RULE"@))
        } else {
            first_failure(vs.len() as int, |i: int| if oversized_value(vs[i]@) {
                Err(fault(ErrorCode::LimitExceeded, label + " value contains "@ + decimal(byte_len(vs[i]@)) + " bytes or NUL; maximum is 4096; reduce it or raise MAX_PERMISSION_VALUE_BYTES"@))
            } else {
                Ok(())
            })
        },
    }
}

/// Checks a permission domain's rule count.
pub fn validate_permission_rule_count(label: &str, count: usize) -> (r: Result<(), ActorError>)
    ensures
        outcome(r) == check_rule_count(label@, count as nat),
{
    if count > MAX_PERMISSION_RULES_PER_DOMAIN {
        let body = with_number(appended(owned(label), " has "), count, " rules; maximum is 256; reduce it or raise MAX_PERMISSION_RULES_PER_DOMAIN");
        return Err(ActorError::new(ErrorCode::LimitExceeded, body));
    }
    Ok(())
}

/// Checks a rule's optional value list.
pub fn validate_permission_values(label: &str, values: Option<&[String]>) -> (r: Result<(), ActorError>)
    ensures
        outcome(r) == check_permission_values(label@, match values { Some(v) => Some(v@), None => None }),
{
    let list = match values {
        None => return Ok(()),
        Some(v) => v,
    };
    let n = list.len();
    if n > MAX_PERMISSION_VALUES_PER_RULE {
        let body = with_number(appended(owned(label), " has "), n, " values; maximum is 128; reduce it or raise MAX_PERMISSION_VALUES_PER_RULE");
        return Err(ActorError::new(ErrorCode::LimitExceeded, body));
    }
    let ghost vs = list@;
    let ghost check = |i: int| if oversized_value(vs[i]@) {
        Err(fault(ErrorCode::LimitExceeded, label@ + " value contains "@ + decimal(byte_len(vs[i]@)) + " bytes or NUL; maximum is 4096; reduce it or raise MAX_PERMISSION_VALUE_BYTES"@))
    } else {
        Ok(())
    };
    let mut i: usize = 0;
    while i < n
        invariant
            n == vs.len(),
            vs == list@,
            values == Some(list),
            n <= MAX_PERMISSION_VALUES_PER_RULE,
            i <= n,
            check == (|i: int| if oversized_value(vs[i]@) {
                Err(fault(ErrorCode::LimitExceeded, label@ + " value contains "@ + decimal(byte_len(vs[i]@)) + " bytes or NUL; maximum is 4096; reduce it or raise MAX_PERMISSION_VALUE_BYTES"@))
            } else {
                Ok(())
            }),
            first_failure(n as int, check) == scan(n as int, check, i as int),
            check_permission_values(label@, Some(vs)) == first_failure(n as int, check),
        decreases n - i,
    {
        let value = list[i].as_str();
        if value.len() > MAX_PERMISSION_VALUE_BYTES || contains_char(value, '\0') {
            let body = with_number(appended(owned(label), " value contains "), value.len(), " bytes or NUL; maximum is 4096; reduce it or raise MAX_PERMISSION_VALUE_BYTES");
            return Err(ActorError::new(ErrorCode::LimitExceeded, body));
        }
        i += 1;
    }
    Ok(())
}

/// One filesystem permission rule: the value lists that are bounded.
#[derive(Debug, Clone, PartialEq, Eq)]
pub struct FsPermissionRule {
    pub operations: Option<Vec<String>>,
    pub paths: Option<Vec<String>>,
}

/// One pattern permission rule (network, child process, process, env or
/// binding): the value lists that are bounded.
#[derive(Debug, Clone, PartialEq, Eq)]
pub struct PatternPermissionRule {
    pub operations: Option<Vec<String>>,
    pub patterns: Option<Vec<String>>,
}

/// The rule lists of a permissions configuration: for each domain its rules
/// when the domain is configured by rules, `None` when it is absent or
/// configured by a single mode.
#[derive(Debug, Clone, PartialEq, Eq)]
pub struct PermissionRuleSets {
    pub fs: Option<Vec<FsPermissionRule>>,
    pub network: Option<Vec<PatternPermissionRule>>,
    pub child_process: Option<Vec<PatternPermissionRule>>,
    pub process: Option<Vec<PatternPermissionRule>>,
    pub env: Option<Vec<PatternPermissionRule>>,
    pub binding: Option<Vec<PatternPermissionRule>>,
}

/// The contents of an optional value list.
pub open spec fn values_view(v: Option<Vec<String>>) -> Option<Seq<String>> {
    match v {
        Some(x) => Some(x@),
        None => None,
    }
}

/// The label of one field of the `index`-th rule: `label.rules[index].field`.
pub open spec fn rule_label(label: Seq<char>, index: nat, field: Seq<char>) -> Seq<char> {
    label + ".rules["@ + decimal(index) + "]."@ + field
}

/// One rule: its operations, then its second value list (`field`).
pub open spec fn check_rule(label: Seq<char>, index: nat, operations: Option<Seq<String>>, field: Seq<char>, values: Option<Seq<String>>) -> Outcome {
    then(
        check_permission_values(rule_label(label, index, "operations"@), operations),
        check_permission_values(rule_label(label, index, field), values),
    )
}

/// A filesystem domain's rules: the rule count, then each rule in order.
pub open spec fn check_fs_rules(label: Seq<char>, rules: Seq<FsPermissionRule>) -> Outcome {
    then(
        check_rule_count(label, rules.len()),
        first_failure(rules.len() as int, |i: int| check_rule(label, i as nat, values_view(rules[i].operations), "paths"@, values_view(rules[i].paths))),
    )
}

/// A pattern domain's rules: the rule count, then each rule in order.
pub open spec fn check_pattern_rules(label: Seq<char>, rules: Seq<PatternPermissionRule>) -> Outcome {
    then(
        check_rule_count(label, rules.len()),
        first_failure(rules.len() as int, |i: int| check_rule(label, i as nat, values_view(rules[i].operations), "patterns"@, values_view(rules[i].patterns))),
    )
}

/// A pattern domain, if it is configured by rules.
pub open spec fn check_pattern_domain(label: Seq<char>, domain: Option<Vec<PatternPermissionRule>>) -> Outcome {
    match domain {
        None => Ok(()),
        Some(rules) => check_pattern_rules(label, rules@),
    }
}

/// The size of the encoded permissions.
pub open spec fn check_permission_bytes(encoded_len: nat) -> Outcome {
    if encoded_len > MAX_PERMISSION_CONFIG_BYTES {
        Err(fault(ErrorCode::LimitExceeded, "permissions contains "@ + decimal(encoded_len) + " bytes; maximum is 262144; reduce it or raise MAX_PERMISSION_CONFIG_BYTES"@))
    } else {
        Ok(())
    }
}

/// The permissions configuration, if one is supplied: the filesystem rules,
/// the pattern domains in a fixed order, then the encoded size.
pub open spec fn check_permissions(permissions: Option<PermissionRuleSets>, encoded_len: nat) -> Outcome {
    match permissions {
        None => Ok(()),
        Some(p) => then(
            match p.fs {
                None => Ok(()),
                Some(rules) => check_fs_rules("permissions.fs"@, rules@),
            },
            then(check_pattern_domain("permissions.network"@, p.network),
            then(check_pattern_domain("permissions.childProcess"@, p.child_process),
            then(check_pattern_domain("permissions.process"@, p.process),
            then(check_pattern_domain("permissions.env"@, p.env),
            then(check_pattern_domain("permissions.binding"@, p.binding),
            check_permission_bytes(encoded_len)))))),
        ),
    }
}

fn values_slice(v: &Option<Vec<String>>) -> (r: Option<&[String]>)
    ensures
        match r {
            Some(s) => values_view(*v) == Some(s@),
            None => values_view(*v) is None,
        },
{
    match v {
        Some(x) => Some(x.as_slice()),
        None => None,
    }
}

/// The label of one field of the `index`-th rule.
fn rule_label_text(label: &str, index: usize, field: &str) -> (r: String)
    ensures
        r@ == rule_label(label@, index as nat, field@),
{
    let head = with_number(appended(owned(label), ".rules["), index, "].");
    appended(head, field)
}

/// Checks one rule's two value lists.
fn validate_rule(label: &str, index: usize, operations: &Option<Vec<String>>, field: &str, values: &Option<Vec<String>>) -> (r: Result<(), ActorError>)
    ensures
        outcome(r) == check_rule(label@, index as nat, values_view(*operations), field@, values_view(*values)),
{
    proof {
        reveal_strlit("operations");
    }
    let ops_label = rule_label_text(label, index, "operations");
    validate_permission_values(ops_label.as_str(), values_slice(operations))?;
    let field_label = rule_label_text(label, index, field);
    validate_permission_values(field_label.as_str(), values_slice(values))
}

/// Checks a filesystem domain's rules.
pub fn validate_fs_permission_rules(label: &str, rules: &[FsPermissionRule]) -> (r: Result<(), ActorError>)
    ensures
        outcome(r) == check_fs_rules(label@, rules@),
{
    validate_permission_rule_count(label, rules.len())?;
    let ghost rs = rules@;
    let ghost check = |i: int| check_rule(label@, i as nat, values_view(rs[i].operations), "paths"@, values_view(rs[i].paths));
    let n = rules.len();
    let mut i: usize = 0;
    while i < n
        invariant
            n == rs.len(),
            rs == rules@,
            i <= n,
            check == (|i: int| check_rule(label@, i as nat, values_view(rs[i].operations), "paths"@, values_view(rs[i].paths))),
            first_failure(n as int, check) == scan(n as int, check, i as int),
            check_fs_rules(label@, rs) == first_failure(n as int, check),
        decreases n - i,
    {
        let rule = &rules[i];
        let r = validate_rule(label, i, &rule.operations, "paths", &rule.paths);
        if r.is_err() {
            assert(check(i as int) == outcome(r));
            return r;
        }
        i += 1;
    }
    Ok(())
}

/// Checks a pattern domain's rules.
pub fn validate_pattern_permission_rules(label: &str, rules: &[PatternPermissionRule]) -> (r: Result<(), ActorError>)
    ensures
        outcome(r) == check_pattern_rules(label@, rules@),
{
    validate_permission_rule_count(label, rules.len())?;
    let ghost rs = rules@;
    let ghost check = |i: int| check_rule(label@, i as nat, values_view(rs[i].operations), "patterns"@, values_view(rs[i].patterns));
    let n = rules.len();
    let mut i: usize = 0;
    while i < n
        invariant
            n == rs.len(),
            rs == rules@,
            i <= n,
            check == (|i: int| check_rule(label@, i as nat, values_view(rs[i].operations), "patterns"@, values_view(rs[i].patterns))),
            first_failure(n as int, check) == scan(n as int, check, i as int),
            check_pattern_rules(label@, rs) == first_failure(n as int, check),
        decreases n - i,
    {
        let rule = &rules[i];
        let r = validate_rule(label, i, &rule.operations, "patterns", &rule.patterns);
        if r.is_err() {
            assert(check(i as int) == outcome(r));
            return r;
        }
        i += 1;
    }
    Ok(())
}

fn validate_pattern_domain(label: &str, domain: &Option<Vec<PatternPermissionRule>>) -> (r: Result<(), ActorError>)
    ensures
        outcome(r) == check_pattern_domain(label@, *domain),
{
    match domain {
        None => Ok(()),
        Some(rules) => validate_pattern_permission_rules(label, rules.as_slice()),
    }
}

/// Checks a permissions configuration. `encoded_len` is the length of its
/// JSON encoding.
pub fn validate_permissions(permissions: Option<&PermissionRuleSets>, encoded_len: usize) -> (r: Result<(), ActorError>)
    ensures
        outcome(r) == check_permissions(match permissions { Some(p) => Some(*p), None => None }, encoded_len as nat),
{
    let p = match permissions {
        None => return Ok(()),
        Some(p) => p,
    };
    if let Some(rules) = &p.fs {
        validate_fs_permission_rules("permissions.fs", rules.as_slice())?;
    }
    validate_pattern_domain("permissions.network", &p.network)?;
    validate_pattern_domain("permissions.childProcess", &p.child_process)?;
    validate_pattern_domain("permissions.process", &p.process)?;
    validate_pattern_domain("permissions.env", &p.env)?;
    validate_pattern_domain("permissions.binding", &p.binding)?;
    if encoded_len > MAX_PERMISSION_CONFIG_BYTES {
        let body = with_number(owned("permissions contains "), encoded_len, " bytes; maximum is 262144; reduce it or raise MAX_PERMISSION_CONFIG_BYTES");
        return Err(ActorError::new(ErrorCode::LimitExceeded, body));
    }
    Ok(())
}

// ---------------------------------------------------------------------------
// Remote software
// ---------------------------------------------------------------------------

/// The mathematical content of a package source: url, digest, size, package id.
pub type SourceView = (Seq<char>, Option<Seq<char>>, Option<u64>, Option<Seq<char>>);

/// The mathematical content of a normalized package source.
pub open spec fn source_view(s: RemotePackageSource) -> SourceView {
    (s.url@, opt_view(s.digest), s.size, opt_view(s.package_id))
}

/// The normalized source: the package id is the digest, the size is dropped.
/// `core_check` is Core's verdict on the URL and digest.
pub open spec fn remote_source_spec(source: RemotePackageSourceInput, core_check: Outcome) -> Result<SourceView, Fault> {
    if source.package_id is Some && opt_view(source.package_id) != opt_view(source.digest) {
        Err(fault(ErrorCode::InvalidInput, "software packageId must equal digest when resolution metadata is supplied"@))
    } else {
        match core_check {
            Err(f) => Err(f),
            Ok(()) => Ok((source.url@, opt_view(source.digest), None, opt_view(source.digest))),
        }
    }
}

fn optional_strings_equal(a: &Option<String>, b: &Option<String>) -> (r: bool)
    ensures
        r == (opt_view(*a) == opt_view(*b)),
{
    match (a, b) {
        (Some(x), Some(y)) => *x == *y,
        (None, None) => true,
        _ => false,
    }
}

fn clone_optional_string(a: &Option<String>) -> (r: Option<String>)
    ensures
        opt_view(r) == opt_view(*a),
{
    match a {
        Some(x) => Some(x.clone()),
        None => None,
    }
}

/// Normalizes a URL-only package source. `core_check` is the result of Core's
/// package-source validation of the source's URL and digest.
pub fn normalize_remote_source(source: RemotePackageSourceInput, core_check: Result<(), ActorError>) -> (r: Result<RemotePackageSource, ActorError>)
    ensures
        outcome_of(r, |s: RemotePackageSource| source_view(s)) == remote_source_spec(source, outcome(core_check)),
{
    if source.package_id.is_some() && !optional_strings_equal(&source.package_id, &source.digest) {
        return Err(ActorError::new(ErrorCode::InvalidInput, owned("software packageId must equal digest when resolution metadata is supplied")));
    }
    if let Err(e) = core_check {
        return Err(e);
    }
    let package_id = clone_optional_string(&source.digest);
    Ok(RemotePackageSource { url: source.url, digest: source.digest, size: None, package_id })
}

/// The pinned form of a source resolved from `url` to `installed`.
pub open spec fn pinned_view(url: Seq<char>, installed: ActorInstalledSoftware) -> SourceView {
    (url, Some(installed.digest@), Some(installed.size_bytes), Some(installed.package_id@))
}

impl RemotePackageSource {
    /// The source pinned to what resolving it installed: its digest, size
    /// and package id.
    pub fn resolved(url: String, installed: &ActorInstalledSoftware) -> (s: Self)
        ensures
            source_view(s) == pinned_view(url@, *installed),
    {
        RemotePackageSource {
            url,
            digest: Some(installed.digest.clone()),
            size: Some(installed.size_bytes),
            package_id: Some(installed.package_id.clone()),
        }
    }
}

/// The identity under which sources are de-duplicated.
pub open spec fn same_identity(a: SourceView, b: SourceView) -> bool {
    a.0 == b.0 && a.1 == b.1
}

/// Adding the `index`-th source to those normalized so far: the first source of
/// each (url, digest) identity is kept.
pub open spec fn software_step(acc: Result<Seq<SourceView>, Fault>, source: RemotePackageSourceInput, core_check: Outcome) -> Result<Seq<SourceView>, Fault> {
    match acc {
        Err(f) => Err(f),
        Ok(kept) => match remote_source_spec(source, core_check) {
            Err(f) => Err(f),
            Ok(v) => if exists|j: int| 0 <= j < kept.len() && same_identity(#[trigger] kept[j], v) {
                Ok(kept)
            } else {
                Ok(kept.push(v))
            },
        },
    }
}

/// The first `n` sources, normalized and de-duplicated in order.
pub open spec fn software_fold(sources: Seq<RemotePackageSourceInput>, checks: Seq<Outcome>, n: int) -> Result<Seq<SourceView>, Fault>
    decreases n,
{
    if n <= 0 {
        Ok(Seq::empty())
    } else {
        software_step(software_fold(sources, checks, n - 1), sources[n - 1], checks[n - 1])
    }
}

/// The normalized software list, or why it is rejected.
pub open spec fn software_spec(sources: Seq<RemotePackageSourceInput>, checks: Seq<Outcome>) -> Result<Seq<SourceView>, Fault> {
    if sources.len() > MAX_REMOTE_SOFTWARE {
        Err(fault(ErrorCode::Internal, "software exceeds limit of 128; reduce the package source collection"@))
    } else {
        software_fold(sources, checks, sources.len() as int)
    }
}

proof fn lemma_software_fold_sticks(sources: Seq<RemotePackageSourceInput>, checks: Seq<Outcome>, i: int, m: int)
    requires
        0 <= i <= m,
        software_fold(sources, checks, i) is Err,
    ensures
        software_fold(sources, checks, m) == software_fold(sources, checks, i),
    decreases m - i,
{
    if i < m {
        lemma_software_fold_sticks(sources, checks, i, m - 1);
    }
}

/// The mathematical content of normalized sources.
pub open spec fn sources_view(s: Seq<RemotePackageSource>) -> Seq<SourceView> {
    Seq::new(s.len(), |j: int| source_view(s[j]))
}

/// The mathematical outcomes of Core's package-source checks.
pub open spec fn outcomes(checks: Seq<Result<(), ActorError>>) -> Seq<Outcome> {
    Seq::new(checks.len(), |j: int| outcome(checks[j]))
}

/// Normalizes the remote software list, keeping the first source of each
/// (url, digest) identity. `core_checks[i]` is Core's verdict on source `i`.
pub fn normalize_remote_software(sources: Vec<RemotePackageSourceInput>, core_checks: Vec<Result<(), ActorError>>) -> (r: Result<Vec<RemotePackageSource>, ActorError>)
    requires
        core_checks@.len() == sources@.len(),
    ensures
        outcome_of(r, |v: Vec<RemotePackageSource>| sources_view(v@)) == software_spec(sources@, outcomes(core_checks@)),
{
    let n = sources.len();
    if n > MAX_REMOTE_SOFTWARE {
        return Err(ActorError::new(ErrorCode::Internal, owned("software exceeds limit of 128; reduce the package source collection")));
    }
    let ghost inputs = sources@;
    let ghost checks = outcomes(core_checks@);
    let mut pending = sources;
    let mut verdicts = core_checks;
    let mut kept: Vec<RemotePackageSource> = Vec::new();
    assert(sources_view(kept@) =~= Seq::<SourceView>::empty());
    let mut i: usize = 0;
    while i < n
        invariant
            n == inputs.len(),
            n == checks.len(),
            inputs == sources@,
            checks == outcomes(core_checks@),
            n <= MAX_REMOTE_SOFTWARE,
            i <= n,
            pending@.len() == n - i,
            verdicts@.len() == n - i,
            forall|j: int| 0 <= j < n - i ==> #[trigger] pending@[j] == inputs[i + j],
            forall|j: int| 0 <= j < n - i ==> outcome(#[trigger] verdicts@[j]) == checks[i + j],
            software_fold(inputs, checks, i as int) == Ok::<Seq<SourceView>, Fault>(sources_view(kept@)),
        decreases n - i,
    {
        assert(pending@[0] == inputs[i as int + 0]);
        assert(outcome(verdicts@[0]) == checks[i as int + 0]);
        let source = pending.remove(0);
        let check = verdicts.remove(0);
        assert(software_fold(inputs, checks, i as int + 1) == software_step(software_fold(inputs, checks, i as int), inputs[i as int], checks[i as int]));
        let normalized = match normalize_remote_source(source, check) {
            Err(e) => {
                proof {
                    lemma_software_fold_sticks(inputs, checks, i as int + 1, n as int);
                }
                return Err(e);
            },
            Ok(s) => s,
        };
        let ghost v = source_view(normalized);
        let k = kept.len();
        let mut j: usize = 0;
        let mut seen = false;
        while j < k
            invariant
                k == kept@.len(),
                j <= k,
                v == source_view(normalized),
                seen == exists|t: int| 0 <= t < j && same_identity(#[trigger] sources_view(kept@)[t], v),
            decreases k - j,
        {
            if kept[j].url == normalized.url && optional_strings_equal(&kept[j].digest, &normalized.digest) {
                assert(same_identity(sources_view(kept@)[j as int], v));
                seen = true;
            }
            j += 1;
        }
        if !seen {
            let ghost before = sources_view(kept@);
            kept.push(normalized);
            assert(sources_view(kept@) =~= before.push(v));
        }
        i += 1;
    }
    Ok(kept)
}

/// Normalized software never holds two sources with the same (url, digest).
pub proof fn lemma_software_identities_distinct(sources: Seq<RemotePackageSourceInput>, checks: Seq<Outcome>, n: int)
    requires
        0 <= n <= sources.len(),
        n <= checks.len(),
        software_fold(sources, checks, n) is Ok,
    ensures
        forall|j: int, k: int| 0 <= j < k < software_fold(sources, checks, n)->Ok_0.len() ==>
            !same_identity(#[trigger] software_fold(sources, checks, n)->Ok_0[j], #[trigger] software_fold(sources, checks, n)->Ok_0[k]),
    decreases n,
{
    if n > 0 {
        lemma_software_identities_distinct(sources, checks, n - 1);
        let prev = software_fold(sources, checks, n - 1)->Ok_0;
        let cur = software_fold(sources, checks, n)->Ok_0;
        assert forall|j: int, k: int| 0 <= j < k < cur.len() implies !same_identity(#[trigger] cur[j], #[trigger] cur[k]) by {
            if cur.len() > prev.len() {
                let v = remote_source_spec(sources[n - 1], checks[n - 1])->Ok_0;
                assert(cur == prev.push(v));
                if k == prev.len() {
                    assert(cur[j] == prev[j]);
                    if same_identity(prev[j], v) {
                        assert(exists|t: int| 0 <= t < prev.len() && same_identity(#[trigger] prev[t], v));
                    }
                } else {
                    assert(cur[j] == prev[j]);
                    assert(cur[k] == prev[k]);
                }
            }
        }
    }
}
// ---------------------------------------------------------------------------
// The whole configuration
// ---------------------------------------------------------------------------

/// Configuration accepted by the hosted actor, as supplied: the fields the
/// actor itself bounds and normalizes. The VM user and resource limits pass
/// through unread and are held beside it by the caller.
#[derive(Debug, Clone)]
pub struct AgentOsActorConfigInput {
    pub environment: Option<StringMap>,
    pub allowed_node_builtins: Option<Vec<String>>,
    pub high_resolution_time: Option<bool>,
    pub loopback_exempt_ports: Option<Vec<u16>>,
    pub permissions: Option<PermissionRuleSets>,
    pub filesystem: Option<HostedFilesystemConfigInput>,
    pub software: Option<Vec<RemotePackageSourceInput>>,
    pub preview: Option<PreviewPolicyInput>,
}

/// The normalized actor configuration.
#[derive(Debug, Clone)]
pub struct AgentOsActorConfig {
    pub environment: Option<StringMap>,
    pub allowed_node_builtins: Option<Vec<String>>,
    pub high_resolution_time: Option<bool>,
    pub loopback_exempt_ports: Vec<u16>,
    pub permissions: Option<PermissionRuleSets>,
    pub filesystem: HostedFilesystemConfig,
    pub software: Vec<RemotePackageSource>,
    pub preview: PreviewPolicy,
}

impl Default for AgentOsActorConfigInput {
    fn default() -> (c: AgentOsActorConfigInput)
        ensures
            c.environment is None,
            c.allowed_node_builtins is None,
            c.high_resolution_time is None,
            c.loopback_exempt_ports is None,
            c.permissions is None,
            c.filesystem is None,
            c.software is None,
            c.preview is None,
    {
        AgentOsActorConfigInput {
            environment: None,
            allowed_node_builtins: None,
            high_resolution_time: None,
            loopback_exempt_ports: None,
            permissions: None,
            filesystem: None,
            software: None,
            preview: None,
        }
    }
}

impl Default for AgentOsActorConfig {
    fn default() -> (c: AgentOsActorConfig)
        ensures
            c.environment is None,
            c.allowed_node_builtins is None,
            c.high_resolution_time is None,
            c.loopback_exempt_ports@.len() == 0,
            c.permissions is None,
            c.filesystem.root == HostedRootFilesystem::Default,
            c.filesystem.mounts@.len() == 0,
            c.software@.len() == 0,
            c.preview == (PreviewPolicy { default_ttl_ms: DEFAULT_PREVIEW_TTL_MS, max_ttl_ms: MAX_PREVIEW_TTL_MS, max_active: MAX_ACTIVE_PREVIEWS }),
    {
        AgentOsActorConfig {
            environment: None,
            allowed_node_builtins: None,
            high_resolution_time: None,
            loopback_exempt_ports: Vec::new(),
            permissions: None,
            filesystem: HostedFilesystemConfig::default(),
            software: Vec::new(),
            preview: PreviewPolicy::default(),
        }
    }
}

/// What the VM configuration rules answered for an input: the canonical
/// builtin list (present when the input names builtins), the canonical
/// loopback-exempt ports (for the input's ports, or none), Core's verdict on
/// each software source, and the length of the permissions' JSON encoding.
#[derive(Debug)]
pub struct ConfigChecks {
    pub allowed_node_builtins: Option<Result<Vec<String>, ActorError>>,
    pub loopback_exempt_ports: Result<Vec<u16>, ActorError>,
    pub software: Vec<Result<(), ActorError>>,
    pub permissions_encoded_len: usize,
}

/// The contents of an optional string map.
pub open spec fn env_view(m: Option<StringMap>) -> Option<Seq<(Seq<char>, Seq<char>)>> {
    match m {
        Some(x) => Some(x@),
        None => None,
    }
}

/// The failure of an outside check, if it failed.
pub open spec fn failure_of<T>(r: Result<T, ActorError>) -> Outcome {
    match r {
        Ok(_) => Ok(()),
        Err(e) => Err(e@),
    }
}

/// The failure of a computed result, if it failed.
pub open spec fn spec_failure<T>(r: Result<T, Fault>) -> Outcome {
    match r {
        Ok(_) => Ok(()),
        Err(f) => Err(f),
    }
}

/// The normalized filesystem of an optional input; absent means no root and no mounts.
pub open spec fn filesystem_or_default(f: Option<HostedFilesystemConfigInput>) -> Result<(RootView, Seq<MountView>), Fault> {
    match f {
        Some(x) => filesystem_spec(x),
        None => Ok((None, Seq::empty())),
    }
}

/// The sources of an optional software list; absent means none.
pub open spec fn software_inputs(s: Option<Vec<RemotePackageSourceInput>>) -> Seq<RemotePackageSourceInput> {
    match s {
        Some(v) => v@,
        None => Seq::empty(),
    }
}

/// The preview policy input of an optional one; absent means all defaults.
pub open spec fn preview_input(p: Option<PreviewPolicyInput>) -> PreviewPolicyInput {
    match p {
        Some(x) => x,
        None => PreviewPolicyInput { default_ttl_ms: None, max_ttl_ms: None, max_active: None },
    }
}

/// Why a configuration is rejected, checked in a fixed order: environment,
/// builtins, ports, filesystem, software, permissions, preview.
pub open spec fn config_outcome(input: AgentOsActorConfigInput, checks: ConfigChecks) -> Outcome {
    then(check_config_environment(env_view(input.environment)),
    then(match checks.allowed_node_builtins {
        Some(b) => failure_of(b),
        None => Ok(()),
    },
    then(failure_of(checks.loopback_exempt_ports),
    then(spec_failure(filesystem_or_default(input.filesystem)),
    then(spec_failure(software_spec(software_inputs(input.software), outcomes(checks.software@))),
    then(check_permissions(input.permissions, checks.permissions_encoded_len as nat),
    spec_failure(preview_policy_spec(preview_input(input.preview)))))))))
}

/// The software list of a restart identity: a source's package id, or its
/// URL and digest joined by `#`.
pub open spec fn identity_of(s: RemotePackageSource) -> Seq<char> {
    match s.package_id {
        Some(p) => p@,
        None => s.url@ + "#"@ + match s.digest {
            Some(d) => d@,
            None => Seq::empty(),
        },
    }
}

fn default_filesystem_input() -> (f: HostedFilesystemConfigInput)
    ensures
        f.root is None,
        f.mounts@.len() == 0,
        filesystem_spec(f) == filesystem_or_default(None),
{
    let f = HostedFilesystemConfigInput { root: None, mounts: Vec::new() };
    assert(f.mounts@.len() == 0);
    assert(mounts_fold(f.mounts@, None, 0) == Ok::<Seq<MountView>, Fault>(Seq::empty()));
    f
}

impl AgentOsActorConfig {
    /// Normalizes a supplied configuration: bounds the environment, takes the
    /// canonical builtins and ports, normalizes the filesystem, the software
    /// and the preview policy, and bounds the permissions. The first failure,
    /// in the order of `config_outcome`, is returned.
    pub fn normalize(input: AgentOsActorConfigInput, checks: ConfigChecks) -> (r: Result<AgentOsActorConfig, ActorError>)
        requires
            (checks.allowed_node_builtins is Some) == (input.allowed_node_builtins is Some),
            checks.software@.len() == software_inputs(input.software).len(),
        ensures
            outcome_of(r, |c: AgentOsActorConfig| ()) == config_outcome(input, checks),
            r matches Ok(c) ==> {
                &&& env_view(c.environment) == env_view(input.environment)
                &&& c.allowed_node_builtins == match checks.allowed_node_builtins {
                    Some(Ok(b)) => Some(b),
                    _ => None::<Vec<String>>,
                }
                &&& c.high_resolution_time == input.high_resolution_time
                &&& checks.loopback_exempt_ports matches Ok(p) && c.loopback_exempt_ports == p
                &&& c.permissions == input.permissions
                &&& filesystem_or_default(input.filesystem) == Ok::<(RootView, Seq<MountView>), Fault>(filesystem_view(c.filesystem))
                &&& software_spec(software_inputs(input.software), outcomes(checks.software@))
                    == Ok::<Seq<SourceView>, Fault>(sources_view(c.software@))
                &&& preview_policy_spec(preview_input(input.preview)) == Ok::<PreviewPolicy, Fault>(c.preview)
            },
    {
        validate_environment(input.environment.as_ref())?;
        let allowed_node_builtins = match checks.allowed_node_builtins {
            None => None,
            Some(Err(e)) => return Err(e),
            Some(Ok(b)) => Some(b),
        };
        let loopback_exempt_ports = match checks.loopback_exempt_ports {
            Err(e) => return Err(e),
            Ok(p) => p,
        };
        let filesystem_input = match input.filesystem {
            Some(f) => f,
            None => default_filesystem_input(),
        };
        let filesystem = normalize_filesystem(filesystem_input)?;
        let sources = match input.software {
            Some(v) => v,
            None => Vec::new(),
        };
        assert(sources@ == software_inputs(input.software));
        let software = normalize_remote_software(sources, checks.software)?;
        validate_permissions(input.permissions.as_ref(), checks.permissions_encoded_len)?;
        let preview_in = match input.preview {
            Some(p) => p,
            None => PreviewPolicyInput { default_ttl_ms: None, max_ttl_ms: None, max_active: None },
        };
        let preview = normalize_preview_policy(preview_in)?;
        Ok(AgentOsActorConfig {
            environment: input.environment,
            allowed_node_builtins,
            high_resolution_time: input.high_resolution_time,
            loopback_exempt_ports,
            permissions: input.permissions,
            filesystem,
            software,
            preview,
        })
    }

    /// The actor's own part of the runtime identity: one entry per software
    /// source, its package id or else `url#digest`.
    pub fn restart_identity(&self) -> (ids: Vec<String>)
        ensures
            ids@.len() == self.software@.len(),
            forall|i: int| 0 <= i < ids@.len() ==> #[trigger] ids@[i]@ == identity_of(self.software@[i]),
    {
        let n = self.software.len();
        let mut ids: Vec<String> = Vec::new();
        let mut i: usize = 0;
        while i < n
            invariant
                n == self.software@.len(),
                i <= n,
                ids@.len() == i,
                forall|k: int| 0 <= k < i ==> #[trigger] ids@[k]@ == identity_of(self.software@[k]),
            decreases n - i,
        {
            let source = &self.software[i];
            let id = match &source.package_id {
                Some(p) => p.clone(),
                None => {
                    let digest: &str = match &source.digest {
                        Some(d) => d.as_str(),
                        None => "",
                    };
                    proof {
                        reveal_strlit("");
                    }
                    with_text(owned(source.url.as_str()), "#", digest)
                },
            };
            ids.push(id);
            i += 1;
        }
        ids
    }
}

// ---------------------------------------------------------------------------
// The filesystem as the VM receives it
// ---------------------------------------------------------------------------

/// How the VM treats writes to a native root filesystem.
#[derive(Debug, Clone, Copy, PartialEq, Eq, Structural)]
pub enum RootFilesystemMode {
    ReadOnly,
    Ephemeral,
}

/// A native filesystem plugin and the namespace it stores under.
#[derive(Debug, Clone, PartialEq, Eq)]
pub struct NativePlugin {
    pub id: String,
    pub namespace: String,
}

/// The root filesystem the VM receives: its own default, or a native one
/// without the default base layer.
#[derive(Debug, Clone, PartialEq, Eq)]
pub enum RootFilesystemRequest {
    Default,
    Native { mode: RootFilesystemMode, plugin: NativePlugin, disable_default_base_layer: bool },
}

/// A mount the VM receives.
#[derive(Debug, Clone, PartialEq, Eq)]
pub struct MountRequest {
    pub path: String,
    pub plugin: NativePlugin,
    pub guest_source: String,
    pub guest_fstype: String,
    pub read_only: bool,
}

/// The durable SQLite-backed plugin for a namespace.
pub fn durable_sqlite_plugin(namespace: &str) -> (p: NativePlugin)
    ensures
        p.id@ == "chunked_sqlite"@,
        p.namespace@ == namespace@,
{
    NativePlugin { id: owned("chunked_sqlite"), namespace: owned(namespace) }
}

impl HostedRootFilesystem {
    /// The root filesystem the VM receives: a durable root is a native,
    /// read-only or ephemeral filesystem on the durable plugin, without the
    /// default base layer.
    pub fn to_core(&self) -> (r: RootFilesystemRequest)
        ensures
            match *self {
                HostedRootFilesystem::Default => r == RootFilesystemRequest::Default,
                HostedRootFilesystem::Durable { namespace, read_only } => r matches RootFilesystemRequest::Native { mode, plugin, disable_default_base_layer }
                    && mode == (if read_only { RootFilesystemMode::ReadOnly } else { RootFilesystemMode::Ephemeral })
                    && plugin.id@ == "chunked_sqlite"@
                    && plugin.namespace@ == namespace@
                    && disable_default_base_layer,
            },
    {
        match self {
            HostedRootFilesystem::Default => RootFilesystemRequest::Default,
            HostedRootFilesystem::Durable { namespace, read_only } => RootFilesystemRequest::Native {
                mode: if *read_only { RootFilesystemMode::ReadOnly } else { RootFilesystemMode::Ephemeral },
                plugin: durable_sqlite_plugin(namespace.as_str()),
                disable_default_base_layer: true,
            },
        }
    }
}

impl HostedFilesystemMount {
    /// The mount the VM receives: the durable plugin at the mount's path,
    /// seen by the guest as a `durable` filesystem.
    pub fn to_core(&self) -> (r: MountRequest)
        ensures
            r.path@ == self.path@,
            r.plugin.id@ == "chunked_sqlite"@,
            (match self.backend { HostedFilesystemBackend::Durable { namespace } => r.plugin.namespace@ == namespace@ }),
            r.guest_source@ == "durable"@,
            r.guest_fstype@ == "durable"@,
            r.read_only == self.read_only,
    {
        let HostedFilesystemBackend::Durable { namespace } = &self.backend;
        MountRequest {
            path: self.path.clone(),
            plugin: durable_sqlite_plugin(namespace.as_str()),
            guest_source: owned("durable"),
            guest_fstype: owned("durable"),
            read_only: self.read_only,
        }
    }
}

} // verus!
