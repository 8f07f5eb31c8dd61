//! Hosted software: content-addressed package ids and when a software change
//! can be applied to a running VM.
use vstd::prelude::*;

use crate::actor::actions::ConfigCommitMode;
use crate::actor::runtime::ResolvedSoftware;
use crate::contract::config::{
    pinned_view, source_view, sources_view, AgentOsActorConfig, RemotePackageSource, RemotePackageSourceInput, SourceView,
    MAX_REMOTE_SOFTWARE,
};
use crate::contract::language::opt_view;
use crate::contract::lifecycle::{ConfigApplyState, ConfigSnapshot};
use crate::error::{fault, outcome, ActorError, ErrorCode, Fault, Outcome};
use crate::text::{appended, decimal, owned, str_equals, u64_text, with_number, with_text};

verus! {

/// Install a package source, optionally only at the expected configuration revision.
#[derive(Debug, Clone)]
pub struct SoftwareInstall {
    pub source: RemotePackageSourceInput,
    pub expected_revision: Option<u64>,
}

/// Uninstall the package with the given id, optionally only at the expected revision.
#[derive(Debug, Clone)]
pub struct SoftwareUninstall {
    pub package_id: String,
    pub expected_revision: Option<u64>,
}

/// List the installed packages; it takes no input.
#[derive(Debug, Clone, Copy, PartialEq, Eq, Structural)]
pub struct SoftwareList {}

/// A package installed in the VM, with its size in bytes.
#[derive(Debug, Clone, PartialEq, Eq)]
pub struct ActorInstalledSoftware {
    pub package_id: String,
    pub digest: String,
    pub size_bytes: u64,
    pub package_name: String,
    pub version: String,
    pub commands: Vec<String>,
}

/// The fields of installed software that identify it.
pub open spec fn installed_view(s: ActorInstalledSoftware) -> (Seq<char>, Seq<char>, u64, Seq<char>, Seq<char>) {
    (s.package_id@, s.digest@, s.size_bytes, s.package_name@, s.version@)
}

impl ActorInstalledSoftware {
    /// A copy of the description.
    pub fn copy(&self) -> (r: Self)
        ensures
            installed_view(r) == installed_view(*self),
            r.commands@.len() == self.commands@.len(),
            forall|i: int| 0 <= i < r.commands@.len() ==> #[trigger] r.commands@[i]@ == self.commands@[i]@,
    {
        let n = self.commands.len();
        let mut commands: Vec<String> = Vec::new();
        let mut i: usize = 0;
        while i < n
            invariant
                n == self.commands@.len(),
                i <= n,
                commands@.len() == i,
                forall|j: int| 0 <= j < i ==> #[trigger] commands@[j]@ == self.commands@[j]@,
            decreases n - i,
        {
            commands.push(self.commands[i].clone());
            i += 1;
        }
        ActorInstalledSoftware {
            package_id: self.package_id.clone(),
            digest: self.digest.clone(),
            size_bytes: self.size_bytes,
            package_name: self.package_name.clone(),
            version: self.version.clone(),
            commands,
        }
    }
}

/// A lower-case hexadecimal digit.
pub open spec fn is_lower_hex(c: char) -> bool {
    ('0' <= c && c <= '9') || ('a' <= c && c <= 'f')
}

/// A package id of the form `sha256:` followed by 64 lower-case hex digits.
pub open spec fn is_content_address(id: Seq<char>) -> bool {
    &&& id.len() == 71
    &&& id.take(7) == "sha256:"@
    &&& forall|i: int| 7 <= i < 71 ==> is_lower_hex(#[trigger] id[i])
}

pub open spec fn check_package_id(id: Seq<char>) -> Outcome {
    if is_content_address(id) {
        Ok(())
    } else {
        Err(fault(ErrorCode::InvalidInput, "packageId must use the sha256:<64 lowercase hex> form"@))
    }
}

/// Rejects a package id that is not a content address.
pub fn validate_package_id(package_id: &str) -> (r: Result<(), ActorError>)
    ensures
        outcome(r) == check_package_id(package_id@),
{
    proof {
        reveal_strlit("sha256:");
    }
    let err = ActorError::new(ErrorCode::InvalidInput, owned("packageId must use the sha256:<64 lowercase hex> form"));
    let n = package_id.unicode_len();
    if n != 71 {
        return Err(err);
    }
    let prefix = package_id.substring_char(0, 7);
    if !crate::text::str_equals(prefix, "sha256:") {
        assert(package_id@.take(7) =~= prefix@);
        return Err(err);
    }
    assert(package_id@.take(7) =~= prefix@);
    let mut i: usize = 7;
    while i < 71
        invariant
            n == package_id@.len(),
            n == 71,
            7 <= i <= 71,
            forall|j: int| 7 <= j < i ==> is_lower_hex(#[trigger] package_id@[j]),
        decreases 71 - i,
    {
        let c = package_id.get_char(i);
        if !(('0' <= c && c <= '9') || ('a' <= c && c <= 'f')) {
            return Err(ActorError::new(ErrorCode::InvalidInput, owned("packageId must use the sha256:<64 lowercase hex> form")));
        }
        i += 1;
    }
    Ok(())
}

/// The expected revision, when given, is the current one.
pub open spec fn check_revision(current: u64, expected: Option<u64>) -> Outcome {
    match expected {
        Some(e) => if e != current {
            Err(fault(ErrorCode::RevisionConflict, "expected revision "@ + decimal(e as nat) + ", current revision is "@ + decimal(current as nat)))
        } else {
            Ok(())
        },
        None => Ok(()),
    }
}

/// Rejects a mutation made against a revision that is no longer current.
pub fn require_revision(snapshot: &ConfigSnapshot, expected: Option<u64>) -> (r: Result<(), ActorError>)
    ensures
        outcome(r) == check_revision(snapshot.revision, expected),
{
    let current = snapshot.revision;
    if let Some(e) = expected {
        if e != current {
            let head = with_text(owned("expected revision "), u64_text(e).as_str(), ", current revision is ");
            let body = with_text(head, u64_text(current).as_str(), "");
            proof {
                reveal_strlit("");
                assert(body@ =~= "expected revision "@ + decimal(e as nat) + ", current revision is "@ + decimal(current as nat));
            }
            return Err(ActorError::new(ErrorCode::RevisionConflict, body));
        }
    }
    Ok(())
}

/// A software change applies to the running VM only when the VM is ready and
/// runs the current configuration revision.
pub open spec fn live_applicable(status: ConfigApplyState, applied: Option<u64>, revision: u64, vm_ready: bool) -> bool {
    vm_ready && status == ConfigApplyState::Ready && applied == Some(revision)
}

/// Whether a software change can be applied to the running VM.
pub fn can_apply_software_live(current: &ConfigSnapshot, vm_ready: bool) -> (b: bool)
    ensures
        b == live_applicable(current.status, current.applied_revision, current.revision, vm_ready),
{
    let applied = match current.applied_revision {
        Some(a) => a == current.revision,
        None => false,
    };
    vm_ready && current.status == ConfigApplyState::Ready && applied
}

/// How a software change is committed: live when it was applied live,
/// classified otherwise.
pub fn software_commit_mode(live: bool) -> (m: ConfigCommitMode)
    ensures
        m == if live { ConfigCommitMode::Live } else { ConfigCommitMode::Classify },
{
    if live {
        ConfigCommitMode::Live
    } else {
        ConfigCommitMode::Classify
    }
}

/// The sources kept of the first `n` resolved ones: each package id once,
/// at its first occurrence; a source without a package id is dropped.
pub open spec fn first_by_package(s: Seq<SourceView>, n: int) -> Seq<SourceView>
    decreases n,
{
    if n <= 0 || n > s.len() {
        Seq::empty()
    } else {
        let kept = first_by_package(s, n - 1);
        let v = s[n - 1];
        if v.3 is Some && !(exists|j: int| 0 <= j < kept.len() && #[trigger] kept[j].3 == v.3) {
            kept.push(v)
        } else {
            kept
        }
    }
}

/// Keeps each package id of the resolved sources once, at its first
/// occurrence, and drops sources without one.
pub fn dedup_resolved_sources(sources: Vec<RemotePackageSource>) -> (r: Vec<RemotePackageSource>)
    ensures
        sources_view(r@) == first_by_package(sources_view(sources@), sources@.len() as int),
{
    let ghost all = sources_view(sources@);
    let n = sources.len();
    let mut pending = sources;
    let mut kept: Vec<RemotePackageSource> = Vec::new();
    let mut i: usize = 0;
    assert(sources_view(kept@) =~= Seq::<SourceView>::empty());
    while i < n
        invariant
            n == all.len(),
            all == sources_view(sources@),
            i <= n,
            pending@.len() == n - i,
            forall|j: int| 0 <= j < n - i ==> source_view(#[trigger] pending@[j]) == all[i + j],
            sources_view(kept@) == first_by_package(all, i as int),
        decreases n - i,
    {
        assert(source_view(pending@[0]) == all[i as int + 0]);
        let source = pending.remove(0);
        let ghost v = source_view(source);
        let ghost before = sources_view(kept@);
        let keep = match &source.package_id {
            None => false,
            Some(id) => {
                let k = kept.len();
                let mut j: usize = 0;
                let mut seen = false;
                while j < k
                    invariant
                        k == kept@.len(),
                        before == sources_view(kept@),
                        v.3 == Some(id@),
                        j <= k,
                        seen == exists|t: int| 0 <= t < j && #[trigger] before[t].3 == v.3,
                    decreases k - j,
                {
                    let same = match &kept[j].package_id {
                        Some(other) => *other == *id,
                        None => false,
                    };
                    if same {
                        assert(before[j as int].3 == v.3);
                        seen = true;
                    }
                    j += 1;
                }
                !seen
            },
        };
        if keep {
            kept.push(source);
            assert(sources_view(kept@) =~= before.push(v));
        }
        i += 1;
    }
    kept
}

/// Whether the resolved software lines up with the desired sources, pair by
/// pair, by URL.
pub open spec fn urls_line_up(desired: Seq<RemotePackageSource>, resolved: Seq<ResolvedSoftware>) -> bool {
    forall|i: int| 0 <= i < desired.len() ==> #[trigger] desired[i].url@ == resolved[i].url@
}

/// Pins the desired sources to the software the runtime resolved for them,
/// in order; also says whether any source changed. The runtime must have
/// resolved one package per source, under the same URL.
pub fn pin_sources(desired: &Vec<RemotePackageSource>, resolved: &Vec<ResolvedSoftware>) -> (r: Result<(Vec<RemotePackageSource>, bool), ActorError>)
    ensures
        desired@.len() != resolved@.len() ==> (r matches Err(e) && e@ == fault(ErrorCode::Internal,
            "runtime resolved "@ + decimal(resolved@.len()) + " packages for "@ + decimal(desired@.len()) + " desired sources"@)),
        desired@.len() == resolved@.len() && !urls_line_up(desired@, resolved@) ==> (r matches Err(e)
            && e@ == fault(ErrorCode::Internal, "runtime package resolution order does not match desired software"@)),
        desired@.len() == resolved@.len() && urls_line_up(desired@, resolved@) ==> (r matches Ok((pinned, changed))
            && pinned@.len() == desired@.len()
            && (forall|i: int| 0 <= i < pinned@.len()
                ==> source_view(#[trigger] pinned@[i]) == pinned_view(desired@[i].url@, resolved@[i].installed))
            && changed == exists|i: int| 0 <= i < desired@.len()
                && #[trigger] source_view(desired@[i]) != pinned_view(desired@[i].url@, resolved@[i].installed)),
{
    if desired.len() != resolved.len() {
        let head = with_number(owned("runtime resolved "), resolved.len(), " packages for ");
        let body = with_number(head, desired.len(), " desired sources");
        return Err(ActorError::new(ErrorCode::Internal, body));
    }
    let n = desired.len();
    let mut pinned: Vec<RemotePackageSource> = Vec::new();
    let mut changed = false;
    let mut i: usize = 0;
    while i < n
        invariant
            n == desired@.len(),
            n == resolved@.len(),
            i <= n,
            forall|j: int| 0 <= j < i ==> #[trigger] desired@[j].url@ == resolved@[j].url@,
            pinned@.len() == i,
            forall|j: int| 0 <= j < i ==> source_view(#[trigger] pinned@[j]) == pinned_view(desired@[j].url@, resolved@[j].installed),
            changed == exists|j: int| 0 <= j < i
                && #[trigger] source_view(desired@[j]) != pinned_view(desired@[j].url@, resolved@[j].installed),
        decreases n - i,
    {
        let source = &desired[i];
        let target = &resolved[i];
        if source.url != target.url {
            proof {
                assert(!urls_line_up(desired@, resolved@)) by {
                    assert(desired@[i as int].url@ != resolved@[i as int].url@);
                }
            }
            return Err(ActorError::new(ErrorCode::Internal, owned("runtime package resolution order does not match desired software")));
        }
        let next = RemotePackageSource::resolved(source.url.clone(), &target.installed);
        let same = source.url == next.url
            && match (&source.digest, &next.digest) {
                (Some(a), Some(b)) => *a == *b,
                (None, None) => true,
                _ => false,
            }
            && source.size == next.size
            && match (&source.package_id, &next.package_id) {
                (Some(a), Some(b)) => *a == *b,
                (None, None) => true,
                _ => false,
            };
        assert(same == (source_view(*source) == source_view(next)));
        if !same {
            changed = true;
        }
        pinned.push(next);
        i += 1;
    }
    Ok((pinned, changed))
}

// ---------------------------------------------------------------------------
// Software mutations
// ---------------------------------------------------------------------------

/// The result of a software mutation: the package the VM installed or
/// removed, when it reported one, its source, and the configuration after.
#[derive(Debug, Clone)]
pub struct SoftwareMutationResult {
    pub software: Option<ActorInstalledSoftware>,
    pub source: RemotePackageSource,
    pub config: ConfigSnapshot,
}

/// Whether source `s` names the package `package_id`.
pub open spec fn names_package(s: RemotePackageSource, package_id: Seq<char>) -> bool {
    opt_view(s.package_id) == Some(package_id)
}

/// The first position, from `from` on, of a source that names `package_id`.
pub open spec fn package_index(software: Seq<RemotePackageSource>, package_id: Seq<char>, from: int) -> Option<int>
    decreases software.len() - from,
{
    if from < 0 || from >= software.len() {
        None
    } else if names_package(software[from], package_id) {
        Some(from)
    } else {
        package_index(software, package_id, from + 1)
    }
}

/// `next` is `desired` with its software replaced by `software`.
pub open spec fn with_software(next: AgentOsActorConfig, desired: AgentOsActorConfig, software: Seq<RemotePackageSource>) -> bool {
    &&& next.environment == desired.environment
    &&& next.allowed_node_builtins == desired.allowed_node_builtins
    &&& next.high_resolution_time == desired.high_resolution_time
    &&& next.loopback_exempt_ports == desired.loopback_exempt_ports
    &&& next.permissions == desired.permissions
    &&& next.filesystem == desired.filesystem
    &&& next.preview == desired.preview
    &&& next.software@ == software
}

proof fn lemma_package_index_absent(software: Seq<RemotePackageSource>, package_id: Seq<char>, from: int)
    requires
        0 <= from <= software.len(),
        forall|k: int| from <= k < software.len() ==> !names_package(#[trigger] software[k], package_id),
    ensures
        package_index(software, package_id, from) is None,
    decreases software.len() - from,
{
    if from < software.len() {
        lemma_package_index_absent(software, package_id, from + 1);
    }
}

proof fn lemma_package_index_found(software: Seq<RemotePackageSource>, package_id: Seq<char>, from: int, i: int)
    requires
        0 <= from <= i < software.len(),
        names_package(software[i], package_id),
        forall|k: int| from <= k < i ==> !names_package(#[trigger] software[k], package_id),
    ensures
        package_index(software, package_id, from) == Some(i),
    decreases i - from,
{
    if from < i {
        lemma_package_index_found(software, package_id, from + 1, i);
    }
}

proof fn lemma_package_index_none(software: Seq<RemotePackageSource>, package_id: Seq<char>, from: int)
    requires
        0 <= from <= software.len(),
        package_index(software, package_id, from) is None,
    ensures
        forall|k: int| from <= k < software.len() ==> !names_package(#[trigger] software[k], package_id),
    decreases software.len() - from,
{
    if from < software.len() {
        lemma_package_index_none(software, package_id, from + 1);
    }
}

/// Installing a package that is not desired yet and then uninstalling it
/// gives back the software it started from: the installed source is found
/// last and removing it restores the list.
pub proof fn lemma_install_then_uninstall_restores(desired: AgentOsActorConfig, resolved: RemotePackageSource, package_id: Seq<char>)
    requires
        names_package(resolved, package_id),
        install_spec(desired, resolved, package_id) is Ok,
        install_spec(desired, resolved, package_id) != Ok::<Option<Seq<RemotePackageSource>>, Fault>(None),
    ensures
        install_spec(desired, resolved, package_id) == Ok::<Option<Seq<RemotePackageSource>>, Fault>(Some(desired.software@.push(resolved))),
        package_index(desired.software@.push(resolved), package_id, 0) == Some(desired.software@.len() as int),
        desired.software@.push(resolved).remove(desired.software@.len() as int) == desired.software@,
{
    let s = desired.software@;
    let t = s.push(resolved);
    lemma_package_index_none(s, package_id, 0);
    assert forall|k: int| 0 <= k < s.len() implies !names_package(#[trigger] t[k], package_id) by {
        assert(t[k] == s[k]);
    }
    lemma_package_index_found(t, package_id, 0, s.len() as int);
    assert(t.remove(s.len() as int) =~= s);
}

fn source_names(source: &RemotePackageSource, package_id: &str) -> (b: bool)
    ensures
        b == names_package(*source, package_id@),
{
    match &source.package_id {
        Some(p) => str_equals(p.as_str(), package_id),
        None => false,
    }
}

fn find_package(software: &Vec<RemotePackageSource>, package_id: &str) -> (r: Option<usize>)
    ensures
        match r {
            Some(i) => i < software@.len() && package_index(software@, package_id@, 0) == Some(i as int),
            None => package_index(software@, package_id@, 0) is None,
        },
{
    let n = software.len();
    let mut i: usize = 0;
    while i < n
        invariant
            n == software@.len(),
            i <= n,
            forall|k: int| 0 <= k < i ==> !names_package(#[trigger] software@[k], package_id@),
        decreases n - i,
    {
        if source_names(&software[i], package_id) {
            proof {
                lemma_package_index_found(software@, package_id@, 0, i as int);
            }
            return Some(i);
        }
        i += 1;
    }
    proof {
        lemma_package_index_absent(software@, package_id@, 0);
    }
    None
}

/// The desired configuration after installing a package, or `None` when the
/// package is already desired and nothing changes.
pub open spec fn install_spec(desired: AgentOsActorConfig, resolved: RemotePackageSource, package_id: Seq<char>) -> Result<Option<Seq<RemotePackageSource>>, Fault> {
    let software = desired.software@;
    if package_index(software, package_id, 0) is Some {
        Ok(None)
    } else if software.len() >= MAX_REMOTE_SOFTWARE {
        Err(fault(ErrorCode::LimitExceeded, "software has "@ + decimal(software.len()) + " entries; maximum is 128; uninstall a package before adding another"@))
    } else {
        Ok(Some(software.push(resolved)))
    }
}

/// Plans the installation of the package `package_id`, resolved to
/// `resolved`, into `desired`: `None` when it is already desired, the
/// desired configuration with the source appended when there is room, and a
/// limit error otherwise.
pub fn plan_software_install(desired: AgentOsActorConfig, resolved: RemotePackageSource, package_id: &str) -> (r: Result<Option<AgentOsActorConfig>, ActorError>)
    ensures
        match (r, install_spec(desired, resolved, package_id@)) {
            (Ok(None), Ok(None)) => true,
            (Ok(Some(next)), Ok(Some(software))) => with_software(next, desired, software),
            (Err(e), Err(f)) => e@ == f,
            _ => false,
        },
{
    if find_package(&desired.software, package_id).is_some() {
        return Ok(None);
    }
    let n = desired.software.len();
    if n >= MAX_REMOTE_SOFTWARE {
        let body = with_number(owned("software has "), n, " entries; maximum is 128; uninstall a package before adding another");
        return Err(ActorError::new(ErrorCode::LimitExceeded, body));
    }
    let mut next = desired;
    next.software.push(resolved);
    Ok(Some(next))
}

/// Plans the removal of the package `package_id` from `desired`: the first
/// source naming it and the desired configuration without it, or a
/// not-found error.
pub fn plan_software_uninstall(desired: AgentOsActorConfig, package_id: &str) -> (r: Result<(RemotePackageSource, AgentOsActorConfig), ActorError>)
    ensures
        match package_index(desired.software@, package_id@, 0) {
            None => r matches Err(e) && e@ == (ErrorCode::NotFound, "software_not_found: "@ + package_id@),
            Some(i) => r matches Ok((source, next)) && source == desired.software@[i]
                && with_software(next, desired, desired.software@.remove(i)),
        },
{
    match find_package(&desired.software, package_id) {
        None => Err(ActorError { code: ErrorCode::NotFound, message: appended(owned("software_not_found: "), package_id) }),
        Some(index) => {
            let mut next = desired;
            let source = next.software.remove(index);
            Ok((source, next))
        },
    }
}

/// The error of a software mutation whose commit failed after the VM had
/// applied it live: the commit's failure under `context`, with the failure of
/// the VM rollback, if it failed too, named in front of it.
pub fn software_commit_failure(context: &str, error: ActorError, rollback: Result<(), ActorError>) -> (e: ActorError)
    ensures
        e.code == error.code,
        match rollback {
            Ok(()) => e.message@ == context@ + ": "@ + error.message@,
            Err(rb) => e.message@ == context@ + "; Core rollback also failed: "@ + rb.message@ + ": "@ + error.message@,
        },
{
    match rollback {
        Ok(()) => {
            let message = with_text(owned(context), ": ", error.message.as_str());
            ActorError { code: error.code, message }
        },
        Err(rb) => {
            let head = with_text(owned(context), "; Core rollback also failed: ", rb.message.as_str());
            let message = with_text(head, ": ", error.message.as_str());
            ActorError { code: error.code, message }
        },
    }
}

} // verus!
