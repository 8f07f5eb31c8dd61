//! Configuration revisions: how a replacement configuration moves the
//! revision, the applied revision and the apply state.
use vstd::prelude::*;

pub use crate::contract::lifecycle::{ConfigGet, ConfigPatch, ConfigSet, VmRestart, VmStatus};
use crate::contract::config::AgentOsActorConfig;
use crate::contract::events::VmBooted;
use crate::contract::lifecycle::{AgentOsActorState, ConfigApplyState, ConfigSnapshot, VmLifecycleState, VmStatusSnapshot};
use crate::error::{fault, ActorError, ErrorCode, Fault};
use crate::text::owned;

verus! {

/// How a configuration change is committed.
#[derive(Debug, Clone, Copy, PartialEq, Eq, Structural)]
pub enum ConfigCommitMode {
    /// Classify the change: a Core change needs a VM restart.
    Classify,
    /// The changed field has already been applied live; earlier pending
    /// configuration still requires its own restart.
    Live,
}

/// The revision bookkeeping of a configuration snapshot.
#[derive(Debug, Clone, Copy, PartialEq, Eq, Structural)]
pub struct ConfigRevisionState {
    pub revision: u64,
    pub applied_revision: Option<u64>,
    pub status: ConfigApplyState,
}

/// The bookkeeping after replacing the desired configuration, and whether the
/// recorded issues are kept: a Core change needs a restart and clears them;
/// otherwise a configuration the runtime had applied stays applied at the new
/// revision, and anything else keeps its state.
pub open spec fn replacement(current: ConfigRevisionState, core_changed: bool) -> Result<(ConfigRevisionState, bool), Fault> {
    if current.revision == u64::MAX {
        Err(fault(ErrorCode::Internal, "actor config revision overflow"@))
    } else {
        let revision = (current.revision + 1) as u64;
        let was_applied = current.applied_revision == Some(current.revision) && current.status == ConfigApplyState::Ready;
        Ok((ConfigRevisionState {
            revision,
            applied_revision: if core_changed { current.applied_revision } else if was_applied { Some(revision) } else { current.applied_revision },
            status: if core_changed { ConfigApplyState::RestartRequired } else if was_applied { ConfigApplyState::Ready } else { current.status },
        }, !core_changed))
    }
}

/// Whether a change counts as a Core change: only a classified one that
/// changed the Core runtime configuration.
pub fn core_changed(mode: ConfigCommitMode, core_runtime_equal: bool) -> (b: bool)
    ensures
        b == (mode == ConfigCommitMode::Classify && !core_runtime_equal),
{
    mode == ConfigCommitMode::Classify && !core_runtime_equal
}

/// The revision bookkeeping of a snapshot.
pub open spec fn bookkeeping(s: ConfigSnapshot) -> ConfigRevisionState {
    ConfigRevisionState { revision: s.revision, applied_revision: s.applied_revision, status: s.status }
}

/// `next` replaces `current` with `desired` at `updated_at_ms`: the
/// bookkeeping of `replacement`, the issues kept or cleared as it says, and
/// the creation time kept.
pub open spec fn replaces(next: ConfigSnapshot, current: ConfigSnapshot, desired: AgentOsActorConfig, core_changed: bool, updated_at_ms: i64) -> bool {
    &&& replacement(bookkeeping(current), core_changed) == Ok::<(ConfigRevisionState, bool), Fault>((bookkeeping(next), !core_changed))
    &&& next.desired == desired
    &&& next.issues@ == if core_changed { Seq::<crate::contract::lifecycle::VmIssue>::empty() } else { current.issues@ }
    &&& next.created_at_ms == current.created_at_ms
    &&& next.updated_at_ms == updated_at_ms
}

/// The snapshot that replaces `current` with `desired`, updated at
/// `updated_at_ms`; `core_changed` says whether the change needs a VM
/// restart.
pub fn replacement_snapshot_classified(current: ConfigSnapshot, desired: AgentOsActorConfig, core_changed: bool, updated_at_ms: i64) -> (r: Result<ConfigSnapshot, ActorError>)
    ensures
        match r {
            Ok(next) => replaces(next, current, desired, core_changed, updated_at_ms),
            Err(e) => replacement(bookkeeping(current), core_changed) == Err::<(ConfigRevisionState, bool), Fault>(e@),
        },
{
    let revision = match current.revision.checked_add(1) {
        Some(r) => r,
        None => {
            return Err(ActorError::new(ErrorCode::Internal, owned("actor config revision overflow")));
        },
    };
    let was_applied = match current.applied_revision {
        Some(a) => a == current.revision,
        None => false,
    } && current.status == ConfigApplyState::Ready;
    let applied_revision = if core_changed {
        current.applied_revision
    } else if was_applied {
        Some(revision)
    } else {
        current.applied_revision
    };
    let status = if core_changed {
        ConfigApplyState::RestartRequired
    } else if was_applied {
        ConfigApplyState::Ready
    } else {
        current.status
    };
    let issues = if core_changed { Vec::new() } else { current.issues };
    Ok(ConfigSnapshot {
        revision,
        desired,
        applied_revision,
        status,
        issues,
        created_at_ms: current.created_at_ms,
        updated_at_ms,
    })
}

/// The snapshot that replaces `current` with `desired` under `mode`;
/// `core_runtime_equal` says whether both configurations give the Core
/// runtime the same configuration.
pub fn replacement_snapshot(current: ConfigSnapshot, desired: AgentOsActorConfig, mode: ConfigCommitMode, core_runtime_equal: bool, updated_at_ms: i64) -> (r: Result<ConfigSnapshot, ActorError>)
    ensures
        match r {
            Ok(next) => replaces(next, current, desired, mode == ConfigCommitMode::Classify && !core_runtime_equal, updated_at_ms),
            Err(e) => replacement(bookkeeping(current), mode == ConfigCommitMode::Classify && !core_runtime_equal) == Err::<(ConfigRevisionState, bool), Fault>(e@),
        },
{
    let changed = core_changed(mode, core_runtime_equal);
    replacement_snapshot_classified(current, desired, changed, updated_at_ms)
}

/// Every replacement moves the revision forward by one, and a Core change is
/// never reported ready.
pub proof fn lemma_replacement_is_monotonic(current: ConfigRevisionState, core_changed: bool)
    requires
        current.revision < u64::MAX,
    ensures
        replacement(current, core_changed) matches Ok((next, _)) && next.revision == current.revision + 1,
        core_changed ==> (replacement(current, core_changed) matches Ok((next, keep)) && next.status == ConfigApplyState::RestartRequired && !keep),
{
}

/// The bookkeeping after the runtime reports the outcome of a boot: the
/// revision it applied, and ready exactly when the VM is ready.
pub open spec fn after_runtime_result(current: ConfigRevisionState, lifecycle: VmLifecycleState, applied: Option<u64>) -> ConfigRevisionState {
    ConfigRevisionState {
        revision: current.revision,
        applied_revision: applied,
        status: if lifecycle == VmLifecycleState::Ready { ConfigApplyState::Ready } else { ConfigApplyState::Failed },
    }
}

/// Records the outcome of a boot, as the runtime reports it in `status`, in
/// the snapshot at `updated_at_ms`: the applied revision, the apply state of
/// `after_runtime_result` and the runtime's issues.
pub fn mark_runtime_result(snapshot: &mut ConfigSnapshot, status: VmStatusSnapshot, updated_at_ms: i64)
    ensures
        bookkeeping(*final(snapshot)) == after_runtime_result(bookkeeping(*old(snapshot)), status.lifecycle, status.applied_config_revision),
        final(snapshot).issues == status.issues,
        final(snapshot).desired == old(snapshot).desired,
        final(snapshot).created_at_ms == old(snapshot).created_at_ms,
        final(snapshot).updated_at_ms == updated_at_ms,
{
    snapshot.applied_revision = status.applied_config_revision;
    snapshot.status = if status.lifecycle == VmLifecycleState::Ready { ConfigApplyState::Ready } else { ConfigApplyState::Failed };
    snapshot.issues = status.issues;
    snapshot.updated_at_ms = updated_at_ms;
}

/// The event an actor announces when it starts: `VmBooted` for a ready VM,
/// nothing otherwise; a ready VM must know its applied revision and boot time.
pub fn started_event(status: &VmStatusSnapshot) -> (r: Result<Option<VmBooted>, ActorError>)
    ensures
        status.lifecycle != VmLifecycleState::Ready ==> r == Ok::<Option<VmBooted>, ActorError>(None),
        status.lifecycle == VmLifecycleState::Ready ==> match (status.applied_config_revision, status.last_boot_at_ms) {
            (None, _) => r matches Err(e) && e@ == fault(ErrorCode::Internal, "ready runtime has no applied config revision"@),
            (Some(_), None) => r matches Err(e) && e@ == fault(ErrorCode::Internal, "ready runtime has no boot timestamp"@),
            (Some(revision), Some(at)) => r == Ok::<Option<VmBooted>, ActorError>(Some(VmBooted {
                generation: status.generation,
                config_revision: revision,
                booted_at_ms: at,
            })),
        },
{
    if status.lifecycle != VmLifecycleState::Ready {
        return Ok(None);
    }
    let config_revision = match status.applied_config_revision {
        Some(r) => r,
        None => return Err(ActorError::new(ErrorCode::Internal, owned("ready runtime has no applied config revision"))),
    };
    let booted_at_ms = match status.last_boot_at_ms {
        Some(t) => t,
        None => return Err(ActorError::new(ErrorCode::Internal, owned("ready runtime has no boot timestamp"))),
    };
    Ok(Some(VmBooted { generation: status.generation, config_revision, booted_at_ms }))
}

/// Whether a committed snapshot is applied: the runtime then records the
/// revision as applied, otherwise only as desired.
pub fn commit_is_applied(next: &ConfigSnapshot) -> (b: bool)
    ensures
        b == (next.applied_revision == Some(next.revision)),
{
    match next.applied_revision {
        Some(a) => a == next.revision,
        None => false,
    }
}

/// The state of a newly created actor: its normalized configuration desired
/// at revision 1, nothing applied yet, no issues, created and updated at
/// `now_ms`.
pub fn initial_state(desired: AgentOsActorConfig, now_ms: i64) -> (s: AgentOsActorState)
    ensures
        s.config.revision == 1,
        s.config.desired == desired,
        s.config.applied_revision is None,
        s.config.status == ConfigApplyState::Applying,
        s.config.issues@.len() == 0,
        s.config.created_at_ms == now_ms,
        s.config.updated_at_ms == now_ms,
{
    AgentOsActorState {
        config: ConfigSnapshot {
            revision: 1,
            desired,
            applied_revision: None,
            status: ConfigApplyState::Applying,
            issues: Vec::new(),
            created_at_ms: now_ms,
            updated_at_ms: now_ms,
        },
    }
}

} // verus!
