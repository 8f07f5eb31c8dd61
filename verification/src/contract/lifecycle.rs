//! VM lifecycle and configuration state as actors report them.
use vstd::prelude::*;

use crate::contract::config::{AgentOsActorConfig, AgentOsActorConfigInput};
use crate::contract::merge_patch::JsonValue;
use crate::error::{fault, ActorError, ErrorCode, Fault};
use crate::text::{debug_quoted, debug_text, owned, str_equals, with_text};

verus! {

/// How far the desired configuration has been applied.
#[derive(Debug, Clone, Copy, PartialEq, Eq, Structural)]
pub enum ConfigApplyState {
    Applying,
    Ready,
    RestartRequired,
    Failed,
}

/// The wire name of each apply state.
pub open spec fn apply_state_name(s: ConfigApplyState) -> Seq<char> {
    match s {
        ConfigApplyState::Applying => "applying"@,
        ConfigApplyState::Ready => "ready"@,
        ConfigApplyState::RestartRequired => "restart_required"@,
        ConfigApplyState::Failed => "failed"@,
    }
}

/// The apply state a wire name stands for, or why it stands for none.
pub open spec fn parse_apply_state(value: Seq<char>) -> Result<ConfigApplyState, Fault> {
    if value == "applying"@ {
        Ok(ConfigApplyState::Applying)
    } else if value == "ready"@ {
        Ok(ConfigApplyState::Ready)
    } else if value == "restart_required"@ {
        Ok(ConfigApplyState::RestartRequired)
    } else if value == "failed"@ {
        Ok(ConfigApplyState::Failed)
    } else {
        Err(fault(ErrorCode::Internal, "invalid actor config apply state "@ + debug_text(value)))
    }
}

impl ConfigApplyState {
    /// The wire name.
    pub fn as_str(self) -> (s: &'static str)
        ensures
            s@ == apply_state_name(self),
    {
        match self {
            ConfigApplyState::Applying => "applying",
            ConfigApplyState::Ready => "ready",
            ConfigApplyState::RestartRequired => "restart_required",
            ConfigApplyState::Failed => "failed",
        }
    }

    /// The apply state a wire name stands for.
    pub fn from_str(value: &str) -> (r: Result<ConfigApplyState, ActorError>)
        ensures
            match r {
                Ok(s) => parse_apply_state(value@) == Ok::<ConfigApplyState, Fault>(s),
                Err(e) => parse_apply_state(value@) == Err::<ConfigApplyState, Fault>(e@),
            },
    {
        if str_equals(value, "applying") {
            Ok(ConfigApplyState::Applying)
        } else if str_equals(value, "ready") {
            Ok(ConfigApplyState::Ready)
        } else if str_equals(value, "restart_required") {
            Ok(ConfigApplyState::RestartRequired)
        } else if str_equals(value, "failed") {
            Ok(ConfigApplyState::Failed)
        } else {
            let body = with_text(owned("invalid actor config apply state "), debug_quoted(value).as_str(), "");
            proof {
                reveal_strlit("");
                assert(body@ =~= "invalid actor config apply state "@ + debug_text(value@));
            }
            Err(ActorError::new(ErrorCode::Internal, body))
        }
    }
}

/// Every state's wire name parses back to it.
pub proof fn lemma_apply_state_round_trip(s: ConfigApplyState)
    ensures
        parse_apply_state(apply_state_name(s)) == Ok::<ConfigApplyState, Fault>(s),
{
    reveal_strlit("applying");
    reveal_strlit("ready");
    reveal_strlit("restart_required");
    reveal_strlit("failed");
    assert("ready"@ != "applying"@ && "restart_required"@ != "applying"@ && "failed"@ != "applying"@) by {
        assert("ready"@[0] != "applying"@[0]);
        assert("restart_required"@[0] != "applying"@[0]);
        assert("failed"@[0] != "applying"@[0]);
    }
    assert("restart_required"@ != "ready"@ && "failed"@ != "ready"@) by {
        assert("restart_required"@[2] != "ready"@[2]);
        assert("failed"@[0] != "ready"@[0]);
    }
    assert("failed"@ != "restart_required"@) by {
        assert("failed"@[0] != "restart_required"@[0]);
    }
}

/// Where the VM is in its lifecycle.
#[derive(Debug, Clone, Copy, PartialEq, Eq, Structural)]
pub enum VmLifecycleState {
    Initializing,
    Preloading,
    Booting,
    Ready,
    Degraded,
    Stopping,
    Failed,
}

/// A problem the runtime recorded: a stable code, a message and when.
#[derive(Debug, Clone, PartialEq, Eq)]
pub struct VmIssue {
    pub code: String,
    pub message: String,
    pub at_ms: i64,
}

/// How far required and optional packages have come at startup.
#[derive(Debug, Clone, Copy, PartialEq, Eq, Structural)]
pub struct PackageStartupStatus {
    pub required_total: u32,
    pub required_ready: u32,
    pub optional_preload_total: u32,
    pub optional_preload_ready: u32,
    pub optional_preload_failed: u32,
    pub optional_preload_skipped: u32,
    pub optional_preload_warmed_bytes: u64,
    pub optional_preload_deadline_hit: bool,
    pub optional_preload_coordinator_available: bool,
}

/// The Core sidecar behind the VM: its state and how many VMs it runs.
#[derive(Debug, Clone, PartialEq, Eq)]
pub struct CoreSidecarStatus {
    pub state: String,
    pub active_vm_count: u32,
}

/// What `vm.status` reports.
#[derive(Debug, Clone, PartialEq, Eq)]
pub struct VmStatusSnapshot {
    pub lifecycle: VmLifecycleState,
    pub config_state: ConfigApplyState,
    pub desired_config_revision: u64,
    pub applied_config_revision: Option<u64>,
    pub generation: u64,
    pub last_boot_at_ms: Option<i64>,
    pub last_shutdown_at_ms: Option<i64>,
    pub packages: PackageStartupStatus,
    pub issues: Vec<VmIssue>,
    pub core: Option<CoreSidecarStatus>,
}

/// The desired configuration at a revision, and how far it has been applied.
#[derive(Debug, Clone)]
pub struct ConfigSnapshot {
    pub revision: u64,
    pub desired: AgentOsActorConfig,
    pub applied_revision: Option<u64>,
    pub status: ConfigApplyState,
    pub issues: Vec<VmIssue>,
    pub created_at_ms: i64,
    pub updated_at_ms: i64,
}

/// The durable state of an actor: its configuration snapshot.
#[derive(Debug, Clone)]
pub struct AgentOsActorState {
    pub config: ConfigSnapshot,
}

/// What an actor is created with: an optional initial configuration.
#[derive(Debug, Clone)]
pub struct AgentOsActorCreateInput {
    pub config: Option<AgentOsActorConfigInput>,
}

/// The `config.set` action: replace the configuration, optionally only at
/// the expected revision.
#[derive(Debug, Clone)]
pub struct ConfigSet {
    pub config: AgentOsActorConfigInput,
    pub expected_revision: Option<u64>,
}

/// The `config.patch` action: apply a JSON merge patch to the configuration,
/// optionally only at the expected revision.
#[derive(Debug)]
pub struct ConfigPatch {
    pub patch: JsonValue,
    pub expected_revision: Option<u64>,
}

/// The `config.get` action; it takes no input.
#[derive(Debug, Clone, Copy, PartialEq, Eq, Structural)]
pub struct ConfigGet {}

/// The `vm.status` action; it takes no input.
#[derive(Debug, Clone, Copy, PartialEq, Eq, Structural)]
pub struct VmStatus {}

/// The `vm.restart` action; it takes no input.
#[derive(Debug, Clone, Copy, PartialEq, Eq, Structural)]
pub struct VmRestart {}

/// The apply state a lifecycle reports: failures are failed, transitions are
/// applying, and a ready VM is ready only when it runs the desired revision.
pub open spec fn config_state_of(lifecycle: VmLifecycleState, applied: Option<u64>, desired: u64) -> ConfigApplyState {
    match lifecycle {
        VmLifecycleState::Failed | VmLifecycleState::Degraded => ConfigApplyState::Failed,
        VmLifecycleState::Initializing | VmLifecycleState::Preloading | VmLifecycleState::Booting
        | VmLifecycleState::Stopping => ConfigApplyState::Applying,
        VmLifecycleState::Ready => if applied != Some(desired) {
            ConfigApplyState::RestartRequired
        } else {
            ConfigApplyState::Ready
        },
    }
}

/// The configuration apply state follows the lifecycle: it is failed exactly
/// when the runtime failed or is degraded, applying exactly while the VM is
/// initializing, preloading, booting or stopping, and a ready runtime is
/// ready exactly when the desired revision is the one applied (otherwise a
/// restart is required).
pub proof fn lemma_apply_state_follows_lifecycle(lifecycle: VmLifecycleState, applied: Option<u64>, desired: u64)
    ensures
        (config_state_of(lifecycle, applied, desired) == ConfigApplyState::Failed)
            <==> (lifecycle == VmLifecycleState::Failed || lifecycle == VmLifecycleState::Degraded),
        (config_state_of(lifecycle, applied, desired) == ConfigApplyState::Applying)
            <==> (lifecycle == VmLifecycleState::Initializing || lifecycle == VmLifecycleState::Preloading
                || lifecycle == VmLifecycleState::Booting || lifecycle == VmLifecycleState::Stopping),
        (config_state_of(lifecycle, applied, desired) == ConfigApplyState::Ready)
            <==> (lifecycle == VmLifecycleState::Ready && applied == Some(desired)),
        (config_state_of(lifecycle, applied, desired) == ConfigApplyState::RestartRequired)
            <==> (lifecycle == VmLifecycleState::Ready && applied != Some(desired)),
{
}

/// The apply state a lifecycle reports.
pub fn config_state(lifecycle: VmLifecycleState, applied: Option<u64>, desired: u64) -> (s: ConfigApplyState)
    ensures
        s == config_state_of(lifecycle, applied, desired),
{
    match lifecycle {
        VmLifecycleState::Failed | VmLifecycleState::Degraded => ConfigApplyState::Failed,
        VmLifecycleState::Initializing | VmLifecycleState::Preloading | VmLifecycleState::Booting
        | VmLifecycleState::Stopping => ConfigApplyState::Applying,
        VmLifecycleState::Ready => {
            let current = match applied {
                Some(a) => a == desired,
                None => false,
            };
            if current {
                ConfigApplyState::Ready
            } else {
                ConfigApplyState::RestartRequired
            }
        },
    }
}

/// The configuration is reported ready exactly when the VM is ready and runs
/// the desired revision.
pub proof fn lemma_ready_means_current(lifecycle: VmLifecycleState, applied: Option<u64>, desired: u64)
    ensures
        (config_state_of(lifecycle, applied, desired) == ConfigApplyState::Ready)
            <==> (lifecycle == VmLifecycleState::Ready && applied == Some(desired)),
{
}

} // verus!
