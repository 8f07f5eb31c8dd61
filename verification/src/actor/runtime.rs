//! The actor's VM runtime as a state machine. The runtime boots and stops a
//! Core VM; each step below is the decision taken when one of those outside
//! operations starts or ends, applied to the runtime's state.
use vstd::prelude::*;

pub use crate::contract::lifecycle::{
    config_state, config_state_of, ConfigApplyState, CoreSidecarStatus, PackageStartupStatus, VmIssue,
    VmLifecycleState, VmStatusSnapshot,
};
use crate::actor::software::ActorInstalledSoftware;
use crate::error::{fault, ActorError, ErrorCode, Fault};
use crate::plugin::health::{last_items, push_capped};
use crate::text::{appended, decimal, owned, str_equals, u64_text, with_text};

verus! {

/// At most this many issues are kept; older ones are dropped.
pub const MAX_RUNTIME_ISSUES: usize = 32;
/// Milliseconds the runtime allows for VM creation and required packages.
pub const INITIALIZATION_TIMEOUT_MS: u64 = 30_000;
/// Milliseconds the runtime allows for VM shutdown.
pub const SHUTDOWN_TIMEOUT_MS: u64 = 10_000;

/// A required package the running VM has installed, under the URL it came from.
#[derive(Debug, Clone)]
pub struct ResolvedSoftware {
    pub url: String,
    pub installed: ActorInstalledSoftware,
}

/// The runtime's state. `vm_present` says whether the runtime holds a Core VM.
pub struct RuntimeState {
    pub lifecycle: VmLifecycleState,
    pub desired_config_revision: u64,
    pub applied_config_revision: Option<u64>,
    pub generation: u64,
    pub last_boot_at_ms: Option<i64>,
    pub last_shutdown_at_ms: Option<i64>,
    pub packages: PackageStartupStatus,
    pub issues: Vec<VmIssue>,
    pub resolved_software: Vec<ResolvedSoftware>,
    pub vm_present: bool,
}

/// The runtime's state, mathematically: every field, with the issues and the
/// resolved packages as sequences.
pub struct RuntimeView {
    pub lifecycle: VmLifecycleState,
    pub desired_config_revision: u64,
    pub applied_config_revision: Option<u64>,
    pub generation: u64,
    pub last_boot_at_ms: Option<i64>,
    pub last_shutdown_at_ms: Option<i64>,
    pub packages: PackageStartupStatus,
    pub issues: Seq<VmIssue>,
    pub resolved_software: Seq<ResolvedSoftware>,
    pub vm_present: bool,
}

impl View for RuntimeState {
    type V = RuntimeView;

    open spec fn view(&self) -> RuntimeView {
        RuntimeView {
            lifecycle: self.lifecycle,
            desired_config_revision: self.desired_config_revision,
            applied_config_revision: self.applied_config_revision,
            generation: self.generation,
            last_boot_at_ms: self.last_boot_at_ms,
            last_shutdown_at_ms: self.last_shutdown_at_ms,
            packages: self.packages,
            issues: self.issues@,
            resolved_software: self.resolved_software@,
            vm_present: self.vm_present,
        }
    }
}

/// A boot starts: the runtime boots `revision` under `generation`; when the
/// required package count fits in `u32` it is recorded, with none ready and no
/// package resolved.
pub open spec fn after_begin_boot(v: RuntimeView, revision: u64, generation: u64, required_total: nat) -> RuntimeView {
    if required_total > u32::MAX {
        RuntimeView { lifecycle: VmLifecycleState::Booting, desired_config_revision: revision, generation, ..v }
    } else {
        RuntimeView {
            lifecycle: VmLifecycleState::Booting,
            desired_config_revision: revision,
            generation,
            packages: PackageStartupStatus { required_total: required_total as u32, required_ready: 0, ..v.packages },
            resolved_software: Seq::empty(),
            ..v
        }
    }
}

/// Core created the VM: the runtime holds it and preloads packages.
pub open spec fn after_vm_created(v: RuntimeView) -> RuntimeView {
    RuntimeView { lifecycle: VmLifecycleState::Preloading, vm_present: true, ..v }
}

/// One required package is installed; at the top of the counter nothing changes.
pub open spec fn after_package_ready(v: RuntimeView, resolved: ResolvedSoftware) -> RuntimeView {
    if v.packages.required_ready == u32::MAX {
        v
    } else {
        RuntimeView {
            packages: PackageStartupStatus { required_ready: (v.packages.required_ready + 1) as u32, ..v.packages },
            resolved_software: v.resolved_software.push(resolved),
            ..v
        }
    }
}

/// The required packages are installed, in order.
pub open spec fn after_packages_ready(v: RuntimeView, resolved: Seq<ResolvedSoftware>) -> RuntimeView
    decreases resolved.len(),
{
    if resolved.len() == 0 {
        v
    } else {
        after_package_ready(after_packages_ready(v, resolved.drop_last()), resolved.last())
    }
}

/// The boot finished: the VM is ready and runs `revision`, booted at `booted_at_ms`.
pub open spec fn after_boot_succeeded(v: RuntimeView, revision: u64, booted_at_ms: i64) -> RuntimeView {
    RuntimeView {
        lifecycle: VmLifecycleState::Ready,
        applied_config_revision: Some(revision),
        last_boot_at_ms: Some(booted_at_ms),
        ..v
    }
}

/// An issue with this code, message and time.
pub open spec fn is_issue(i: VmIssue, code: Seq<char>, message: Seq<char>, at_ms: i64) -> bool {
    i.code@ == code && i.message@ == message && i.at_ms == at_ms
}

/// `after` is `before` with one issue recorded (code, message, time), the
/// oldest dropped past the cap.
pub open spec fn issue_added(before: Seq<VmIssue>, after: Seq<VmIssue>, code: Seq<char>, message: Seq<char>, at_ms: i64) -> bool {
    exists|i: VmIssue| is_issue(i, code, message, at_ms) && after == #[trigger] last_items(before.push(i), MAX_RUNTIME_ISSUES as nat)
}

/// A stop starts: with a VM, the runtime gives it up, with its resolved
/// packages and their readiness; without one nothing changes.
pub open spec fn after_begin_stop(v: RuntimeView) -> RuntimeView {
    if v.vm_present {
        RuntimeView {
            lifecycle: VmLifecycleState::Stopping,
            vm_present: false,
            resolved_software: Seq::empty(),
            packages: PackageStartupStatus { required_ready: 0, ..v.packages },
            ..v
        }
    } else {
        v
    }
}

/// The VM shut down at `at_ms`: nothing runs and no revision is applied.
pub open spec fn after_stop_succeeded(v: RuntimeView, at_ms: i64) -> RuntimeView {
    RuntimeView {
        lifecycle: VmLifecycleState::Initializing,
        applied_config_revision: None,
        last_shutdown_at_ms: Some(at_ms),
        ..v
    }
}

/// The VM did not shut down: the runtime keeps it, degraded, and records
/// the issue.
pub open spec fn stop_failed_into(v: RuntimeView, code: Seq<char>, message: Seq<char>, at_ms: i64, w: RuntimeView) -> bool {
    &&& w == (RuntimeView { lifecycle: VmLifecycleState::Degraded, vm_present: true, issues: w.issues, ..v })
    &&& issue_added(v.issues, w.issues, code, message, at_ms)
}

/// A boot failed with `code` and `message` after a cleanup that did or did
/// not succeed: failed, or degraded, with the issue recorded.
pub open spec fn boot_failed_into(v: RuntimeView, code: Seq<char>, message: Seq<char>, cleanup_ok: bool, at_ms: i64, w: RuntimeView) -> bool {
    &&& w == (RuntimeView {
        lifecycle: if cleanup_ok { VmLifecycleState::Failed } else { VmLifecycleState::Degraded },
        issues: w.issues,
        ..v
    })
    &&& issue_added(v.issues, w.issues, code, message, at_ms)
}

/// The status of a package set that has not started.
pub open spec fn no_packages() -> PackageStartupStatus {
    PackageStartupStatus {
        required_total: 0,
        required_ready: 0,
        optional_preload_total: 0,
        optional_preload_ready: 0,
        optional_preload_failed: 0,
        optional_preload_skipped: 0,
        optional_preload_warmed_bytes: 0,
        optional_preload_deadline_hit: false,
        optional_preload_coordinator_available: false,
    }
}

/// The Debug rendering of each lifecycle state.
pub open spec fn lifecycle_name(s: VmLifecycleState) -> Seq<char> {
    match s {
        VmLifecycleState::Initializing => "Initializing"@,
        VmLifecycleState::Preloading => "Preloading"@,
        VmLifecycleState::Booting => "Booting"@,
        VmLifecycleState::Ready => "Ready"@,
        VmLifecycleState::Degraded => "Degraded"@,
        VmLifecycleState::Stopping => "Stopping"@,
        VmLifecycleState::Failed => "Failed"@,
    }
}

/// Why a VM cannot be used: the wrong generation, a VM that is not ready, or
/// a ready runtime without a VM.
pub open spec fn access_outcome(lifecycle: VmLifecycleState, vm_present: bool, current: u64, generation: Option<u64>) -> Result<(), Fault> {
    if generation matches Some(g) && g != current {
        Err(fault(ErrorCode::StaleGeneration, "handle generation "@ + decimal(generation->0 as nat)
            + " does not match current generation "@ + decimal(current as nat)))
    } else if lifecycle != VmLifecycleState::Ready {
        Err(fault(ErrorCode::NotReady, "agentOS VM is "@ + lifecycle_name(lifecycle) + "; inspect vm.status and retry"@))
    } else if !vm_present {
        Err(fault(ErrorCode::NotReady, "ready VM has no Core handle"@))
    } else {
        Ok(())
    }
}

fn lifecycle_str(s: VmLifecycleState) -> (r: &'static str)
    ensures
        r@ == lifecycle_name(s),
{
    match s {
        VmLifecycleState::Initializing => "Initializing",
        VmLifecycleState::Preloading => "Preloading",
        VmLifecycleState::Booting => "Booting",
        VmLifecycleState::Ready => "Ready",
        VmLifecycleState::Degraded => "Degraded",
        VmLifecycleState::Stopping => "Stopping",
        VmLifecycleState::Failed => "Failed",
    }
}

impl RuntimeState {
    /// A runtime that has not booted, wanting `desired_config_revision`.
    pub fn new(desired_config_revision: u64) -> (s: Self)
        ensures
            s.lifecycle == VmLifecycleState::Initializing,
            s.desired_config_revision == desired_config_revision,
            s.applied_config_revision is None,
            s.generation == 0,
            s.last_boot_at_ms is None,
            s.last_shutdown_at_ms is None,
            s.packages == no_packages(),
            s.issues@ == Seq::<VmIssue>::empty(),
            s.resolved_software@.len() == 0,
            !s.vm_present,
    {
        RuntimeState {
            lifecycle: VmLifecycleState::Initializing,
            desired_config_revision,
            applied_config_revision: None,
            generation: 0,
            last_boot_at_ms: None,
            last_shutdown_at_ms: None,
            packages: PackageStartupStatus {
                required_total: 0,
                required_ready: 0,
                optional_preload_total: 0,
                optional_preload_ready: 0,
                optional_preload_failed: 0,
                optional_preload_skipped: 0,
                optional_preload_warmed_bytes: 0,
                optional_preload_deadline_hit: false,
                optional_preload_coordinator_available: false,
            },
            issues: Vec::new(),
            resolved_software: Vec::new(),
            vm_present: false,
        }
    }

    /// Records an issue; past the cap the oldest is dropped.
    pub fn push_issue(&mut self, issue: VmIssue)
        ensures
            final(self)@ == (RuntimeView { issues: last_items(old(self)@.issues.push(issue), MAX_RUNTIME_ISSUES as nat), ..old(self)@ }),
    {
        let mut issues: Vec<VmIssue> = Vec::new();
        std::mem::swap(&mut issues, &mut self.issues);
        push_capped(&mut issues, issue, MAX_RUNTIME_ISSUES);
        self.issues = issues;
    }

    /// Copies the optional preload report into the package status.
    pub fn set_process_preload_report(&mut self, total: u32, ready: u32, failed: u32, skipped: u32, warmed_bytes: u64, deadline_hit: bool, coordinator_available: bool)
        ensures
            final(self).packages == (PackageStartupStatus {
                optional_preload_total: total,
                optional_preload_ready: ready,
                optional_preload_failed: failed,
                optional_preload_skipped: skipped,
                optional_preload_warmed_bytes: warmed_bytes,
                optional_preload_deadline_hit: deadline_hit,
                optional_preload_coordinator_available: coordinator_available,
                ..old(self).packages
            }),
            final(self)@ == (RuntimeView { packages: final(self).packages, ..old(self)@ }),
    {
        self.packages.optional_preload_total = total;
        self.packages.optional_preload_ready = ready;
        self.packages.optional_preload_failed = failed;
        self.packages.optional_preload_skipped = skipped;
        self.packages.optional_preload_warmed_bytes = warmed_bytes;
        self.packages.optional_preload_deadline_hit = deadline_hit;
        self.packages.optional_preload_coordinator_available = coordinator_available;
    }

    /// What `vm.status` reports, given the status of the Core sidecar behind
    /// the VM when the runtime holds one: a snapshot has a sidecar status
    /// exactly when the runtime holds a VM.
    pub fn snapshot(&self, core: Option<CoreSidecarStatus>) -> (s: VmStatusSnapshot)
        requires
            self.vm_present ==> core is Some,
        ensures
            s.lifecycle == self.lifecycle,
            s.config_state == config_state_of(self.lifecycle, self.applied_config_revision, self.desired_config_revision),
            s.desired_config_revision == self.desired_config_revision,
            s.applied_config_revision == self.applied_config_revision,
            s.generation == self.generation,
            s.last_boot_at_ms == self.last_boot_at_ms,
            s.last_shutdown_at_ms == self.last_shutdown_at_ms,
            s.packages == self.packages,
            s.issues@.len() == self.issues@.len(),
            forall|i: int| 0 <= i < s.issues@.len() ==> #[trigger] s.issues@[i].at_ms == self.issues@[i].at_ms
                && s.issues@[i].code@ == self.issues@[i].code@ && s.issues@[i].message@ == self.issues@[i].message@,
            s.core == (if self.vm_present { core } else { None }),
            s.core is Some <==> self.vm_present,
    {
        let mut issues: Vec<VmIssue> = Vec::new();
        let n = self.issues.len();
        let mut i: usize = 0;
        while i < n
            invariant
                n == self.issues@.len(),
                i <= n,
                issues@.len() == i,
                forall|j: int| 0 <= j < i ==> #[trigger] issues@[j].at_ms == self.issues@[j].at_ms
                    && issues@[j].code@ == self.issues@[j].code@ && issues@[j].message@ == self.issues@[j].message@,
            decreases n - i,
        {
            let issue = &self.issues[i];
            issues.push(VmIssue { code: issue.code.clone(), message: issue.message.clone(), at_ms: issue.at_ms });
            i += 1;
        }
        VmStatusSnapshot {
            lifecycle: self.lifecycle,
            config_state: config_state(self.lifecycle, self.applied_config_revision, self.desired_config_revision),
            desired_config_revision: self.desired_config_revision,
            applied_config_revision: self.applied_config_revision,
            generation: self.generation,
            last_boot_at_ms: self.last_boot_at_ms,
            last_shutdown_at_ms: self.last_shutdown_at_ms,
            packages: self.packages,
            issues,
            core: if self.vm_present { core } else { None },
        }
    }

    /// Whether the VM may be used, for an optional handle generation.
    pub fn check_access(&self, generation: Option<u64>) -> (r: Result<(), ActorError>)
        ensures
            match r {
                Ok(()) => access_outcome(self.lifecycle, self.vm_present, self.generation, generation) is Ok,
                Err(e) => access_outcome(self.lifecycle, self.vm_present, self.generation, generation) == Err::<(), Fault>(e@),
            },
    {
        if let Some(g) = generation {
            if g != self.generation {
                let head = with_text(owned("handle generation "), u64_text(g).as_str(), " does not match current generation ");
                let body = with_text(head, u64_text(self.generation).as_str(), "");
                proof {
                    reveal_strlit("");
                    assert(body@ =~= "handle generation "@ + decimal(g as nat) + " does not match current generation "@ + decimal(self.generation as nat));
                }
                return Err(ActorError::new(ErrorCode::StaleGeneration, body));
            }
        }
        if self.lifecycle != VmLifecycleState::Ready {
            let body = with_text(owned("agentOS VM is "), lifecycle_str(self.lifecycle), "; inspect vm.status and retry");
            return Err(ActorError::new(ErrorCode::NotReady, body));
        }
        if !self.vm_present {
            return Err(ActorError::new(ErrorCode::NotReady, owned("ready VM has no Core handle")));
        }
        Ok(())
    }

    /// A boot starts with a fresh durable generation: the runtime boots
    /// `revision` with `required_total` required packages, none ready yet.
    pub fn begin_boot(&mut self, revision: u64, generation: u64, required_total: usize) -> (r: Result<(), ActorError>)
        ensures
            r is Ok <==> required_total <= u32::MAX,
            r matches Err(e) ==> e@ == fault(ErrorCode::Internal, "required software count exceeds u32"@),
            final(self)@ == after_begin_boot(old(self)@, revision, generation, required_total as nat),
    {
        self.lifecycle = VmLifecycleState::Booting;
        self.desired_config_revision = revision;
        self.generation = generation;
        if required_total > 4294967295 {
            return Err(ActorError::new(ErrorCode::Internal, owned("required software count exceeds u32")));
        }
        self.packages.required_total = required_total as u32;
        self.packages.required_ready = 0;
        self.resolved_software = Vec::new();
        Ok(())
    }

    /// The durable generation could not be reserved.
    pub fn generation_allocation_failed(&mut self, message: String, at_ms: i64)
        ensures
            final(self)@ == (RuntimeView { lifecycle: VmLifecycleState::Failed, issues: final(self)@.issues, ..old(self)@ }),
            issue_added(old(self).issues@, final(self).issues@, "vm_generation_allocation_failed"@, message@, at_ms),
    {
        self.lifecycle = VmLifecycleState::Failed;
        let issue = VmIssue { code: owned("vm_generation_allocation_failed"), message, at_ms };
        let ghost pushed = issue;
        self.push_issue(issue);
        assert(is_issue(pushed, "vm_generation_allocation_failed"@, pushed.message@, at_ms));
    }

    /// Core created the VM: the runtime holds it and preloads packages.
    pub fn vm_created(&mut self)
        ensures
            final(self)@ == after_vm_created(old(self)@),
    {
        self.lifecycle = VmLifecycleState::Preloading;
        self.vm_present = true;
    }

    /// One required package is installed.
    pub fn required_package_ready(&mut self, resolved: ResolvedSoftware) -> (r: Result<(), ActorError>)
        ensures
            r is Ok <==> old(self).packages.required_ready < u32::MAX,
            r matches Err(e) ==> e@ == fault(ErrorCode::Internal, "required package readiness count overflow"@),
            final(self)@ == after_package_ready(old(self)@, resolved),
    {
        match self.packages.required_ready.checked_add(1) {
            Some(n) => {
                self.packages.required_ready = n;
                self.resolved_software.push(resolved);
                Ok(())
            },
            None => Err(ActorError::new(ErrorCode::Internal, owned("required package readiness count overflow"))),
        }
    }

    /// The boot finished: the VM is ready and runs `revision`.
    pub fn boot_succeeded(&mut self, revision: u64, booted_at_ms: i64)
        ensures
            final(self)@ == after_boot_succeeded(old(self)@, revision, booted_at_ms),
    {
        self.lifecycle = VmLifecycleState::Ready;
        self.applied_config_revision = Some(revision);
        self.last_boot_at_ms = Some(booted_at_ms);
    }

    /// The boot failed with `code`, after cleanup that did or did not succeed:
    /// a clean failure is failed, an unclean one degraded.
    pub fn boot_failed(&mut self, code: &str, message: String, cleanup_ok: bool, at_ms: i64)
        ensures
            boot_failed_into(old(self)@, code@, message@, cleanup_ok, at_ms, final(self)@),
    {
        self.lifecycle = if cleanup_ok { VmLifecycleState::Failed } else { VmLifecycleState::Degraded };
        let issue = VmIssue { code: owned(code), message, at_ms };
        let ghost pushed = issue;
        self.push_issue(issue);
        assert(is_issue(pushed, code@, pushed.message@, at_ms));
    }

    /// A stop starts: with no VM there is nothing to stop (`false`);
    /// otherwise the runtime gives up the VM and its resolved packages.
    pub fn begin_stop(&mut self) -> (stopping: bool)
        ensures
            stopping == old(self).vm_present,
            final(self)@ == after_begin_stop(old(self)@),
    {
        if !self.vm_present {
            return false;
        }
        self.vm_present = false;
        self.lifecycle = VmLifecycleState::Stopping;
        self.resolved_software = Vec::new();
        self.packages.required_ready = 0;
        true
    }

    /// The VM shut down: nothing runs and no revision is applied.
    pub fn stop_succeeded(&mut self, stopped_at_ms: i64)
        ensures
            final(self)@ == after_stop_succeeded(old(self)@, stopped_at_ms),
    {
        self.lifecycle = VmLifecycleState::Initializing;
        self.applied_config_revision = None;
        self.last_shutdown_at_ms = Some(stopped_at_ms);
    }

    /// The VM did not shut down (it failed with `code`, or timed out): the
    /// runtime keeps the VM, degraded.
    pub fn stop_failed(&mut self, code: &str, message: String, at_ms: i64)
        ensures
            stop_failed_into(old(self)@, code@, message@, at_ms, final(self)@),
    {
        self.lifecycle = VmLifecycleState::Degraded;
        self.vm_present = true;
        let issue = VmIssue { code: owned(code), message, at_ms };
        let ghost pushed = issue;
        self.push_issue(issue);
        assert(is_issue(pushed, code@, pushed.message@, at_ms));
    }

    /// Whether a package id is among the resolved packages.
    fn has_package(&self, package_id: &str) -> (b: bool)
        ensures
            b == exists|i: int| 0 <= i < self.resolved_software@.len() && #[trigger] self.resolved_software@[i].installed.package_id@ == package_id@,
    {
        let n = self.resolved_software.len();
        let mut i: usize = 0;
        while i < n
            invariant
                n == self.resolved_software@.len(),
                i <= n,
                forall|j: int| 0 <= j < i ==> #[trigger] self.resolved_software@[j].installed.package_id@ != package_id@,
            decreases n - i,
        {
            if str_equals(self.resolved_software[i].installed.package_id.as_str(), package_id) {
                return true;
            }
            i += 1;
        }
        false
    }

    /// A package was installed live: a new package id joins the resolved
    /// packages and counts as required and ready (saturating).
    pub fn software_installed(&mut self, url: String, installed: ActorInstalledSoftware)
        ensures
            (exists|i: int| 0 <= i < old(self).resolved_software@.len() && #[trigger] old(self).resolved_software@[i].installed.package_id@ == installed.package_id@)
                ==> final(self).resolved_software@ == old(self).resolved_software@ && final(self).packages == old(self).packages,
            !(exists|i: int| 0 <= i < old(self).resolved_software@.len() && #[trigger] old(self).resolved_software@[i].installed.package_id@ == installed.package_id@)
                ==> final(self).resolved_software@ == old(self).resolved_software@.push(ResolvedSoftware { url, installed })
                && final(self).packages.required_total == (if old(self).packages.required_total == u32::MAX { u32::MAX as int } else { old(self).packages.required_total + 1 })
                && final(self).packages.required_ready == (if old(self).packages.required_ready == u32::MAX { u32::MAX as int } else { old(self).packages.required_ready + 1 }),
            final(self)@ == (RuntimeView { packages: PackageStartupStatus { required_total: final(self).packages.required_total, required_ready: final(self).packages.required_ready, ..old(self).packages }, resolved_software: final(self)@.resolved_software, ..old(self)@ }),
    {
        if !self.has_package(installed.package_id.as_str()) {
            self.resolved_software.push(ResolvedSoftware { url, installed });
            self.packages.required_total = self.packages.required_total.saturating_add(1);
            self.packages.required_ready = self.packages.required_ready.saturating_add(1);
        }
    }

    /// A package was uninstalled: it leaves the resolved packages and one
    /// fewer package counts as required and ready (saturating at zero).
    #[verifier::spinoff_prover]
    pub fn software_uninstalled(&mut self, package_id: &str)
        ensures
            forall|i: int| 0 <= i < final(self).resolved_software@.len()
                ==> #[trigger] final(self).resolved_software@[i].installed.package_id@ != package_id@,
            final(self).resolved_software@.len() <= old(self).resolved_software@.len(),
            final(self).packages.required_total == (if old(self).packages.required_total == 0 { 0 } else { old(self).packages.required_total - 1 }),
            final(self).packages.required_ready == (if old(self).packages.required_ready == 0 { 0 } else { old(self).packages.required_ready - 1 }),
            final(self)@ == (RuntimeView { packages: PackageStartupStatus { required_total: final(self).packages.required_total, required_ready: final(self).packages.required_ready, ..old(self).packages }, resolved_software: final(self)@.resolved_software, ..old(self)@ }),
    {
        let mut kept: Vec<ResolvedSoftware> = Vec::new();
        let n = self.resolved_software.len();
        let mut i: usize = 0;
        while i < n
            invariant
                n == self.resolved_software@.len(),
                i <= n,
                kept@.len() <= i,
                forall|j: int| 0 <= j < kept@.len() ==> #[trigger] kept@[j].installed.package_id@ != package_id@,
            decreases n - i,
        {
            let entry = &self.resolved_software[i];
            if !str_equals(entry.installed.package_id.as_str(), package_id) {
                let installed = entry.installed.copy();
                let ghost before = kept@;
                kept.push(ResolvedSoftware { url: entry.url.clone(), installed });
                assert(kept@[kept@.len() - 1].installed.package_id@ != package_id@);
                assert(forall|j: int| 0 <= j < before.len() ==> kept@[j] == before[j]);
            }
            i += 1;
        }
        self.resolved_software = kept;
        self.packages.required_total = self.packages.required_total.saturating_sub(1);
        self.packages.required_ready = self.packages.required_ready.saturating_sub(1);
    }

    /// The applied configuration changed without a restart.
    pub fn set_applied_config_revision(&mut self, revision: u64)
        ensures
            final(self)@ == (RuntimeView { desired_config_revision: revision, applied_config_revision: Some(revision), ..old(self)@ }),
    {
        self.desired_config_revision = revision;
        self.applied_config_revision = Some(revision);
    }

    /// A new configuration revision is desired.
    pub fn set_desired_config_revision(&mut self, revision: u64)
        ensures
            final(self)@ == (RuntimeView { desired_config_revision: revision, ..old(self)@ }),
    {
        self.desired_config_revision = revision;
    }
}

/// The boot error when creating the VM failed.
pub const VM_CREATE_FAILED: &'static str = "create agentOS VM";
/// The boot error when the task creating the VM did not finish.
pub const VM_CREATE_ABORTED: &'static str = "join agentOS VM creation";
/// The boot error when a required package could not be installed.
pub const PACKAGE_INSTALL_FAILED: &'static str = "install required VM packages";
/// The boot error when VM creation outlived the initialization deadline.
pub const VM_CREATE_TIMEOUT: &'static str = "timeout: runtime initialization exceeded 30000ms while creating the VM; late creation cleanup is pending";
/// The boot error when package installation outlived the initialization deadline.
pub const PACKAGE_INSTALL_TIMEOUT: &'static str = "timeout: runtime initialization exceeded 30000ms while installing required packages; raise the actor initialization deadline";
/// The issue recorded when a shutdown outlived its deadline.
pub const SHUTDOWN_TIMEOUT_ISSUE: &'static str = "runtime shutdown exceeded the fixed actor deadline of 10000ms; completion is unconfirmed";
/// The error of a shutdown that outlived its deadline.
pub const SHUTDOWN_TIMEOUT_ERROR: &'static str = "timeout: runtime shutdown exceeded 10000ms";
/// The error of a shutdown that failed.
pub const SHUTDOWN_FAILED_ERROR: &'static str = "stop agentOS Core runtime";
/// The boot error when no durable generation could be reserved.
pub const GENERATION_FAILED_ERROR: &'static str = "reserve durable VM generation";
/// The boot error when the required package count does not fit in `u32`.
pub const REQUIRED_COUNT_ERROR: &'static str = "required software count exceeds u32";

/// Where a boot stands.
#[derive(Debug, Clone, PartialEq, Eq)]
pub enum BootPhase {
    /// The previous VM is shutting down.
    StoppingPrevious,
    /// The durable VM generation is being reserved.
    ReservingGeneration,
    /// Core is creating the VM.
    CreatingVm,
    /// The required packages are being installed, one at a time.
    InstallingPackages,
    /// A failed boot is shutting its VM down; it then fails with `code` and `message`.
    CleaningUp { code: String, message: String },
    /// The boot is over.
    Done,
}

/// A boot in progress: which revision it boots, how many packages it
/// requires, where it stands and the initialization deadline.
#[derive(Debug, Clone, PartialEq, Eq)]
pub struct BootDriver {
    pub phase: BootPhase,
    pub revision: u64,
    pub required_total: usize,
    pub deadline_ms: i64,
}

/// What happened to the outside work a boot asked for.
#[derive(Debug, Clone)]
pub enum BootEvent {
    ShutdownSucceeded,
    ShutdownFailed { message: String },
    ShutdownTimedOut,
    GenerationReserved { generation: u64 },
    GenerationFailed { message: String },
    /// The VM configuration could not be prepared before creation.
    SetupFailed { message: String },
    VmCreated,
    VmCreationFailed,
    /// The task creating the VM ended without a result.
    VmCreationAborted,
    PackageInstalled { resolved: ResolvedSoftware },
    PackageFailed,
    /// The initialization deadline passed before creation or installation finished.
    DeadlinePassed,
}

/// What the boot asks for next.
#[derive(Debug, Clone, PartialEq, Eq)]
pub enum BootAction {
    /// Shut the runtime's VM down, giving up at `deadline_ms`.
    ShutDownVm { deadline_ms: i64 },
    ReserveGeneration,
    /// Create the VM, giving up at `deadline_ms`.
    CreateVm { deadline_ms: i64 },
    /// Install the required package at `index`, giving up at `deadline_ms`.
    InstallPackage { index: usize, deadline_ms: i64 },
    /// The boot succeeded; report the runtime's status.
    Ready,
    /// The boot failed with this error.
    Failed { message: String },
    /// The event does not belong to this step of the boot; nothing changes.
    Ignore,
}

/// `ms` milliseconds after `now`, saturating.
pub open spec fn deadline_after(now_ms: i64, ms: u64) -> i64 {
    if now_ms + ms > i64::MAX { i64::MAX } else { (now_ms + ms) as i64 }
}

fn deadline_from(now_ms: i64, ms: u64) -> (d: i64)
    requires
        ms <= 1_000_000,
    ensures
        d == deadline_after(now_ms, ms),
{
    if now_ms > i64::MAX - (ms as i64) { i64::MAX } else { now_ms + (ms as i64) }
}

/// A failed boot starts its cleanup: with a VM it gives it up and shuts it
/// down; without one it fails at once, cleanly.
pub open spec fn fail_started(v: RuntimeView, code: Seq<char>, message: Seq<char>, now_ms: i64,
    d: BootDriver, d2: BootDriver, w: RuntimeView, a: BootAction) -> bool {
    if v.vm_present {
        &&& w == after_begin_stop(v)
        &&& d2.revision == d.revision && d2.required_total == d.required_total && d2.deadline_ms == d.deadline_ms
        &&& (d2.phase matches BootPhase::CleaningUp { code: c, message: m } && c@ == code && m@ == message)
        &&& a == BootAction::ShutDownVm { deadline_ms: deadline_after(now_ms, SHUTDOWN_TIMEOUT_MS) }
    } else {
        &&& boot_failed_into(v, code, message, true, now_ms, w)
        &&& d2 == (BootDriver { phase: BootPhase::Done, ..d })
        &&& (a matches BootAction::Failed { message: m } && m@ == message)
    }
}

/// The boot ends with this error and the driver done.
pub open spec fn ends_failed(d: BootDriver, d2: BootDriver, a: BootAction, message: Seq<char>) -> bool {
    &&& d2 == (BootDriver { phase: BootPhase::Done, ..d })
    &&& (a matches BootAction::Failed { message: m } && m@ == message)
}

/// One step of a boot: the runtime `v` and the driver `d` see `e` at
/// `now_ms` and become `w` and `d2`, asking for `a`. The order is: shut the
/// previous VM down, reserve a generation, start the boot, create the VM,
/// install each required package, succeed; creation and installation share
/// one deadline, and a failure there shuts the VM down and fails the boot,
/// degraded when that cleanup fails.
pub open spec fn boot_transition(d: BootDriver, v: RuntimeView, e: BootEvent, now_ms: i64,
    d2: BootDriver, w: RuntimeView, a: BootAction) -> bool {
    let unchanged = d2 == d && w == v && a == BootAction::Ignore;
    match d.phase {
        BootPhase::StoppingPrevious => match e {
            BootEvent::ShutdownSucceeded => w == after_stop_succeeded(v, now_ms)
                && d2 == (BootDriver { phase: BootPhase::ReservingGeneration, ..d }) && a == BootAction::ReserveGeneration,
            BootEvent::ShutdownFailed { message } => stop_failed_into(v, "runtime_shutdown_failed"@, message@, now_ms, w)
                && ends_failed(d, d2, a, SHUTDOWN_FAILED_ERROR@),
            BootEvent::ShutdownTimedOut => stop_failed_into(v, "runtime_shutdown_timeout"@, SHUTDOWN_TIMEOUT_ISSUE@, now_ms, w)
                && ends_failed(d, d2, a, SHUTDOWN_TIMEOUT_ERROR@),
            _ => unchanged,
        },
        BootPhase::ReservingGeneration => match e {
            BootEvent::GenerationReserved { generation } => {
                &&& w == after_begin_boot(v, d.revision, generation, d.required_total as nat)
                &&& if d.required_total > u32::MAX {
                    ends_failed(d, d2, a, REQUIRED_COUNT_ERROR@)
                } else {
                    let deadline = deadline_after(now_ms, INITIALIZATION_TIMEOUT_MS);
                    &&& d2 == (BootDriver { phase: BootPhase::CreatingVm, deadline_ms: deadline, ..d })
                    &&& a == BootAction::CreateVm { deadline_ms: deadline }
                }
            },
            BootEvent::GenerationFailed { message } => {
                &&& w == (RuntimeView { lifecycle: VmLifecycleState::Failed, issues: w.issues, ..v })
                &&& issue_added(v.issues, w.issues, "vm_generation_allocation_failed"@, message@, now_ms)
                &&& ends_failed(d, d2, a, GENERATION_FAILED_ERROR@)
            },
            _ => unchanged,
        },
        BootPhase::CreatingVm => match e {
            BootEvent::SetupFailed { message } => w == v && ends_failed(d, d2, a, message@),
            BootEvent::VmCreated => {
                let u = after_vm_created(v);
                if d.required_total == 0 {
                    &&& w == after_boot_succeeded(u, d.revision, now_ms)
                    &&& d2 == (BootDriver { phase: BootPhase::Done, ..d })
                    &&& a == BootAction::Ready
                } else {
                    &&& w == u
                    &&& d2 == (BootDriver { phase: BootPhase::InstallingPackages, ..d })
                    &&& a == BootAction::InstallPackage { index: 0, deadline_ms: d.deadline_ms }
                }
            },
            BootEvent::VmCreationFailed => fail_started(v, "runtime_boot_failed"@, VM_CREATE_FAILED@, now_ms, d, d2, w, a),
            BootEvent::VmCreationAborted => fail_started(v, "runtime_boot_failed"@, VM_CREATE_ABORTED@, now_ms, d, d2, w, a),
            BootEvent::DeadlinePassed => fail_started(v, "runtime_boot_timeout"@, VM_CREATE_TIMEOUT@, now_ms, d, d2, w, a),
            _ => unchanged,
        },
        BootPhase::InstallingPackages => match e {
            BootEvent::PackageInstalled { resolved } => {
                let u = after_package_ready(v, resolved);
                if v.packages.required_ready == u32::MAX {
                    fail_started(v, "runtime_boot_failed"@, PACKAGE_INSTALL_FAILED@, now_ms, d, d2, w, a)
                } else if u.packages.required_ready as int == d.required_total as int {
                    &&& w == after_boot_succeeded(u, d.revision, now_ms)
                    &&& d2 == (BootDriver { phase: BootPhase::Done, ..d })
                    &&& a == BootAction::Ready
                } else {
                    &&& w == u
                    &&& d2 == d
                    &&& a == BootAction::InstallPackage { index: u.packages.required_ready as usize, deadline_ms: d.deadline_ms }
                }
            },
            BootEvent::PackageFailed => fail_started(v, "runtime_boot_failed"@, PACKAGE_INSTALL_FAILED@, now_ms, d, d2, w, a),
            BootEvent::DeadlinePassed => fail_started(v, "runtime_boot_timeout"@, PACKAGE_INSTALL_TIMEOUT@, now_ms, d, d2, w, a),
            _ => unchanged,
        },
        BootPhase::CleaningUp { code, message } => match e {
            BootEvent::ShutdownSucceeded => {
                &&& boot_failed_into(after_stop_succeeded(v, now_ms), code@, message@, true, now_ms, w)
                &&& ends_failed(d, d2, a, message@)
            },
            BootEvent::ShutdownFailed { message: cause } => {
                let text = "VM cleanup failed: "@ + SHUTDOWN_FAILED_ERROR@ + ": "@ + cause@;
                &&& exists|u: RuntimeView| #[trigger] stop_failed_into(v, "runtime_shutdown_failed"@, cause@, now_ms, u)
                    && boot_failed_into(u, code@, text, false, now_ms, w)
                &&& ends_failed(d, d2, a, text)
            },
            BootEvent::ShutdownTimedOut => {
                let text = "VM cleanup failed: "@ + SHUTDOWN_TIMEOUT_ERROR@;
                &&& exists|u: RuntimeView| #[trigger] stop_failed_into(v, "runtime_shutdown_timeout"@, SHUTDOWN_TIMEOUT_ISSUE@, now_ms, u)
                    && boot_failed_into(u, code@, text, false, now_ms, w)
                &&& ends_failed(d, d2, a, text)
            },
            _ => unchanged,
        },
        BootPhase::Done => unchanged,
    }
}

impl BootDriver {
    /// A boot of `revision` requiring `required_total` packages starts by
    /// shutting the runtime's current VM down, if it holds one, and otherwise
    /// by reserving a generation.
    pub fn start(state: &mut RuntimeState, revision: u64, required_total: usize, now_ms: i64) -> (r: (BootDriver, BootAction))
        ensures
            final(state)@ == after_begin_stop(old(state)@),
            r.0.revision == revision,
            r.0.required_total == required_total,
            old(state).vm_present ==> r.0.phase == BootPhase::StoppingPrevious
                && r.1 == (BootAction::ShutDownVm { deadline_ms: deadline_after(now_ms, SHUTDOWN_TIMEOUT_MS) }),
            !old(state).vm_present ==> r.0.phase == BootPhase::ReservingGeneration && r.1 == BootAction::ReserveGeneration,
    {
        if state.begin_stop() {
            let deadline = deadline_from(now_ms, SHUTDOWN_TIMEOUT_MS);
            (BootDriver { phase: BootPhase::StoppingPrevious, revision, required_total, deadline_ms: now_ms }, BootAction::ShutDownVm { deadline_ms: deadline })
        } else {
            (BootDriver { phase: BootPhase::ReservingGeneration, revision, required_total, deadline_ms: now_ms }, BootAction::ReserveGeneration)
        }
    }

    fn fail(&mut self, state: &mut RuntimeState, code: &str, message: String, now_ms: i64) -> (a: BootAction)
        ensures
            fail_started(old(state)@, code@, message@, now_ms, *old(self), *final(self), final(state)@, a),
    {
        if state.begin_stop() {
            self.phase = BootPhase::CleaningUp { code: owned(code), message };
            BootAction::ShutDownVm { deadline_ms: deadline_from(now_ms, SHUTDOWN_TIMEOUT_MS) }
        } else {
            state.boot_failed(code, message.clone(), true, now_ms);
            self.phase = BootPhase::Done;
            BootAction::Failed { message }
        }
    }

    fn finish_failed(&mut self, message: String) -> (a: BootAction)
        ensures
            ends_failed(*old(self), *final(self), a, message@),
    {
        self.phase = BootPhase::Done;
        BootAction::Failed { message }
    }

    /// The boot's next step, given what happened at `now_ms`; see `boot_transition`.
    pub fn step(&mut self, state: &mut RuntimeState, event: BootEvent, now_ms: i64) -> (a: BootAction)
        ensures
            boot_transition(*old(self), old(state)@, event, now_ms, *final(self), final(state)@, a),
    {
        let cleanup: Option<(String, String)> = match &self.phase {
            BootPhase::CleaningUp { code, message } => Some((code.clone(), message.clone())),
            _ => None,
        };
        if let Some((code, message)) = cleanup {
            return match event {
                BootEvent::ShutdownSucceeded => {
                    state.stop_succeeded(now_ms);
                    state.boot_failed(code.as_str(), message.clone(), true, now_ms);
                    self.finish_failed(message)
                },
                BootEvent::ShutdownFailed { message: cause } => {
                    let text = appended(with_text(owned("VM cleanup failed: "), SHUTDOWN_FAILED_ERROR, ": "), cause.as_str());
                    state.stop_failed("runtime_shutdown_failed", cause, now_ms);
                    state.boot_failed(code.as_str(), text.clone(), false, now_ms);
                    self.finish_failed(text)
                },
                BootEvent::ShutdownTimedOut => {
                    let text = appended(owned("VM cleanup failed: "), SHUTDOWN_TIMEOUT_ERROR);
                    state.stop_failed("runtime_shutdown_timeout", owned(SHUTDOWN_TIMEOUT_ISSUE), now_ms);
                    state.boot_failed(code.as_str(), text.clone(), false, now_ms);
                    self.finish_failed(text)
                },
                _ => BootAction::Ignore,
            };
        }
        match &self.phase {
            BootPhase::StoppingPrevious => match event {
                BootEvent::ShutdownSucceeded => {
                    state.stop_succeeded(now_ms);
                    self.phase = BootPhase::ReservingGeneration;
                    BootAction::ReserveGeneration
                },
                BootEvent::ShutdownFailed { message } => {
                    state.stop_failed("runtime_shutdown_failed", message, now_ms);
                    self.finish_failed(owned(SHUTDOWN_FAILED_ERROR))
                },
                BootEvent::ShutdownTimedOut => {
                    state.stop_failed("runtime_shutdown_timeout", owned(SHUTDOWN_TIMEOUT_ISSUE), now_ms);
                    self.finish_failed(owned(SHUTDOWN_TIMEOUT_ERROR))
                },
                _ => BootAction::Ignore,
            },
            BootPhase::ReservingGeneration => match event {
                BootEvent::GenerationReserved { generation } => {
                    match state.begin_boot(self.revision, generation, self.required_total) {
                        Err(_) => self.finish_failed(owned(REQUIRED_COUNT_ERROR)),
                        Ok(()) => {
                            let deadline = deadline_from(now_ms, INITIALIZATION_TIMEOUT_MS);
                            self.phase = BootPhase::CreatingVm;
                            self.deadline_ms = deadline;
                            BootAction::CreateVm { deadline_ms: deadline }
                        },
                    }
                },
                BootEvent::GenerationFailed { message } => {
                    state.generation_allocation_failed(message, now_ms);
                    self.finish_failed(owned(GENERATION_FAILED_ERROR))
                },
                _ => BootAction::Ignore,
            },
            BootPhase::CreatingVm => match event {
                BootEvent::SetupFailed { message } => self.finish_failed(message),
                BootEvent::VmCreated => {
                    state.vm_created();
                    if self.required_total == 0 {
                        state.boot_succeeded(self.revision, now_ms);
                        self.phase = BootPhase::Done;
                        BootAction::Ready
                    } else {
                        self.phase = BootPhase::InstallingPackages;
                        BootAction::InstallPackage { index: 0, deadline_ms: self.deadline_ms }
                    }
                },
                BootEvent::VmCreationFailed => self.fail(state, "runtime_boot_failed", owned(VM_CREATE_FAILED), now_ms),
                BootEvent::VmCreationAborted => self.fail(state, "runtime_boot_failed", owned(VM_CREATE_ABORTED), now_ms),
                BootEvent::DeadlinePassed => self.fail(state, "runtime_boot_timeout", owned(VM_CREATE_TIMEOUT), now_ms),
                _ => BootAction::Ignore,
            },
            BootPhase::InstallingPackages => match event {
                BootEvent::PackageInstalled { resolved } => {
                    match state.required_package_ready(resolved) {
                        Err(_) => self.fail(state, "runtime_boot_failed", owned(PACKAGE_INSTALL_FAILED), now_ms),
                        Ok(()) => {
                            if state.packages.required_ready as usize == self.required_total {
                                state.boot_succeeded(self.revision, now_ms);
                                self.phase = BootPhase::Done;
                                BootAction::Ready
                            } else {
                                BootAction::InstallPackage { index: state.packages.required_ready as usize, deadline_ms: self.deadline_ms }
                            }
                        },
                    }
                },
                BootEvent::PackageFailed => self.fail(state, "runtime_boot_failed", owned(PACKAGE_INSTALL_FAILED), now_ms),
                BootEvent::DeadlinePassed => self.fail(state, "runtime_boot_timeout", owned(PACKAGE_INSTALL_TIMEOUT), now_ms),
                _ => BootAction::Ignore,
            },
            _ => BootAction::Ignore,
        }
    }
}

/// A successful boot of the desired revision reports a ready configuration,
/// and a VM that is then ready to use at its generation.
pub proof fn lemma_boot_success_is_ready(revision: u64, generation: u64, vm_present: bool)
    requires
        vm_present,
    ensures
        config_state_of(VmLifecycleState::Ready, Some(revision), revision) == ConfigApplyState::Ready,
        access_outcome(VmLifecycleState::Ready, vm_present, generation, Some(generation)) is Ok,
        access_outcome(VmLifecycleState::Ready, vm_present, generation, None) is Ok,
{
}

proof fn lemma_packages_ready_count(v: RuntimeView, resolved: Seq<ResolvedSoftware>)
    requires
        v.packages.required_ready + resolved.len() <= u32::MAX,
    ensures
        after_packages_ready(v, resolved) == (RuntimeView {
            packages: PackageStartupStatus {
                required_ready: (v.packages.required_ready + resolved.len()) as u32,
                ..v.packages
            },
            resolved_software: v.resolved_software + resolved,
            ..v
        }),
    decreases resolved.len(),
{
    if resolved.len() > 0 {
        let w = after_packages_ready(v, resolved.drop_last());
        lemma_packages_ready_count(v, resolved.drop_last());
        assert(w.packages.required_ready == v.packages.required_ready + resolved.len() - 1);
        assert(w.resolved_software.push(resolved.last()) =~= v.resolved_software + resolved);
    } else {
        assert(v.resolved_software + resolved =~= v.resolved_software);
    }
}

/// A full boot (it starts, Core creates the VM, every required package is
/// installed, and it finishes) leaves the runtime ready with a VM, running
/// the booted revision as desired and applied, under the generation reserved
/// for it, with every required package counted ready and resolved in order.
pub proof fn lemma_full_boot_is_ready(
    v: RuntimeView,
    revision: u64,
    generation: u64,
    resolved: Seq<ResolvedSoftware>,
    booted_at_ms: i64,
)
    requires
        resolved.len() <= u32::MAX,
    ensures
        ({
            let w = after_boot_succeeded(
                after_packages_ready(after_vm_created(after_begin_boot(v, revision, generation, resolved.len())), resolved),
                revision,
                booted_at_ms,
            );
            &&& w.lifecycle == VmLifecycleState::Ready
            &&& config_state_of(w.lifecycle, w.applied_config_revision, w.desired_config_revision) == ConfigApplyState::Ready
            &&& w.desired_config_revision == revision
            &&& w.applied_config_revision == Some(revision)
            &&& w.generation == generation
            &&& w.packages.required_total == resolved.len()
            &&& w.packages.required_ready == resolved.len()
            &&& w.resolved_software == resolved
            &&& w.last_boot_at_ms == Some(booted_at_ms)
            &&& w.vm_present
            &&& access_outcome(w.lifecycle, w.vm_present, w.generation, Some(generation)) is Ok
        }),
{
    let u = after_vm_created(after_begin_boot(v, revision, generation, resolved.len()));
    lemma_packages_ready_count(u, resolved);
    assert(Seq::<ResolvedSoftware>::empty() + resolved =~= resolved);
}

/// A handle from another generation is always refused as stale.
pub proof fn lemma_other_generation_is_stale(lifecycle: VmLifecycleState, vm_present: bool, current: u64, g: u64)
    requires
        g != current,
    ensures
        access_outcome(lifecycle, vm_present, current, Some(g)) matches Err(f) && f.0 == ErrorCode::StaleGeneration,
{
}

} // verus!
