use agentos_actor::actor::actions::{
    replacement_snapshot, replacement_snapshot_classified, ConfigCommitMode,
};
use agentos_actor::contract::config::{
    AgentOsActorConfig, AgentOsActorConfigInput, ConfigChecks, PreviewPolicyInput,
};
use agentos_actor::contract::lifecycle::ConfigSnapshot;
use agentos_actor::strmap::StringMap;
use agentos_actor::actor::cron::{bounded_error, validate_nonempty_bytes, MAX_CRON_ERROR_BYTES};
use agentos_actor::actor::filesystem::{
    transfer_limit, validate_directory_output, validate_paths, FileContentInput,
    FilesystemReaddirRecursive, FilesystemWriteEntry, FilesystemWriteFiles, MAX_BATCH_PATHS,
    MAX_TRANSFER_BYTES,
};
use agentos_actor::actor::runtime::{ResolvedSoftware, RuntimeState, MAX_RUNTIME_ISSUES};
use agentos_actor::actor::software::{
    can_apply_software_live, dedup_resolved_sources, pin_sources, require_revision,
    software_commit_mode, validate_package_id, ActorInstalledSoftware,
};
use agentos_actor::contract::config::RemotePackageSource;
use agentos_actor::contract::lifecycle::{ConfigApplyState, CoreSidecarStatus, VmIssue, VmLifecycleState};
use agentos_actor::error::ErrorCode;

#[test]
fn transfer_and_collection_limits_are_bounded() {
    assert_eq!(transfer_limit(None).expect("default limit"), MAX_TRANSFER_BYTES);
    assert!(transfer_limit(Some(0)).is_err());
    assert!(transfer_limit(Some(MAX_TRANSFER_BYTES + 1)).is_err());
    assert!(validate_paths(&vec!["/a".into(); MAX_BATCH_PATHS]).is_ok());
    assert!(validate_paths(&vec!["/a".into(); MAX_BATCH_PATHS + 1]).is_err());
}

#[test]
fn cron_errors_are_utf8_bounded() {
    let error = "🦀".repeat(MAX_CRON_ERROR_BYTES);
    let bounded = bounded_error(&error);
    assert!(bounded.len() <= MAX_CRON_ERROR_BYTES + '…'.len_utf8());
    assert!(bounded.ends_with('…'));
}

#[test]
fn package_id_is_content_addressed() {
    assert!(validate_package_id(&format!("sha256:{}", "a".repeat(64))).is_ok());
    assert!(validate_package_id("package-name").is_err());
}

#[test]
fn package_id_rejects_upper_case_and_short_digests() {
    assert!(validate_package_id(&format!("sha256:{}", "A".repeat(64))).is_err());
    assert!(validate_package_id(&format!("sha256:{}", "a".repeat(63))).is_err());
    let error = validate_package_id("md5:abc").unwrap_err();
    assert_eq!(
        error.message,
        "invalid_input: packageId must use the sha256:<64 lowercase hex> form"
    );
}

#[test]
fn short_errors_are_kept_whole_and_long_ones_cut_on_a_character() {
    assert_eq!(bounded_error("boom"), "boom");
    let error = format!("{}é", "x".repeat(MAX_CRON_ERROR_BYTES - 1));
    let bounded = bounded_error(&error);
    assert_eq!(bounded, format!("{}…", "x".repeat(MAX_CRON_ERROR_BYTES - 1)));
}

#[test]
fn transfer_limit_errors_name_the_bound() {
    let error = transfer_limit(Some(0)).unwrap_err();
    assert_eq!(error.code, ErrorCode::LimitExceeded);
    assert_eq!(
        error.message,
        "limit_exceeded: maxBytes must be between 1 and 786432; large-file streaming is not implemented"
    );
    assert_eq!(transfer_limit(Some(10)).unwrap(), 10);
}

#[test]
fn directory_output_is_bounded() {
    assert!(validate_directory_output(4096, 512 * 1024).is_ok());
    let error = validate_directory_output(4097, 0).unwrap_err();
    assert_eq!(
        error.message,
        "limit_exceeded: filesystem directory result entries is 4097, limit is 4096; reduce the collection"
    );
    let error = validate_directory_output(1, 512 * 1024 + 1).unwrap_err();
    assert_eq!(
        error.message,
        "limit_exceeded: filesystem directory result paths is 524289 bytes, limit is 524288; reduce the payload"
    );
}

#[test]
fn recursive_listing_depth_and_exclusions_are_bounded() {
    let ok = FilesystemReaddirRecursive { path: "/w".into(), max_depth: Some(64), exclude: vec!["node_modules".into()] };
    assert!(ok.validate().is_ok());
    let deep = FilesystemReaddirRecursive { path: "/w".into(), max_depth: Some(65), exclude: Vec::new() };
    assert!(deep.validate().unwrap_err().message.contains("maxDepth exceeds 64"));
    let empty = FilesystemReaddirRecursive { path: "/w".into(), max_depth: None, exclude: vec![String::new()] };
    assert!(empty.validate().is_err());
}

#[test]
fn batch_writes_bound_their_total_content() {
    let entry = |n: usize| FilesystemWriteEntry { path: "/f".into(), content: FileContentInput::Bytes(vec![0; n]) };
    assert!(FilesystemWriteFiles { entries: vec![entry(MAX_TRANSFER_BYTES)] }.validate().is_ok());
    let error = FilesystemWriteFiles { entries: vec![entry(MAX_TRANSFER_BYTES), entry(1)] }.validate().unwrap_err();
    assert_eq!(
        error.message,
        "limit_exceeded: filesystem.writeFiles content is 786433 bytes, limit is 786432; reduce the payload"
    );
}

#[test]
fn nonempty_values_are_bounded() {
    assert_eq!(
        validate_nonempty_bytes("cron name", "", 4).unwrap_err().message,
        "invalid_input: cron name cannot be empty"
    );
    assert_eq!(
        validate_nonempty_bytes("cron name", "abcde", 4).unwrap_err().message,
        "limit_exceeded: cron name is 5 bytes; maximum is 4 bytes"
    );
    assert!(validate_nonempty_bytes("cron name", "abcd", 4).is_ok());
}

#[test]
fn stale_revisions_conflict() {
    let mut snapshot = ready_snapshot(AgentOsActorConfig::default());
    snapshot.revision = 3;
    assert!(require_revision(&snapshot, None).is_ok());
    assert!(require_revision(&snapshot, Some(3)).is_ok());
    let error = require_revision(&snapshot, Some(2)).unwrap_err();
    assert_eq!(error.code, ErrorCode::RevisionConflict);
    assert_eq!(error.message, "revision_conflict: expected revision 2, current revision is 3");
}

#[test]
fn software_applies_live_only_to_a_current_ready_vm() {
    let mut snapshot = ready_snapshot(AgentOsActorConfig::default());
    assert!(can_apply_software_live(&snapshot, true));
    assert!(!can_apply_software_live(&snapshot, false));
    snapshot.applied_revision = Some(6);
    assert!(!can_apply_software_live(&snapshot, true));
    snapshot.applied_revision = Some(7);
    snapshot.status = ConfigApplyState::RestartRequired;
    assert!(!can_apply_software_live(&snapshot, true));
    assert_eq!(software_commit_mode(true), ConfigCommitMode::Live);
    assert_eq!(software_commit_mode(false), ConfigCommitMode::Classify);
}

fn ready_snapshot(desired: AgentOsActorConfig) -> ConfigSnapshot {
    ConfigSnapshot {
        revision: 7,
        desired,
        applied_revision: Some(7),
        status: ConfigApplyState::Ready,
        issues: Vec::new(),
        created_at_ms: 1,
        updated_at_ms: 1,
    }
}

fn no_checks() -> ConfigChecks {
    ConfigChecks {
        allowed_node_builtins: None,
        loopback_exempt_ports: Ok(Vec::new()),
        software: Vec::new(),
        permissions_encoded_len: 0,
    }
}

#[test]
fn replacement_resets_omitted_fields_and_requires_restart_for_core_changes() {
    let mut environment = StringMap::new();
    environment.insert(String::from("TOKEN"), String::from("value"));
    let current = ready_snapshot(
        AgentOsActorConfig::normalize(
            AgentOsActorConfigInput {
                environment: Some(environment),
                high_resolution_time: Some(true),
                ..Default::default()
            },
            no_checks(),
        )
        .expect("current config"),
    );
    let desired = AgentOsActorConfig::normalize(AgentOsActorConfigInput::default(), no_checks())
        .expect("default replacement");
    // The environment and timer precision reach the Core runtime.
    let next = replacement_snapshot(current, desired, ConfigCommitMode::Classify, false, 2)
        .expect("replacement");

    assert_eq!(next.revision, 8);
    assert_eq!(next.desired.environment, None);
    assert_eq!(next.desired.high_resolution_time, None);
    assert_eq!(next.applied_revision, Some(7));
    assert_eq!(next.status, ConfigApplyState::RestartRequired);
}

#[test]
fn live_software_change_preserves_pending_vm_configuration() {
    let ready = ready_snapshot(AgentOsActorConfig::default());
    let pending = replacement_snapshot(
        ready.clone(),
        AgentOsActorConfig {
            high_resolution_time: Some(true),
            ..ready.desired.clone()
        },
        ConfigCommitMode::Classify,
        false,
        2,
    )
    .expect("pending configuration");
    let mut desired = pending.desired.clone();
    desired.software.push(RemotePackageSource {
        url: String::from("https://example.com/package.aospkg"),
        digest: None,
        size: None,
        package_id: None,
    });

    let next = replacement_snapshot(pending, desired.clone(), ConfigCommitMode::Live, false, 3)
        .expect("live software update");
    assert_eq!(next.revision, 9);
    assert_eq!(next.applied_revision, Some(7));
    assert_eq!(next.status, ConfigApplyState::RestartRequired);

    let applied = replacement_snapshot(ready, desired, ConfigCommitMode::Live, false, 3)
        .expect("live update of an applied configuration");
    assert_eq!(applied.applied_revision, Some(8));
    assert_eq!(applied.status, ConfigApplyState::Ready);
}

#[test]
fn revision_checks_conflict_and_unconditional_replacements_are_monotonic() {
    let current = ready_snapshot(AgentOsActorConfig::default());
    let error = require_revision(&current, Some(6)).expect_err("stale writer must fail");
    assert!(error.message.contains("revision_conflict"));
    require_revision(&current, Some(7)).expect("current writer");
    require_revision(&current, None).expect("unconditional writer");

    let first = replacement_snapshot(
        current,
        AgentOsActorConfig {
            high_resolution_time: Some(true),
            ..Default::default()
        },
        ConfigCommitMode::Classify,
        false,
        2,
    )
    .expect("first replacement");
    let second = replacement_snapshot(
        first.clone(),
        AgentOsActorConfig {
            environment: Some(StringMap::new()),
            ..Default::default()
        },
        ConfigCommitMode::Classify,
        false,
        3,
    )
    .expect("last writer wins");
    assert_eq!(first.revision, 8);
    assert_eq!(second.revision, 9);
    assert_eq!(second.desired.environment, Some(StringMap::new()));
}

#[test]
fn replacements_keep_issues_only_without_a_restart() {
    let mut current = ready_snapshot(AgentOsActorConfig::default());
    current.issues.push(issue(4));
    let kept = replacement_snapshot_classified(current.clone(), AgentOsActorConfig::default(), false, 5).unwrap();
    assert_eq!(kept.issues.len(), 1);
    assert_eq!((kept.revision, kept.applied_revision, kept.status), (8, Some(8), ConfigApplyState::Ready));
    assert_eq!((kept.created_at_ms, kept.updated_at_ms), (1, 5));
    let cleared = replacement_snapshot_classified(current.clone(), AgentOsActorConfig::default(), true, 5).unwrap();
    assert!(cleared.issues.is_empty());
    assert_eq!((cleared.applied_revision, cleared.status), (Some(7), ConfigApplyState::RestartRequired));

    let mut pending = current.clone();
    pending.applied_revision = Some(6);
    pending.status = ConfigApplyState::RestartRequired;
    let next = replacement_snapshot_classified(pending, AgentOsActorConfig::default(), false, 5).unwrap();
    assert_eq!((next.revision, next.applied_revision, next.status), (8, Some(6), ConfigApplyState::RestartRequired));

    let mut top = current;
    top.revision = u64::MAX;
    assert_eq!(
        replacement_snapshot_classified(top, AgentOsActorConfig::default(), false, 5).unwrap_err().message,
        "actor config revision overflow"
    );
    let preview = AgentOsActorConfig::normalize(
        AgentOsActorConfigInput {
            preview: Some(PreviewPolicyInput { max_active: Some(4), default_ttl_ms: None, max_ttl_ms: None }),
            ..Default::default()
        },
        no_checks(),
    )
    .unwrap();
    let applied = replacement_snapshot(ready_snapshot(AgentOsActorConfig::default()), preview, ConfigCommitMode::Classify, true, 2).unwrap();
    assert_eq!(applied.applied_revision, Some(8));
    assert_eq!(applied.status, ConfigApplyState::Ready);
}

fn issue(n: i64) -> VmIssue {
    VmIssue { code: "c".into(), message: format!("m{n}"), at_ms: n }
}

#[test]
fn runtime_issues_keep_the_newest_at_the_cap() {
    let mut state = RuntimeState::new(1);
    for n in 0..(MAX_RUNTIME_ISSUES as i64 + 5) {
        state.push_issue(issue(n));
    }
    assert_eq!(state.issues.len(), MAX_RUNTIME_ISSUES);
    assert_eq!(state.issues[0].at_ms, 5);
    assert_eq!(state.issues.last().unwrap().at_ms, MAX_RUNTIME_ISSUES as i64 + 4);
}

#[test]
fn ready_runtime_reports_a_pending_desired_revision() {
    let mut state = RuntimeState::new(1);
    assert!(state.begin_boot(1, 1, 0).is_ok());
    state.vm_created();
    state.boot_succeeded(1, 10);
    assert_eq!(state.snapshot(Some(core_ready())).config_state, ConfigApplyState::Ready);
    state.set_desired_config_revision(2);
    let snapshot = state.snapshot(Some(core_ready()));
    assert_eq!(snapshot.lifecycle, VmLifecycleState::Ready);
    assert_eq!(snapshot.config_state, ConfigApplyState::RestartRequired);
    assert_eq!(snapshot.desired_config_revision, 2);
    assert_eq!(snapshot.applied_config_revision, Some(1));
}

fn core_ready() -> CoreSidecarStatus {
    CoreSidecarStatus { state: "ready".into(), active_vm_count: 1 }
}

#[test]
fn a_full_boot_reports_ready_with_every_required_package() {
    let mut state = RuntimeState::new(0);
    assert!(state.begin_boot(4, 9, 2).is_ok());
    state.vm_created();
    for url in ["https://a", "https://b"] {
        assert!(state.required_package_ready(ResolvedSoftware { url: url.into(), installed: installed(url) }).is_ok());
    }
    state.boot_succeeded(4, 77);
    let snapshot = state.snapshot(Some(core_ready()));
    assert_eq!(snapshot.lifecycle, VmLifecycleState::Ready);
    assert_eq!(snapshot.config_state, ConfigApplyState::Ready);
    assert_eq!(snapshot.desired_config_revision, 4);
    assert_eq!(snapshot.applied_config_revision, Some(4));
    assert_eq!(snapshot.generation, 9);
    assert_eq!(snapshot.packages.required_total, 2);
    assert_eq!(snapshot.packages.required_ready, 2);
    assert_eq!(snapshot.last_boot_at_ms, Some(77));
    assert_eq!(snapshot.core, Some(core_ready()));
    assert_eq!(state.resolved_software.len(), 2);
    assert_eq!(state.resolved_software[1].url, "https://b");
    assert!(state.check_access(Some(9)).is_ok());
}

#[test]
fn a_snapshot_has_a_sidecar_status_only_with_a_vm() {
    let mut state = RuntimeState::new(1);
    assert_eq!(state.snapshot(None).core, None);
    assert!(state.begin_boot(1, 1, 0).is_ok());
    state.vm_created();
    assert_eq!(state.snapshot(Some(core_ready())).core, Some(core_ready()));
    assert!(state.begin_stop());
    assert_eq!(state.snapshot(Some(core_ready())).core, None);
}

#[test]
fn an_oversized_required_package_count_fails_the_boot_start() {
    let mut state = RuntimeState::new(1);
    let error = state.begin_boot(2, 5, u32::MAX as usize + 1).unwrap_err();
    assert_eq!(error.code, ErrorCode::Internal);
    assert_eq!(state.lifecycle, VmLifecycleState::Booting);
    assert_eq!(state.generation, 5);
    assert_eq!(state.packages.required_total, 0);
}

fn installed(package_id: &str) -> ActorInstalledSoftware {
    ActorInstalledSoftware {
        package_id: package_id.into(),
        digest: package_id.into(),
        size_bytes: 42,
        package_name: "tool".into(),
        version: "1.0.0".into(),
        commands: vec!["tool".into()],
    }
}

#[test]
fn vm_access_checks_generation_then_readiness() {
    let mut state = RuntimeState::new(1);
    let error = state.check_access(None).unwrap_err();
    assert_eq!(error.code, ErrorCode::NotReady);
    assert_eq!(error.message, "not_ready: agentOS VM is Initializing; inspect vm.status and retry");
    assert!(state.begin_boot(1, 3, 1).is_ok());
    state.vm_created();
    assert!(state
        .required_package_ready(ResolvedSoftware { url: "https://p".into(), installed: installed("sha256:x") })
        .is_ok());
    state.boot_succeeded(1, 10);
    assert!(state.check_access(Some(3)).is_ok());
    let error = state.check_access(Some(2)).unwrap_err();
    assert_eq!(error.code, ErrorCode::StaleGeneration);
    assert_eq!(error.message, "stale_generation: handle generation 2 does not match current generation 3");
    assert!(state.begin_stop());
    state.stop_succeeded(20);
    assert_eq!(state.snapshot(None).config_state, ConfigApplyState::Applying);
    assert!(state.check_access(None).is_err());
    assert!(!state.begin_stop());
}

#[test]
fn failed_boots_and_stops_record_issues() {
    let mut state = RuntimeState::new(1);
    state.boot_failed("runtime_boot_failed", "create agentOS VM".into(), true, 5);
    assert_eq!(state.lifecycle, VmLifecycleState::Failed);
    assert_eq!(state.snapshot(None).config_state, ConfigApplyState::Failed);
    state.boot_failed("runtime_boot_timeout", "timeout".into(), false, 6);
    assert_eq!(state.lifecycle, VmLifecycleState::Degraded);
    state.stop_failed("runtime_shutdown_failed", "busy".into(), 7);
    assert!(state.vm_present);
    assert_eq!(state.issues.len(), 3);
    assert_eq!(state.issues[2].code, "runtime_shutdown_failed");
}

#[test]
fn live_software_changes_count_each_package_once() {
    let mut state = RuntimeState::new(1);
    state.software_installed("https://a".into(), installed("sha256:a"));
    state.software_installed("https://a".into(), installed("sha256:a"));
    assert_eq!(state.resolved_software.len(), 1);
    assert_eq!(state.packages.required_total, 1);
    state.software_uninstalled("sha256:a");
    assert!(state.resolved_software.is_empty());
    assert_eq!(state.packages.required_total, 0);
    state.software_uninstalled("sha256:a");
    assert_eq!(state.packages.required_total, 0);
}

fn source(url: &str, package_id: Option<&str>) -> RemotePackageSource {
    RemotePackageSource {
        url: url.into(),
        digest: package_id.map(String::from),
        size: None,
        package_id: package_id.map(String::from),
    }
}

#[test]
fn resolved_sources_keep_each_package_once() {
    let kept = dedup_resolved_sources(vec![
        source("https://a", Some("sha256:a")),
        source("https://b", None),
        source("https://c", Some("sha256:a")),
        source("https://d", Some("sha256:d")),
    ]);
    let urls: Vec<&str> = kept.iter().map(|s| s.url.as_str()).collect();
    assert_eq!(urls, vec!["https://a", "https://d"]);
}

#[test]
fn desired_sources_are_pinned_to_the_resolved_software() {
    let desired = vec![source("https://a", None)];
    let resolved = vec![ResolvedSoftware { url: "https://a".into(), installed: installed("sha256:a") }];
    let (pinned, changed) = pin_sources(&desired, &resolved).expect("aligned");
    assert!(changed);
    assert_eq!(pinned[0].package_id.as_deref(), Some("sha256:a"));
    assert_eq!(pinned[0].size, Some(42));
    let (_, changed) = pin_sources(&pinned, &resolved).expect("already pinned");
    assert!(!changed);
    let error = pin_sources(&vec![source("https://b", None)], &resolved).unwrap_err();
    assert_eq!(error.message, "runtime package resolution order does not match desired software");
    let error = pin_sources(&Vec::new(), &resolved).unwrap_err();
    assert_eq!(error.message, "runtime resolved 1 packages for 0 desired sources");
}

use agentos_actor::actor::filesystem::{
    ActorDirectoryEntry, ActorFileStat, DirEntry, DirEntryType, VirtualStat,
};
use agentos_actor::actor::software::{
    plan_software_install, plan_software_uninstall, software_commit_failure,
    SoftwareMutationResult,
};
use agentos_actor::error::ActorError;

fn package(n: u8) -> RemotePackageSource {
    let id = format!("sha256:{}", format!("{:x}", n % 16).repeat(64));
    RemotePackageSource {
        url: format!("https://example.com/{n}.aospkg"),
        digest: Some(id.clone()),
        size: Some(1),
        package_id: Some(id),
    }
}

#[test]
fn software_mutations_use_desired_state_when_vm_is_failed_or_pending() {
    let mut snapshot = ConfigSnapshot {
        revision: 2,
        desired: AgentOsActorConfig::default(),
        applied_revision: Some(2),
        status: ConfigApplyState::Ready,
        issues: Vec::new(),
        created_at_ms: 0,
        updated_at_ms: 0,
    };
    assert!(can_apply_software_live(&snapshot, true));
    assert!(!can_apply_software_live(&snapshot, false));
    snapshot.applied_revision = Some(1);
    assert!(!can_apply_software_live(&snapshot, true));
    for state in [ConfigApplyState::RestartRequired, ConfigApplyState::Failed] {
        snapshot.status = state;
        assert!(!can_apply_software_live(&snapshot, true));
        assert_eq!(software_commit_mode(false), ConfigCommitMode::Classify);
    }
    let result = SoftwareMutationResult {
        software: None,
        source: RemotePackageSource {
            url: "https://example.com/unavailable.aospkg".into(),
            digest: Some(format!("sha256:{}", "a".repeat(64))),
            package_id: Some(format!("sha256:{}", "a".repeat(64))),
            size: Some(1),
        },
        config: snapshot,
    };
    assert!(result.software.is_none());
    assert_eq!(result.config.revision, 2);
}

#[test]
fn installs_append_once_and_respect_the_software_cap() {
    let source = package(1);
    let id = source.package_id.clone().unwrap();
    let next = plan_software_install(AgentOsActorConfig::default(), source.clone(), &id)
        .unwrap()
        .expect("a new package is appended");
    assert_eq!(next.software, vec![source.clone()]);
    assert!(plan_software_install(next.clone(), source.clone(), &id).unwrap().is_none());

    let mut full = AgentOsActorConfig::default();
    for n in 0..128u16 {
        let mut entry = package(2);
        entry.package_id = Some(format!("sha256:{:064x}", n as u64 + 1000));
        full.software.push(entry);
    }
    assert_eq!(
        plan_software_install(full, source, &id).unwrap_err().message,
        "limit_exceeded: software has 128 entries; maximum is 128; uninstall a package before adding another"
    );
}

#[test]
fn uninstall_removes_the_first_matching_source() {
    let mut desired = AgentOsActorConfig::default();
    desired.software = vec![package(1), package(2), package(3)];
    let id = package(2).package_id.unwrap();
    let (removed, next) = plan_software_uninstall(desired.clone(), &id).unwrap();
    assert_eq!(removed, package(2));
    assert_eq!(next.software, vec![package(1), package(3)]);
    let missing = format!("sha256:{}", "9".repeat(64));
    let error = plan_software_uninstall(desired, &missing).unwrap_err();
    assert_eq!(error.code, ErrorCode::NotFound);
    assert_eq!(error.message, format!("software_not_found: {missing}"));
}

#[test]
fn failed_commits_name_the_rollback_failure_first() {
    let error = ActorError { code: ErrorCode::Internal, message: "disk full".into() };
    let plain = software_commit_failure("persist software installation", error.clone(), Ok(()));
    assert_eq!(plain.message, "persist software installation: disk full");
    let rollback = ActorError { code: ErrorCode::NotFound, message: "not_found: package".into() };
    let both = software_commit_failure("persist software uninstall", error, Err(rollback));
    assert_eq!(both.code, ErrorCode::Internal);
    assert_eq!(
        both.message,
        "persist software uninstall; Core rollback also failed: not_found: package: disk full"
    );
}

#[test]
fn file_metadata_names_byte_counts() {
    let stat = ActorFileStat::from(VirtualStat {
        mode: 0,
        size: 42,
        blocks: 0,
        dev: 0,
        rdev: 0,
        is_directory: false,
        is_symbolic_link: false,
        atime_ms: 0.0f64.to_bits(),
        mtime_ms: 0.0f64.to_bits(),
        ctime_ms: 0.0f64.to_bits(),
        birthtime_ms: 0.0f64.to_bits(),
        ino: 0,
        nlink: 0,
        uid: 0,
        gid: 0,
    });
    assert_eq!(stat.size_bytes, 42);

    let entry = ActorDirectoryEntry::from(DirEntry {
        path: "/file".into(),
        entry_type: DirEntryType::File,
        size: 42,
    });
    assert_eq!(entry.path, "/file");
    assert_eq!(entry.entry_type, DirEntryType::File);
    assert_eq!(entry.size_bytes, 42);
}

#[test]
fn installing_then_uninstalling_restores_the_software() {
    let mut desired = AgentOsActorConfig::default();
    desired.software = vec![package(1), package(2)];
    let added = package(3);
    let id = added.package_id.clone().unwrap();
    let installed = plan_software_install(desired.clone(), added.clone(), &id)
        .unwrap()
        .unwrap();
    let (removed, restored) = plan_software_uninstall(installed, &id).unwrap();
    assert_eq!(removed, added);
    assert_eq!(restored.software, desired.software);
}

#[test]
fn new_actors_desire_their_configuration_at_revision_one() {
    let state = agentos_actor::actor::actions::initial_state(AgentOsActorConfig::default(), 42);
    assert_eq!(state.config.revision, 1);
    assert_eq!(state.config.applied_revision, None);
    assert_eq!(state.config.status, ConfigApplyState::Applying);
    assert!(state.config.issues.is_empty());
    assert_eq!((state.config.created_at_ms, state.config.updated_at_ms), (42, 42));
}

use agentos_actor::actor::preview::{
    not_found_reply, preview_forward, preview_reply, preview_route, preview_start, PreviewNext, PreviewStart,
};

#[test]
fn preview_requests_without_a_live_lease_get_an_empty_not_found() {
    assert!(preview_route("/other/0123456789abcdef/").is_none());
    assert!(preview_route("/preview/../../control").is_none());
    let (token, guest) = preview_route("/preview/0123456789abcdef/app/index.html").unwrap();
    assert_eq!(token, "0123456789abcdef");
    assert_eq!(guest, "/app/index.html");
    match preview_start("/preview/../../control") {
        PreviewStart::Reply(reply) => assert_eq!(reply, not_found_reply()),
        PreviewStart::LookUpLease { .. } => panic!("an invalid token must not reach a lease lookup"),
    }
    match preview_start("/preview/0123456789abcdef") {
        PreviewStart::LookUpLease { token, guest_path } => {
            assert_eq!(token, "0123456789abcdef");
            assert_eq!(guest_path, "/");
        }
        PreviewStart::Reply(_) => panic!("a valid token is looked up"),
    }
    match preview_forward(None, guest.clone(), None, "GET".into(), &Vec::new(), Vec::new()).unwrap() {
        PreviewNext::Reply(reply) => {
            assert_eq!(reply.status, 404);
            assert!(reply.headers.is_empty() && reply.body.is_empty());
        }
        PreviewNext::Send(_) => panic!("no lease, no request"),
    }
    let headers = vec![
        ("Connection".to_string(), "keep-alive".to_string()),
        ("accept".to_string(), "text/html".to_string()),
    ];
    match preview_forward(Some(3000), guest.clone(), Some("a=1"), "GET".into(), &headers, b"x".to_vec()).unwrap() {
        PreviewNext::Send(request) => {
            assert_eq!(request.port, 3000);
            assert_eq!(request.path, "/app/index.html?a=1");
            assert_eq!(request.method, "GET");
            assert_eq!(request.headers.len(), 1);
        }
        PreviewNext::Reply(_) => panic!("a live lease forwards"),
    }
    let error = preview_forward(Some(3000), guest.clone(), None, "GET".into(), &headers, vec![0u8; 512 * 1024 + 1]).err().unwrap();
    assert_eq!(error.code, ErrorCode::LimitExceeded);
    assert!(preview_forward(Some(3000), guest, None, "BAD METHOD".into(), &headers, Vec::new()).is_err());
}

#[test]
fn preview_replies_are_never_cached_and_drop_hop_headers() {
    let headers = vec![
        ("content-type".to_string(), "text/html".to_string()),
        ("Transfer-Encoding".to_string(), "chunked".to_string()),
        ("Content-Length".to_string(), "5".to_string()),
        ("Cache-Control".to_string(), "max-age=60".to_string()),
        ("set-cookie".to_string(), "a=b".to_string()),
    ];
    let reply = preview_reply(201, &headers, b"hello".to_vec()).unwrap();
    assert_eq!(reply.status, 201);
    assert_eq!(reply.body, b"hello".to_vec());
    assert_eq!(
        reply.headers,
        vec![
            ("content-type".to_string(), "text/html".to_string()),
            ("set-cookie".to_string(), "a=b".to_string()),
            ("cache-control".to_string(), "no-store".to_string()),
        ]
    );
    let too_big = vec![0u8; 768 * 1024 + 1];
    let error = preview_reply(200, &Vec::new(), too_big).unwrap_err();
    assert_eq!(error.code, ErrorCode::LimitExceeded);
    assert!(error.message.contains("preview response body is 786433; maximum is 786432"));
}

use agentos_actor::actor::runtime::{BootAction, BootDriver, BootEvent, BootPhase};

#[test]
fn a_driven_boot_runs_its_steps_in_order_and_ends_ready() {
    let mut state = RuntimeState::new(0);
    let (mut boot, action) = BootDriver::start(&mut state, 5, 2, 1_000);
    assert_eq!(action, BootAction::ReserveGeneration);
    assert_eq!(boot.step(&mut state, BootEvent::VmCreated, 1_001), BootAction::Ignore);
    assert_eq!(
        boot.step(&mut state, BootEvent::GenerationReserved { generation: 7 }, 1_002),
        BootAction::CreateVm { deadline_ms: 31_002 }
    );
    assert_eq!(state.lifecycle, VmLifecycleState::Booting);
    assert_eq!(boot.step(&mut state, BootEvent::VmCreated, 1_003), BootAction::InstallPackage { index: 0, deadline_ms: 31_002 });
    let first = ResolvedSoftware { url: "https://a".into(), installed: installed("sha256:a") };
    assert_eq!(
        boot.step(&mut state, BootEvent::PackageInstalled { resolved: first }, 1_004),
        BootAction::InstallPackage { index: 1, deadline_ms: 31_002 }
    );
    let second = ResolvedSoftware { url: "https://b".into(), installed: installed("sha256:b") };
    assert_eq!(boot.step(&mut state, BootEvent::PackageInstalled { resolved: second }, 1_005), BootAction::Ready);
    assert_eq!(boot.phase, BootPhase::Done);
    let snapshot = state.snapshot(Some(core_ready()));
    assert_eq!(snapshot.lifecycle, VmLifecycleState::Ready);
    assert_eq!(snapshot.generation, 7);
    assert_eq!(snapshot.applied_config_revision, Some(5));
    assert_eq!(snapshot.packages.required_ready, 2);
    assert_eq!(snapshot.last_boot_at_ms, Some(1_005));
    assert_eq!(boot.step(&mut state, BootEvent::ShutdownSucceeded, 1_006), BootAction::Ignore);
}

#[test]
fn a_boot_past_its_deadline_cleans_up_and_degrades_when_cleanup_fails() {
    let mut state = RuntimeState::new(0);
    let (mut boot, _) = BootDriver::start(&mut state, 1, 1, 0);
    boot.step(&mut state, BootEvent::GenerationReserved { generation: 1 }, 0);
    boot.step(&mut state, BootEvent::VmCreated, 10);
    assert_eq!(boot.step(&mut state, BootEvent::DeadlinePassed, 30_000), BootAction::ShutDownVm { deadline_ms: 40_000 });
    assert_eq!(state.lifecycle, VmLifecycleState::Stopping);
    let action = boot.step(&mut state, BootEvent::ShutdownFailed { message: "busy".into() }, 30_500);
    assert_eq!(
        action,
        BootAction::Failed { message: "VM cleanup failed: stop agentOS Core runtime: busy".into() }
    );
    assert_eq!(state.lifecycle, VmLifecycleState::Degraded);
    assert!(state.vm_present);
    assert_eq!(state.issues.len(), 2);
    assert_eq!(state.issues[0].code, "runtime_shutdown_failed");
    assert_eq!(state.issues[1].code, "runtime_boot_timeout");
    assert_eq!(state.issues[1].message, "VM cleanup failed: stop agentOS Core runtime: busy");
}

#[test]
fn a_boot_that_fails_before_its_vm_exists_fails_cleanly() {
    let mut state = RuntimeState::new(0);
    let (mut boot, _) = BootDriver::start(&mut state, 1, 0, 0);
    boot.step(&mut state, BootEvent::GenerationReserved { generation: 1 }, 0);
    let action = boot.step(&mut state, BootEvent::VmCreationFailed, 5);
    assert_eq!(action, BootAction::Failed { message: "create agentOS VM".into() });
    assert_eq!(state.lifecycle, VmLifecycleState::Failed);
    assert_eq!(state.issues[0].code, "runtime_boot_failed");
    let mut state = RuntimeState::new(0);
    let (mut boot, _) = BootDriver::start(&mut state, 1, 0, 0);
    let action = boot.step(&mut state, BootEvent::GenerationFailed { message: "sqlite busy".into() }, 3);
    assert_eq!(action, BootAction::Failed { message: "reserve durable VM generation".into() });
    assert_eq!(state.issues[0].code, "vm_generation_allocation_failed");
    assert_eq!(state.issues[0].message, "sqlite busy");
}

#[test]
fn a_boot_replaces_a_running_vm_first() {
    let mut state = RuntimeState::new(0);
    assert!(state.begin_boot(1, 1, 0).is_ok());
    state.vm_created();
    state.boot_succeeded(1, 0);
    let (mut boot, action) = BootDriver::start(&mut state, 2, 0, 100);
    assert_eq!(action, BootAction::ShutDownVm { deadline_ms: 10_100 });
    assert_eq!(boot.phase, BootPhase::StoppingPrevious);
    assert_eq!(boot.step(&mut state, BootEvent::ShutdownSucceeded, 200), BootAction::ReserveGeneration);
    assert_eq!(state.last_shutdown_at_ms, Some(200));
    assert_eq!(state.lifecycle, VmLifecycleState::Initializing);
}
