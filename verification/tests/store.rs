use agentos_actor::actor::actions::{commit_is_applied, mark_runtime_result, started_event};
use agentos_actor::contract::config::AgentOsActorConfig;
use agentos_actor::actor::cron::{
    actor_cron_job, check_cron_revision, cron_capacity, cron_launch_error, list_cron_jobs,
    validate_cron_invoke, validate_cron_payload, validate_cron_schedule,
    validate_durable_invocation, CronInvoke, CronJobInfo, CronSchedule, DEFAULT_CRON_HISTORY,
    MAX_CRON_JOBS, PRIVATE_CRON_ACTION,
};
use agentos_actor::actor::store::{
    column_integer_required, column_text, integer_to_u64, preserve_rollback_error,
    preview_capacity, preview_count_from_rows, preview_lease_from_row, require_callback_database,
    require_expected_changes, schema_migrations, vm_generation_from_rows, ColumnValue,
    SchemaMigration, SCHEMA_VERSION,
};
use agentos_actor::contract::lifecycle::{
    ConfigApplyState, ConfigSnapshot, CoreSidecarStatus, PackageStartupStatus, VmIssue,
    VmLifecycleState, VmStatusSnapshot,
};
use agentos_actor::contract::process::ActorSpawnOptions;
use agentos_actor::error::{ActorError, ErrorCode};
use agentos_actor::strmap::StringMap;

fn internal(message: &str) -> ActorError {
    ActorError::new(ErrorCode::Internal, message.into())
}

#[test]
fn sqlite_callback_preserves_original_and_rollback_failures() {
    let error = preserve_rollback_error(
        internal("compare-and-set failed"),
        Err(internal("connection lost")),
    );
    let message = error.message.clone();
    assert!(message.contains("compare-and-set failed"));
    assert!(message.contains("rollback Rivet SQLite VM transaction failed: connection lost"));
    let error = preserve_rollback_error(internal("compare-and-set failed"), Ok(()));
    assert_eq!(error.message, "compare-and-set failed");
}

#[test]
fn sqlite_callback_checks_database_and_expected_changes() {
    assert!(require_callback_database("vm-1", "vm-1").is_ok());
    assert!(require_callback_database("vm-1", "vm-2").is_err());
    assert!(require_expected_changes(None, 9).is_ok());
    assert!(require_expected_changes(Some(0), 0).is_ok());
    assert!(require_expected_changes(Some(1), 1).is_ok());
    let error = require_expected_changes(Some(0), 1).expect_err("reject changed row count");
    assert!(error.message.contains("affected 1 rows; expected 0"));
}

#[test]
fn callback_database_errors_quote_both_names() {
    let error = require_callback_database("vm-1", "vm-\"2").unwrap_err();
    assert_eq!(
        error.message,
        "invalid SQLite callback database \"vm-\\\"2\"; expected \"vm-1\""
    );
    let error = preserve_rollback_error(
        ActorError::new(ErrorCode::RevisionConflict, "stale".into()),
        Err(internal("lost")),
    );
    assert_eq!(error.code, ErrorCode::RevisionConflict);
    assert_eq!(
        error.message,
        "rollback Rivet SQLite VM transaction failed: lost: revision_conflict: stale"
    );
}

#[test]
fn schema_upgrades_run_from_the_stored_version_to_the_current_one() {
    assert_eq!(
        schema_migrations(0).expect("fresh database"),
        vec![
            SchemaMigration::ConfigTable,
            SchemaMigration::PreviewTable,
            SchemaMigration::VmGenerationTable
        ]
    );
    assert_eq!(
        schema_migrations(2).expect("version two"),
        vec![SchemaMigration::VmGenerationTable]
    );
    assert!(schema_migrations(SCHEMA_VERSION).expect("current").is_empty());
    assert_eq!(
        schema_migrations(4).unwrap_err().message,
        "unsupported agentOS actor schema version 4; expected 3"
    );
    assert_eq!(
        schema_migrations(-1).unwrap_err().message,
        "unsupported agentOS actor schema version -1; expected 3"
    );
}

#[test]
fn stored_columns_decode_with_named_failures() {
    assert_eq!(column_integer_required(Some(&ColumnValue::Integer(7)), "revision").unwrap(), 7);
    assert_eq!(
        column_integer_required(Some(&ColumnValue::Null), "revision").unwrap_err().message,
        "actor config column revision is missing or not an integer"
    );
    assert_eq!(column_text(Some(&ColumnValue::Text("ready".into())), "status").unwrap(), "ready");
    assert_eq!(
        column_text(None, "status").unwrap_err().message,
        "actor config column status is missing or not text"
    );
    assert_eq!(integer_to_u64(5, "revision").unwrap(), 5);
    assert_eq!(
        integer_to_u64(-5, "revision").unwrap_err().message,
        "actor config column revision is negative"
    );
}

#[test]
fn vm_generations_and_preview_counts_come_from_the_first_cell() {
    assert_eq!(
        vm_generation_from_rows(&vec![vec![ColumnValue::Integer(3)]]).unwrap(),
        3
    );
    assert_eq!(
        vm_generation_from_rows(&Vec::new()).unwrap_err().message,
        "VM generation row is missing or exhausted"
    );
    assert_eq!(
        vm_generation_from_rows(&vec![vec![ColumnValue::Integer(-1)]]).unwrap_err().message,
        "VM generation is negative"
    );
    assert_eq!(
        preview_count_from_rows(&vec![vec![ColumnValue::Text("1".into())]]).unwrap_err().message,
        "preview lease count is missing or invalid"
    );
    assert_eq!(preview_count_from_rows(&vec![vec![ColumnValue::Integer(2)]]).unwrap(), 2);
}

#[test]
fn previews_are_capped() {
    assert!(preview_capacity(3, 4).is_ok());
    let error = preview_capacity(4, 4).unwrap_err();
    assert_eq!(
        error.message,
        "limit_exceeded: actor has 4 active previews; maximum is 4; expire a preview before creating another"
    );
    assert_eq!(
        preview_capacity(0, usize::MAX).unwrap_err().message,
        "preview limit exceeds sqlite integer"
    );
}

#[test]
fn preview_leases_decode_port_token_and_expiry() {
    let lease = preview_lease_from_row(&vec![
        ColumnValue::Text("abc".into()),
        ColumnValue::Integer(8080),
        ColumnValue::Integer(99),
    ])
    .expect("lease");
    assert_eq!(lease.token, "abc");
    assert_eq!(lease.port, 8080);
    assert_eq!(lease.expires_at_ms, 99);
    let error = preview_lease_from_row(&vec![
        ColumnValue::Text("abc".into()),
        ColumnValue::Integer(70000),
        ColumnValue::Integer(99),
    ])
    .unwrap_err();
    assert_eq!(error.message, "preview port is outside the u16 range");
    let error = preview_lease_from_row(&vec![ColumnValue::Null, ColumnValue::Integer(80)]).unwrap_err();
    assert_eq!(error.message, "actor config column preview token is missing or not text");
}

fn options() -> ActorSpawnOptions {
    ActorSpawnOptions {
        env: StringMap::new(),
        cwd: None,
        stdin_fd: None,
        stdout_fd: None,
        stderr_fd: None,
    }
}

fn invocation() -> CronInvoke {
    CronInvoke {
        schedule_name: String::from("nightly"),
        invoke_token: String::from("0123456789abcdef0123456789abcdef"),
        command: String::from("echo"),
        args: vec![String::from("hello")],
        options: options(),
        config_revision: 7,
    }
}

fn scheduled_job(invocation: &CronInvoke) -> CronJobInfo {
    CronJobInfo {
        name: invocation.schedule_name.clone(),
        is_cron: true,
        action: String::from(PRIVATE_CRON_ACTION),
        invocation: Some(invocation.clone()),
        expression: Some(String::from("* * * * *")),
        timezone: None,
        next_run_at: 100,
        last_run_at: None,
        max_history: DEFAULT_CRON_HISTORY,
    }
}

#[test]
fn private_cron_invocation_requires_current_durable_job() {
    let action = invocation();
    let scheduled = scheduled_job(&action);
    validate_durable_invocation(&action, Some(&scheduled)).expect("current durable job");

    let missing = validate_durable_invocation(&action, None).unwrap_err();
    assert!(missing.message.starts_with("not_found:"));

    let mut forged = action.clone();
    forged.invoke_token = String::from("ffffffffffffffffffffffffffffffff");
    let mismatch = validate_durable_invocation(&forged, Some(&scheduled)).unwrap_err();
    assert!(mismatch.message.starts_with("revision_conflict:"));

    let mut replaced = scheduled_job(&action);
    let mut other = action.clone();
    other.command = String::from("sh");
    replaced.invocation = Some(other);
    let mismatch = validate_durable_invocation(&action, Some(&replaced)).unwrap_err();
    assert!(mismatch.message.starts_with("revision_conflict:"));

    let mut wrong_kind = scheduled_job(&action);
    wrong_kind.is_cron = false;
    let mismatch = validate_durable_invocation(&action, Some(&wrong_kind)).unwrap_err();
    assert!(mismatch.message.starts_with("revision_conflict:"));
}

#[test]
fn cron_launch_errors_preserve_public_error_codes() {
    let error = ActorError::new(
        ErrorCode::RevisionConflict,
        "scheduled configuration is no longer current".into(),
    );
    let launch = cron_launch_error(&error);
    assert_eq!(launch.code, "revision_conflict");
    assert!(launch.message.contains("scheduled configuration"));
}

#[test]
fn cron_capacity_allows_replacing_a_job_at_the_limit() {
    let names: Vec<String> = (0..MAX_CRON_JOBS).map(|i| format!("job-{i}")).collect();
    assert!(cron_capacity(&names, &Some("job-5".into())).is_ok());
    let error = cron_capacity(&names, &Some("new".into())).unwrap_err();
    assert_eq!(
        error.message,
        "limit_exceeded: actor has 1024 cron jobs; maximum is 1024; cancel a job before scheduling another"
    );
    assert!(cron_capacity(&names, &None).is_err());
    assert!(cron_capacity(&names[..10].to_vec(), &None).is_ok());
}

fn schedule() -> CronSchedule {
    CronSchedule {
        name: None,
        expression: "* * * * *".into(),
        timezone: None,
        command: "echo".into(),
        args: vec!["hi".into()],
        options: options(),
        max_history: None,
    }
}

#[test]
fn cron_schedules_are_bounded_and_keep_a_history() {
    assert_eq!(validate_cron_schedule("nightly", &schedule()).unwrap(), DEFAULT_CRON_HISTORY);
    let mut s = schedule();
    s.max_history = Some(257);
    assert_eq!(
        validate_cron_schedule("nightly", &s).unwrap_err().message,
        "limit_exceeded: cron maxHistory must be between 0 and 256"
    );
    let mut s = schedule();
    s.timezone = Some(String::new());
    assert_eq!(
        validate_cron_schedule("nightly", &s).unwrap_err().message,
        "invalid_input: cron timezone cannot be empty"
    );
    assert_eq!(
        validate_cron_schedule("", &schedule()).unwrap_err().message,
        "invalid_input: cron name cannot be empty"
    );
    assert!(validate_cron_payload(64 * 1024).is_ok());
    assert_eq!(
        validate_cron_payload(64 * 1024 + 1).unwrap_err().message,
        "limit_exceeded: encoded cron action is 65537 bytes; maximum is 65536"
    );
    assert!(validate_cron_invoke(&invocation()).is_ok());
    assert_eq!(
        check_cron_revision(7, 8).unwrap_err().message,
        "revision_conflict: cron job was validated at revision 7 but current revision is 8"
    );
    assert!(check_cron_revision(8, 8).is_ok());
}

#[test]
fn cron_listings_keep_only_agentos_jobs_in_order() {
    let action = invocation();
    let mut foreign = scheduled_job(&action);
    foreign.name = "foreign".into();
    foreign.action = "other".into();
    let mut second = scheduled_job(&action);
    second.name = "second".into();
    let jobs = list_cron_jobs(vec![scheduled_job(&action), foreign.clone(), second]).expect("listing");
    assert_eq!(jobs.len(), 2);
    assert_eq!(jobs[0].name, "nightly");
    assert_eq!(jobs[0].expression, "* * * * *");
    assert_eq!(jobs[0].config_revision, 7);
    assert_eq!(jobs[1].name, "second");
    assert_eq!(
        actor_cron_job(foreign).unwrap_err().message,
        "invalid_input: cron job \"foreign\" is not an agentOS command job"
    );
    let mut undecodable = scheduled_job(&action);
    undecodable.invocation = None;
    assert_eq!(
        list_cron_jobs(vec![undecodable]).unwrap_err().message,
        "decode cron job \"nightly\" invocation"
    );
}

fn status(lifecycle: VmLifecycleState, applied: Option<u64>, booted: Option<i64>) -> VmStatusSnapshot {
    VmStatusSnapshot {
        lifecycle,
        config_state: ConfigApplyState::Ready,
        desired_config_revision: 3,
        applied_config_revision: applied,
        generation: 2,
        last_boot_at_ms: booted,
        last_shutdown_at_ms: None,
        packages: PackageStartupStatus {
            required_total: 0,
            required_ready: 0,
            optional_preload_total: 0,
            optional_preload_ready: 0,
            optional_preload_failed: 0,
            optional_preload_skipped: 0,
            optional_preload_warmed_bytes: 0,
            optional_preload_deadline_hit: false,
            optional_preload_coordinator_available: false,
        },
        issues: Vec::new(),
        core: None::<CoreSidecarStatus>,
    }
}

#[test]
fn boots_are_recorded_and_announced() {
    let mut snapshot = ConfigSnapshot {
        revision: 3,
        desired: AgentOsActorConfig::default(),
        applied_revision: None,
        status: ConfigApplyState::Applying,
        issues: Vec::new(),
        created_at_ms: 1,
        updated_at_ms: 1,
    };
    let mut ready = status(VmLifecycleState::Ready, Some(3), Some(10));
    ready.issues.push(VmIssue { code: "slow".into(), message: "slow boot".into(), at_ms: 9 });
    mark_runtime_result(&mut snapshot, ready, 11);
    assert_eq!(snapshot.status, ConfigApplyState::Ready);
    assert_eq!(snapshot.applied_revision, Some(3));
    assert_eq!(snapshot.issues.len(), 1);
    assert_eq!((snapshot.created_at_ms, snapshot.updated_at_ms), (1, 11));
    assert!(commit_is_applied(&snapshot));
    mark_runtime_result(&mut snapshot, status(VmLifecycleState::Failed, None, None), 12);
    assert_eq!(snapshot.status, ConfigApplyState::Failed);
    assert!(snapshot.issues.is_empty());
    assert!(!commit_is_applied(&snapshot));

    let event = started_event(&status(VmLifecycleState::Ready, Some(3), Some(10)))
        .unwrap()
        .expect("ready VM is announced");
    assert_eq!((event.generation, event.config_revision, event.booted_at_ms), (2, 3, 10));
    assert!(started_event(&status(VmLifecycleState::Failed, None, None)).unwrap().is_none());
    assert_eq!(
        started_event(&status(VmLifecycleState::Ready, None, Some(10))).unwrap_err().message,
        "ready runtime has no applied config revision"
    );
}

use agentos_actor::actor::store::{
    decode_snapshot, snapshot_bindings, sqlite_bindings, sqlite_result, BindParam, VmSqliteValue,
};

#[test]
fn sqlite_callback_preserves_bindings_and_result_metadata() {
    let values = vec![
        VmSqliteValue::Null,
        VmSqliteValue::Integer(i64::MAX),
        VmSqliteValue::Real(1.25f64.to_bits()),
        VmSqliteValue::Text(String::from("value")),
        VmSqliteValue::Blob(vec![0, 1, 255]),
    ];
    assert_eq!(
        sqlite_bindings(values.clone()),
        vec![
            BindParam::Null,
            BindParam::Integer(i64::MAX),
            BindParam::Float(1.25f64.to_bits()),
            BindParam::Text(String::from("value")),
            BindParam::Blob(vec![0, 1, 255]),
        ]
    );
    let columns = vec!["null", "integer", "real", "text", "blob"]
        .into_iter()
        .map(String::from)
        .collect::<Vec<_>>();
    let result = sqlite_result(
        columns.clone(),
        vec![vec![
            ColumnValue::Null,
            ColumnValue::Integer(i64::MAX),
            ColumnValue::Float(1.25f64.to_bits()),
            ColumnValue::Text(String::from("value")),
            ColumnValue::Blob(vec![0, 1, 255]),
        ]],
        2,
        Some(7),
    );
    assert_eq!(result.columns, columns);
    assert_eq!(result.rows, vec![values]);
    assert_eq!(result.changes, 2);
    assert_eq!(result.last_insert_row_id, Some(7));
}

fn snapshot_row(applied: ColumnValue, status: &str) -> Vec<ColumnValue> {
    vec![
        ColumnValue::Text("{}".into()),
        ColumnValue::Integer(4),
        applied,
        ColumnValue::Text(status.into()),
        ColumnValue::Text("[]".into()),
        ColumnValue::Integer(10),
        ColumnValue::Integer(11),
    ]
}

#[test]
fn snapshot_rows_decode_column_by_column() {
    let snapshot = decode_snapshot(
        &snapshot_row(ColumnValue::Integer(3), "restart_required"),
        Ok(AgentOsActorConfig::default()),
        Ok(Vec::new()),
    )
    .unwrap();
    assert_eq!(snapshot.revision, 4);
    assert_eq!(snapshot.applied_revision, Some(3));
    assert_eq!(snapshot.status, ConfigApplyState::RestartRequired);
    assert_eq!((snapshot.created_at_ms, snapshot.updated_at_ms), (10, 11));
    let unapplied = decode_snapshot(
        &snapshot_row(ColumnValue::Null, "applying"),
        Ok(AgentOsActorConfig::default()),
        Ok(Vec::new()),
    )
    .unwrap();
    assert_eq!(unapplied.applied_revision, None);

    let bad_desired = ActorError { code: ErrorCode::Internal, message: "decode desired".into() };
    let error = decode_snapshot(
        &snapshot_row(ColumnValue::Integer(-1), "ready"),
        Err(bad_desired),
        Ok(Vec::new()),
    )
    .unwrap_err();
    assert_eq!(error.message, "decode desired");
    let negative = decode_snapshot(
        &snapshot_row(ColumnValue::Integer(-1), "ready"),
        Ok(AgentOsActorConfig::default()),
        Ok(Vec::new()),
    )
    .unwrap_err();
    assert_eq!(negative.message, "actor config column applied_revision is negative");
    let status = decode_snapshot(
        &snapshot_row(ColumnValue::Integer(1), "done"),
        Ok(AgentOsActorConfig::default()),
        Ok(Vec::new()),
    )
    .unwrap_err();
    assert_eq!(status.message, "invalid actor config apply state \"done\"");
    let short = decode_snapshot(
        &snapshot_row(ColumnValue::Integer(1), "ready")[..6],
        Ok(AgentOsActorConfig::default()),
        Ok(Vec::new()),
    )
    .unwrap_err();
    assert_eq!(short.message, "actor config column updated_at_ms is missing or not an integer");
}

#[test]
fn snapshots_bind_in_column_order() {
    let mut snapshot = ConfigSnapshot {
        revision: 4,
        desired: AgentOsActorConfig::default(),
        applied_revision: None,
        status: ConfigApplyState::Ready,
        issues: Vec::new(),
        created_at_ms: 10,
        updated_at_ms: 11,
    };
    assert_eq!(
        snapshot_bindings(&snapshot, "{}".into(), "[]".into()).unwrap(),
        vec![
            BindParam::Text("{}".into()),
            BindParam::Integer(4),
            BindParam::Null,
            BindParam::Text("ready".into()),
            BindParam::Text("[]".into()),
            BindParam::Integer(10),
            BindParam::Integer(11),
        ]
    );
    snapshot.applied_revision = Some(u64::MAX);
    snapshot.revision = u64::MAX;
    assert_eq!(
        snapshot_bindings(&snapshot, "{}".into(), "[]".into()).unwrap_err().message,
        "applied config revision exceeds sqlite integer range"
    );
    snapshot.applied_revision = Some(1);
    assert_eq!(
        snapshot_bindings(&snapshot, "{}".into(), "[]".into()).unwrap_err().message,
        "config revision exceeds sqlite integer range"
    );
}

fn column_of(param: BindParam) -> ColumnValue {
    match param {
        BindParam::Null => ColumnValue::Null,
        BindParam::Integer(v) => ColumnValue::Integer(v),
        BindParam::Float(v) => ColumnValue::Float(v),
        BindParam::Text(v) => ColumnValue::Text(v),
        BindParam::Blob(v) => ColumnValue::Blob(v),
    }
}

#[test]
fn stored_snapshots_read_back() {
    let snapshot = ConfigSnapshot {
        revision: 9,
        desired: AgentOsActorConfig::default(),
        applied_revision: Some(8),
        status: ConfigApplyState::RestartRequired,
        issues: Vec::new(),
        created_at_ms: 3,
        updated_at_ms: 5,
    };
    let row: Vec<ColumnValue> = snapshot_bindings(&snapshot, "{}".into(), "[]".into())
        .unwrap()
        .into_iter()
        .map(column_of)
        .collect();
    let back = decode_snapshot(&row, Ok(AgentOsActorConfig::default()), Ok(Vec::new())).unwrap();
    assert_eq!(back.revision, snapshot.revision);
    assert_eq!(back.applied_revision, snapshot.applied_revision);
    assert_eq!(back.status, snapshot.status);
    assert_eq!((back.created_at_ms, back.updated_at_ms), (3, 5));
}

use agentos_actor::actor::store::{schema_bootstrap_sql, READ_SCHEMA_VERSION};

#[test]
fn each_schema_upgrade_ends_by_recording_its_version() {
    let bootstrap = schema_bootstrap_sql();
    assert_eq!(bootstrap.len(), 2);
    assert!(bootstrap[0].starts_with("CREATE TABLE IF NOT EXISTS agentos_actor_schema_version"));
    assert!(READ_SCHEMA_VERSION.starts_with("SELECT version"));
    let steps = schema_migrations(0).expect("fresh database");
    let statements: Vec<Vec<&str>> = steps.iter().map(|step| step.sql()).collect();
    assert_eq!(statements.len(), 3);
    assert!(statements[0][0].starts_with("CREATE TABLE agentos_actor_config"));
    assert!(statements[1][1].starts_with("CREATE INDEX agentos_actor_previews_expiration"));
    assert!(statements[2][1].starts_with("INSERT INTO agentos_actor_vm_generation"));
    for (index, step) in statements.iter().enumerate() {
        assert_eq!(*step.last().unwrap(), format!("UPDATE agentos_actor_schema_version SET version = {} WHERE id = 1", index + 1));
    }
}
