use agentos_actor::contract::action_input::{
    normalize_client_tags, revive_undefined_envelopes, CborValue, MAX_ACTION_INPUT_NODES,
};
use agentos_actor::plugin::args::{action_arg_lists, args_fit_any_exec, decode_action_args, ArgKind, RecordKind};
use agentos_actor::contract::action_input::binary_value;
use agentos_actor::plugin::health::{
    external_session_infos, push_capped, runtime_health, AgentExitEvent, HealthBuffers,
    LimitWarning, LiveVmHealth, RuntimeSidecarInfoDto, AGENT_EXITS_CAP, LIMIT_WARNINGS_CAP,
};
use agentos_actor::plugin::sessions::Vars;
use agentos_actor::plugin::permissions::{PendingPermissions, PENDING_PERMISSIONS_CAP};
use agentos_actor::plugin::surface::{action_contracts, event_contracts, find_action, ReplyShape};
use agentos_actor::strmap::StringMap;

fn text(s: &str) -> CborValue {
    CborValue::Text(s.to_owned())
}

fn encode(value: &ciborium::Value) -> Vec<u8> {
    let mut out = Vec::new();
    ciborium::into_writer(value, &mut out).unwrap();
    out
}

fn ctext(s: &str) -> ciborium::Value {
    ciborium::Value::Text(s.to_owned())
}

#[test]
fn malformed_arg_payloads_reject_for_every_action_contract() {
    for action in action_contracts() {
        if decode_action_args(action.name, b"not-cbor").is_ok() {
            panic!("{} accepted a malformed non-CBOR arg payload", action.name);
        }
    }
}

#[test]
fn unknown_action_name_rejects_at_contract_decode_layer() {
    let error = decode_action_args("definitelyNotAnAction", b"not-cbor")
        .expect_err("unknown actions must reject before dispatch");
    assert!(error.message.contains("unknown action definitelyNotAnAction"));
}

#[test]
fn malformed_payload_errors_show_a_bounded_hex_prefix() {
    let error = decode_action_args("readFile", b"not-cbor").unwrap_err();
    assert_eq!(error.message, "action args cbor (8 bytes): 6e6f742d63626f72");
    let long = vec![0xffu8; 100];
    let error = decode_action_args("readFile", &long).unwrap_err();
    assert!(error.message.starts_with("action args cbor (100 bytes): ffff"));
    assert!(error.message.ends_with('…'));
    assert_eq!(error.message.matches("ff").count(), 96);
}

#[test]
fn client_shaped_args_decode() {
    let read = encode(&ciborium::Value::Array(vec![ctext("/workspace/file.txt")]));
    assert!(decode_action_args("readFile", &read).is_ok());
    let exec = encode(&ciborium::Value::Array(vec![
        ctext("echo hello"),
        ciborium::Value::Map(vec![(ctext("cwd"), ctext("/workspace")), (ctext("env"), ciborium::Value::Map(vec![(ctext("A"), ctext("B"))]))]),
    ]));
    assert!(decode_action_args("exec", &exec).is_ok());
    let exec_short = encode(&ciborium::Value::Array(vec![ctext("echo hello")]));
    assert!(decode_action_args("exec", &exec_short).is_ok());
    let none = encode(&ciborium::Value::Array(vec![]));
    assert!(decode_action_args("listProcesses", &none).is_ok());
    let undefined_opts = encode(&ciborium::Value::Array(vec![
        ctext("echo"),
        ciborium::Value::Array(vec![ctext("$Undefined"), ciborium::Value::Integer(0.into())]),
    ]));
    assert!(decode_action_args("exec", &undefined_opts).is_ok());
}

fn client_arg(kind: ArgKind) -> ciborium::Value {
    match kind {
        ArgKind::Text => ctext("/workspace/file.txt"),
        ArgKind::Content => ctext("hello"),
        ArgKind::TextList => ciborium::Value::Array(vec![ctext("-l")]),
        ArgKind::Pid => ciborium::Value::Integer(42.into()),
        ArgKind::Port => ciborium::Value::Integer(8080.into()),
        ArgKind::Seconds => ciborium::Value::Integer(60.into()),
        ArgKind::OptionalRecord(_) => ciborium::Value::Null,
        ArgKind::Record(RecordKind::CronJob) => ciborium::Value::Map(vec![
            (ctext("schedule"), ctext("* * * * *")),
            (ctext("action"), ciborium::Value::Map(vec![(ctext("type"), ctext("exec")), (ctext("command"), ctext("echo"))])),
        ]),
        ArgKind::Record(_) => ciborium::Value::Map(vec![]),
        ArgKind::RecordList(_) => ciborium::Value::Array(vec![ciborium::Value::Map(vec![
            (ctext("path"), ctext("/workspace/a.txt")),
            (ctext("content"), ctext("a")),
        ])]),
    }
}

#[test]
fn client_arg_payloads_decode_for_every_action() {
    for action in action_contracts() {
        let lists = action_arg_lists(action.name)
            .unwrap_or_else(|| panic!("{} has no argument lists", action.name));
        assert!(!lists.is_empty(), "{} must accept at least one argument list", action.name);
        for (index, list) in lists.iter().enumerate() {
            let payload = encode(&ciborium::Value::Array(list.iter().map(|k| client_arg(*k)).collect()));
            if let Err(error) = decode_action_args(action.name, &payload) {
                panic!("{} argument list #{index} did not decode: {}", action.name, error.message);
            }
        }
    }
}

#[test]
fn runtime_and_session_listing_actions_decode() {
    let none = encode(&ciborium::Value::Array(vec![]));
    for name in ["getRuntimeHealth", "listSessions", "listPendingPermissions"] {
        assert!(decode_action_args(name, &none).is_ok(), "{name}");
    }
    let cancel = encode(&ciborium::Value::Array(vec![ctext("session-1")]));
    assert!(decode_action_args("cancelPrompt", &cancel).is_ok());
    assert!(decode_action_args("cancelPrompt", &none).is_err());
}

#[test]
fn invalid_client_arg_shapes_reject() {
    let bad_pid = encode(&ciborium::Value::Array(vec![ctext("42")]));
    assert!(decode_action_args("waitProcess", &bad_pid).is_err());
    let extra = encode(&ciborium::Value::Array(vec![ctext("unexpected")]));
    assert!(decode_action_args("listProcesses", &extra).is_err());
    let bad_env = encode(&ciborium::Value::Array(vec![
        ctext("echo hello"),
        ciborium::Value::Map(vec![(ctext("env"), ciborium::Value::Map(vec![(ctext("A"), ciborium::Value::Integer(42.into()))]))]),
    ]));
    assert!(decode_action_args("exec", &bad_env).is_err());
    let bad_recursive = encode(&ciborium::Value::Array(vec![
        ctext("/f"),
        ciborium::Value::Map(vec![(ctext("recursive"), ctext("yes"))]),
    ]));
    assert!(decode_action_args("deleteFile", &bad_recursive).is_err());
    let no_schedule = encode(&ciborium::Value::Array(vec![ciborium::Value::Map(vec![(ctext("id"), ctext("job-1"))])]));
    assert!(decode_action_args("scheduleCron", &no_schedule).is_err());
}

#[test]
fn every_contract_name_finds_its_own_row() {
    let contracts = action_contracts();
    for (index, action) in contracts.iter().enumerate() {
        assert_eq!(find_action(action.name), Some(index), "{}", action.name);
    }
    assert_eq!(find_action("nope"), None);
    assert_eq!(contracts[0].reply_shape, ReplyShape::Uint8Array);
    assert_eq!(event_contracts().len(), 13);
}

#[test]
fn undefined_envelopes_become_null_or_are_dropped() {
    let envelope = CborValue::Array(vec![text("$Undefined"), CborValue::Integer(0)]);
    assert_eq!(revive_undefined_envelopes(envelope), CborValue::Null);
    let object = CborValue::Object(vec![
        (text("a"), CborValue::Array(vec![text("$Undefined"), CborValue::Integer(0)])),
        (text("b"), text("kept")),
    ]);
    assert_eq!(revive_undefined_envelopes(object), CborValue::Object(vec![(text("b"), text("kept"))]));
}

#[test]
fn scalar_tags_normalize() {
    let mut value = CborValue::Array(vec![
        CborValue::Array(vec![text("$BigInt"), text("-18446744073709551616")]),
        CborValue::Array(vec![text("$Uint8Array"), text("aGVsbG8=")]),
        CborValue::Array(vec![text("$$Undefined"), CborValue::Integer(1)]),
        CborValue::Object(vec![(text("gone"), CborValue::Array(vec![text("$Undefined"), CborValue::Integer(0)]))]),
    ]);
    let mut remaining = MAX_ACTION_INPUT_NODES;
    normalize_client_tags(&mut value, 0, &mut remaining).unwrap();
    assert_eq!(
        value,
        CborValue::Array(vec![
            CborValue::Integer(-18446744073709551616),
            CborValue::Bytes(b"hello".to_vec()),
            CborValue::Array(vec![text("$Undefined"), CborValue::Integer(1)]),
            CborValue::Object(vec![]),
        ])
    );
    assert_eq!(remaining, MAX_ACTION_INPUT_NODES - 9);
}

fn malformed_scalar_cases() -> Vec<(CborValue, &'static str)> {
    vec![
        (CborValue::Array(vec![text("$BigInt"), text("12x")]), "invalid_input: $BigInt must contain a decimal 64-bit integer"),
        (CborValue::Array(vec![text("$BigInt"), text("18446744073709551616")]), "invalid_input: $BigInt exceeds the CBOR 64-bit integer range"),
        (CborValue::Array(vec![text("$Uint8Array"), CborValue::Integer(1)]), "invalid_input: $Uint8Array requires a string value"),
        (CborValue::Array(vec![text("$ArrayBuffer")]), "invalid_input: $ArrayBuffer requires exactly one string value"),
        (CborValue::Array(vec![text("$Uint8Array"), text("***")]), "invalid_input: invalid $Uint8Array base64"),
        (CborValue::Array(vec![text("$Undefined"), CborValue::Integer(1)]), "invalid_input: $Undefined requires the numeric sentinel 0"),
    ]
}

#[test]
fn malformed_scalar_tags_fail_with_typed_bounded_errors() {
    for ((value, message), (unchanged, _)) in malformed_scalar_cases().into_iter().zip(malformed_scalar_cases()) {
        let mut v = value;
        let mut remaining = MAX_ACTION_INPUT_NODES;
        let error = normalize_client_tags(&mut v, 0, &mut remaining).unwrap_err();
        assert_eq!(error.message, message);
        assert_eq!(v, unchanged);
    }
    let mut deep = CborValue::Null;
    for _ in 0..70 {
        deep = CborValue::Array(vec![deep]);
    }
    let mut remaining = MAX_ACTION_INPUT_NODES;
    let error = normalize_client_tags(&mut deep, 0, &mut remaining).unwrap_err();
    assert!(error.message.starts_with("limit_exceeded: action input exceeds nesting depth 64"));
}

#[test]
fn a_failed_normalization_leaves_the_visited_part_normalized_in_place() {
    let mut value = CborValue::Array(vec![
        CborValue::Array(vec![text("$BigInt"), text("5")]),
        CborValue::Array(vec![text("$$tag"), CborValue::Integer(1)]),
        CborValue::Object(vec![
            (text("gone"), CborValue::Array(vec![text("$Undefined"), CborValue::Integer(0)])),
            (text("bad"), CborValue::Array(vec![text("$Undefined"), CborValue::Integer(1)])),
        ]),
        CborValue::Array(vec![text("$BigInt"), text("7")]),
    ]);
    let mut remaining = MAX_ACTION_INPUT_NODES;
    let error = normalize_client_tags(&mut value, 0, &mut remaining).unwrap_err();
    assert_eq!(error.message, "invalid_input: $Undefined requires the numeric sentinel 0");
    assert_eq!(
        value,
        CborValue::Array(vec![
            CborValue::Integer(5),
            CborValue::Array(vec![text("$tag"), CborValue::Integer(1)]),
            CborValue::Object(vec![
                (text("gone"), CborValue::Null),
                (text("bad"), CborValue::Array(vec![text("$Undefined"), CborValue::Integer(1)])),
            ]),
            CborValue::Array(vec![text("$BigInt"), text("7")]),
        ])
    );
}

#[test]
fn insert_drops_oldest_at_cap_and_returns_it_for_the_warning() {
    let mut pending = PendingPermissions::new(120_000);
    for i in 0..PENDING_PERMISSIONS_CAP {
        assert!(pending.insert_at("session-1", &format!("perm-{i}"), None, "{}", 0).is_none());
    }
    let dropped = pending.insert_at("session-1", "perm-overflow", None, "{}", 0).expect("dropped");
    assert_eq!(dropped.permission_id, "perm-0");
    let rows = pending.list_at(0);
    assert_eq!(rows.len(), PENDING_PERMISSIONS_CAP);
    assert_eq!(rows[0].permission_id, "perm-1");
    assert_eq!(rows.last().unwrap().permission_id, "perm-overflow");
}

#[test]
fn expiry_sweep_drops_stale_entries_on_access() {
    let timeout = 120_000;
    let mut pending = PendingPermissions::new(timeout);
    pending.insert_at("session-1", "perm-old", None, "{}", 0);
    pending.insert_at("session-1", "perm-new", None, "{}", 1_000);
    let rows = pending.list_at(timeout);
    assert_eq!(rows.len(), 1);
    assert_eq!(rows[0].permission_id, "perm-new");
    assert!(!pending.contains_at("session-1", "perm-old", timeout));
    assert!(!pending.remove_at("session-1", "perm-old", timeout));
}

#[test]
fn insert_remove_lifecycle_round_trips() {
    let mut pending = PendingPermissions::new(120_000);
    assert!(pending.insert_at("session-1", "perm-1", Some("run a command"), "{\"toolCall\":{\"title\":\"Bash\"}}", 0).is_none());
    assert!(pending.contains_at("session-1", "perm-1", 0));
    assert!(pending.remove_at("session-1", "perm-1", 0));
    assert!(!pending.contains_at("session-1", "perm-1", 0));
    assert!(!pending.remove_at("session-1", "perm-1", 0));
    assert!(pending.list_at(0).is_empty());
}

#[test]
fn reinserting_the_same_key_replaces_instead_of_duplicating() {
    let mut pending = PendingPermissions::new(120_000);
    pending.insert_at("session-1", "perm-1", Some("first"), "{}", 0);
    pending.insert_at("session-1", "perm-1", Some("second"), "{}", 1);
    let rows = pending.list_at(1);
    assert_eq!(rows.len(), 1);
    assert_eq!(rows[0].description.as_deref(), Some("second"));
}

fn warning(limit: &str) -> LimitWarning {
    LimitWarning {
        limit: limit.to_owned(),
        category: "queue".to_owned(),
        observed: 80.0f64.to_bits(),
        capacity: 100.0f64.to_bits(),
        fill_percent: 80.0f64.to_bits(),
    }
}

fn exit_event(session_id: &str) -> AgentExitEvent {
    AgentExitEvent {
        session_id: session_id.to_owned(),
        agent_type: "pi".to_owned(),
        process_id: "proc-1".to_owned(),
        exit_code: Some(1),
        restart: "restarted".to_owned(),
        restart_count: 1,
        max_restarts: 3,
    }
}

#[test]
fn buffers_drop_oldest_at_cap() {
    let mut buffers = HealthBuffers::default();
    for i in 0..(LIMIT_WARNINGS_CAP + 5) {
        buffers.push_limit_warning(i as u64, warning(&format!("limit-{i}")));
    }
    for i in 0..(AGENT_EXITS_CAP + 5) {
        buffers.push_agent_exit(i as u64, format!("session-{i}"), exit_event("live-1"));
    }
    let (warnings, exits) = buffers.snapshot();
    assert_eq!(warnings.len(), LIMIT_WARNINGS_CAP);
    assert_eq!(warnings[0].limit, "limit-5", "oldest warnings dropped");
    assert_eq!(exits.len(), AGENT_EXITS_CAP);
    assert_eq!(exits[0].session_id, "session-5", "oldest exits dropped");

    let mut buf = Vec::new();
    for i in 0..5 {
        push_capped(&mut buf, i, 3);
    }
    assert_eq!(buf, vec![2, 3, 4]);
}

#[test]
fn agent_exit_rows_use_the_external_session_id() {
    let mut buffers = HealthBuffers::default();
    buffers.push_agent_exit(1, "external-1".to_owned(), exit_event("live-9"));
    let (_, exits) = buffers.snapshot();
    assert_eq!(exits[0].session_id, "external-1");
}

#[test]
fn runtime_health_reports_unbooted_vm_with_surviving_buffers() {
    let mut buffers = HealthBuffers::default();
    buffers.push_limit_warning(1, warning("vm_open_fds"));
    buffers.push_agent_exit(2, "session-1".to_owned(), exit_event("session-1"));

    let health = runtime_health(None, &buffers);

    assert!(!health.booted);
    assert_eq!(health.sessions, None);
    assert!(health.sidecar.is_none());
    assert_eq!(health.warnings.len(), 1);
    assert_eq!(health.agent_exits.len(), 1);
    assert!(health.stderr_tail.is_empty());
}

#[test]
fn runtime_health_reports_a_live_vm() {
    let mut buffers = HealthBuffers::new();
    buffers.push_limit_warning(7, warning("vm_memory"));
    let health = runtime_health(
        Some(LiveVmHealth {
            sessions: 3,
            sidecar: RuntimeSidecarInfoDto { state: "ready".into(), active_vm_count: 1 },
        }),
        &buffers,
    );
    assert!(health.booted);
    assert_eq!(health.sessions, Some(3));
    assert_eq!(health.sidecar.as_ref().map(|s| s.state.as_str()), Some("ready"));
    assert_eq!(health.warnings[0].ts, 7);
    assert_eq!(f64::from_bits(health.warnings[0].fill_percent), 80.0);
}

#[test]
fn external_session_infos_invert_the_live_remap() {
    let mut vars = Vars::new(120_000);
    vars.live_sessions.insert("external-1".into(), "live-1".into());
    let rows = external_session_infos(
        vec![("live-1".into(), "pi".into()), ("native".into(), "codex".into())],
        &vars,
    );
    assert_eq!(vars.live_id("external-1"), "live-1");
    assert_eq!(vars.live_id("native"), "native");
    vars.pending_permissions.insert("external-1", "perm-1", None, "{}");
    assert!(vars.pending_permissions.contains("external-1", "perm-1"));
    vars.clear();
    assert_eq!(vars.live_id("external-1"), "external-1");
    assert!(!vars.pending_permissions.contains("external-1", "perm-1"));
    assert!(vars.pending_permissions.list().is_empty());
    assert_eq!(rows[0].session_id, "external-1");
    assert_eq!(rows[0].agent_type, "pi");
    assert_eq!(rows[1].session_id, "native");
}

#[test]
fn remapped_sessions_resolve_to_their_live_id() {
    let mut vars = Vars::new(120_000);
    assert_eq!(vars.live_id("external-2"), "external-2");
    vars.live_sessions.insert("external-2".into(), "live-1".into());
    vars.live_sessions.insert("external-2".into(), "live-2".into());
    assert_eq!(vars.live_id("external-2"), "live-2");
}

use agentos_actor::plugin::host_loop::{
    queue_pressure_warning, refused_job_reply, route_event, teardown_reason, ActorJob, HostEvent,
    LoopStep, QueueRefusal, ShutdownState, ShutdownStep, PENDING_ACTOR_JOBS_WARN_REMAINING,
};

#[test]
fn stateful_events_queue_and_lifecycle_events_answer_at_once() {
    assert_eq!(
        route_event(HostEvent::Action { token: 1, name: "exec".into(), args: vec![0x80] }),
        LoopStep::Enqueue(ActorJob::Action { token: 1, name: "exec".into(), args: vec![0x80] })
    );
    assert_eq!(
        route_event(HostEvent::Http { token: 2, request: vec![1] }),
        LoopStep::Enqueue(ActorJob::Http { token: 2, request: vec![1] })
    );
    assert_eq!(route_event(HostEvent::Sleep { token: 3 }), LoopStep::Enqueue(ActorJob::Sleep { token: 3 }));
    assert_eq!(route_event(HostEvent::Destroy { token: 4 }), LoopStep::Enqueue(ActorJob::Destroy { token: 4 }));
    for (event, token) in [
        (HostEvent::ConnPreflight { token: 5 }, 5),
        (HostEvent::ConnOpen { token: 6 }, 6),
        (HostEvent::Subscribe { token: 7 }, 7),
        (HostEvent::SerializeState { token: 8 }, 8),
    ] {
        assert_eq!(route_event(event), LoopStep::ReplyOk(token));
    }
    assert_eq!(
        route_event(HostEvent::QueueSend { token: 9 }),
        LoopStep::ReplyErr(9, "event not supported by agent-os actor".into())
    );
    assert_eq!(
        route_event(HostEvent::WebSocketOpen { token: 10 }),
        LoopStep::ReplyErr(10, "event not supported by agent-os actor".into())
    );
    assert_eq!(route_event(HostEvent::ConnClosed), LoopStep::Nothing);
    assert_eq!(ActorJob::Sleep { token: 11 }.token(), 11);
    assert_eq!(teardown_reason(&ActorJob::Destroy { token: 1 }), Some("destroy"));
    assert_eq!(teardown_reason(&ActorJob::Sleep { token: 1 }), Some("sleep"));
    assert_eq!(teardown_reason(&ActorJob::Http { token: 1, request: Vec::new() }), None);
}

#[test]
fn the_job_queue_warns_near_its_bound_and_names_refusals() {
    assert_eq!(
        queue_pressure_warning(PENDING_ACTOR_JOBS_WARN_REMAINING).as_deref(),
        Some("agent-os actor job queue is near its limit: remaining=13 limit=64")
    );
    assert_eq!(queue_pressure_warning(PENDING_ACTOR_JOBS_WARN_REMAINING + 1), None);
    assert_eq!(
        refused_job_reply(QueueRefusal::Full),
        "agent-os actor pending-job limit 64 exceeded; raise MAX_PENDING_ACTOR_JOBS in the plugin build"
    );
    assert_eq!(refused_job_reply(QueueRefusal::Closed), "agent-os actor worker unavailable");
}

#[test]
fn shutdown_requests_share_one_join_and_its_outcome() {
    let mut state = ShutdownState::default();
    assert_eq!(state.request(1), ShutdownStep::StartJoin);
    assert_eq!(state.request(2), ShutdownStep::Wait);
    let waiters = state.complete(Err("agent-os actor thread panicked".into()));
    assert_eq!(waiters, vec![1, 2]);
    assert_eq!(
        state.request(3),
        ShutdownStep::Finish(Err("agent-os actor thread panicked".into()))
    );
    let mut clean = ShutdownState::new();
    assert_eq!(clean.request(1), ShutdownStep::StartJoin);
    assert_eq!(clean.complete(Ok(())), vec![1]);
    assert_eq!(clean.request(2), ShutdownStep::Finish(Ok(())));
}

use agentos_actor::plugin::dto::{
    process_exit_payload, process_output_payload, shell_data_payload, shell_exit_payload,
};

fn key(name: &str) -> CborValue {
    CborValue::Text(name.into())
}

#[test]
fn stream_event_payloads_name_their_fields() {
    assert_eq!(
        shell_data_payload("shell-1", vec![1, 2]),
        CborValue::Object(vec![
            (key("shellId"), CborValue::Text("shell-1".into())),
            (key("data"), CborValue::Bytes(vec![1, 2])),
        ])
    );
    assert_eq!(
        shell_exit_payload("shell-1", -1),
        CborValue::Object(vec![
            (key("shellId"), CborValue::Text("shell-1".into())),
            (key("exitCode"), CborValue::Integer(-1)),
        ])
    );
    assert_eq!(
        process_output_payload(42, "stderr", vec![9]),
        CborValue::Object(vec![
            (key("pid"), CborValue::Integer(42)),
            (key("stream"), CborValue::Text("stderr".into())),
            (key("data"), CborValue::Bytes(vec![9])),
        ])
    );
    assert_eq!(
        process_exit_payload(42, 0),
        CborValue::Object(vec![
            (key("pid"), CborValue::Integer(42)),
            (key("exitCode"), CborValue::Integer(0)),
        ])
    );
}

#[test]
fn decoded_binary_envelopes_are_bounded() {
    assert_eq!(binary_value("$Uint8Array", Some(b"hi".to_vec())).unwrap(), CborValue::Bytes(b"hi".to_vec()));
    let error = binary_value("$ArrayBuffer", None).unwrap_err();
    assert_eq!(error.message, "invalid_input: invalid $ArrayBuffer base64");
    let error = binary_value("$Uint8Array", Some(vec![0u8; 768 * 1024 + 1])).unwrap_err();
    assert_eq!(error.message, "limit_exceeded: $Uint8Array exceeds the 768 KiB binary input limit; split the payload");
    assert!(binary_value("$Uint8Array", Some(vec![0u8; 768 * 1024])).is_ok());
}

#[test]
fn argument_arrays_fit_the_declared_lists() {
    let lists = action_arg_lists("exec").unwrap();
    let short = CborValue::Array(vec![text("echo hi")]);
    assert!(args_fit_any_exec(&short, &lists));
    let wrong = CborValue::Array(vec![CborValue::Integer(1)]);
    assert!(!args_fit_any_exec(&wrong, &lists));
    let pid = action_arg_lists("waitProcess").unwrap();
    assert!(args_fit_any_exec(&CborValue::Array(vec![CborValue::Integer(42)]), &pid));
    assert!(!args_fit_any_exec(&CborValue::Array(vec![text("42")]), &pid));
}
