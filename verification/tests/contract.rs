use agentos_actor::actor::filesystem::FileBytes;
use agentos_actor::contract::config::{
    normalize_filesystem, normalize_remote_source, validate_permissions, AgentOsActorConfig,
    AgentOsActorConfigInput, ConfigChecks, FsPermissionRule, HostedFilesystemBackend,
    HostedFilesystemBackendInput, HostedFilesystemConfig, HostedFilesystemConfigInput,
    HostedFilesystemMountInput, HostedRootFilesystem, HostedRootFilesystemInput,
    PatternPermissionRule, PermissionRuleSets, PreviewPolicy, PreviewPolicyInput,
    RemotePackageSource, RemotePackageSourceInput, MAX_ENVIRONMENT_ENTRIES,
    MAX_PERMISSION_RULES_PER_DOMAIN, MIN_PREVIEW_TTL_MS,
};
use agentos_actor::contract::language::{
    actor_context_descriptor, actor_execution_descriptor, actor_execution_result,
    actor_typescript_check_result, ActorExecutionOutcome, CodeExecutionResult, ContextDescriptor,
    ExecutionDescriptor, ExecutionErrorData, ExecutionOutcome, ExecutionState,
    RetainedExecutionLanguage, TypeScriptCheckResult, TypeScriptDiagnostic, MAX_DIAGNOSTICS,
    MAX_RESULT_BYTES,
};
use agentos_actor::contract::network::{
    actor_http_response, actor_stream_chunk, actor_stream_head, is_hop_by_hop_header,
    validate_http_request, validate_limit, validate_token, ActorHttpRequest, HttpResponse,
    HttpStreamChunk, HttpStreamHead, MAX_HTTP_RESPONSE_BYTES, MAX_STREAM_CHUNK_BYTES,
    MAX_STREAM_LIFETIME_MS,
};
use agentos_actor::contract::process::{
    actor_exec_result, actor_process_info, actor_process_tree_node, count_process_tree_nodes,
    validate_arguments, validate_command, validate_dimensions, validate_exec_options,
    validate_spawn_options, validate_terminal_options, ActorExecOptions, ActorSpawnOptions,
    ActorTerminalOptions, ExecResult, ProcessInfo, ProcessStatus, ProcessTreeNode,
    SpawnedProcessInfo, MAX_ARGUMENTS, MAX_ARGUMENT_BYTES, MAX_EXEC_OUTPUT_BYTES,
};
use agentos_actor::error::ErrorCode;
use agentos_actor::strmap::StringMap;

fn no_checks() -> ConfigChecks {
    ConfigChecks {
        allowed_node_builtins: None,
        loopback_exempt_ports: Ok(Vec::new()),
        software: Vec::new(),
        permissions_encoded_len: 0,
    }
}

fn empty_input() -> AgentOsActorConfigInput {
    AgentOsActorConfigInput {
        environment: None,
        allowed_node_builtins: None,
        high_resolution_time: None,
        loopback_exempt_ports: None,
        permissions: None,
        filesystem: None,
        software: None,
        preview: None,
    }
}

fn mount(path: &str, namespace: &str) -> HostedFilesystemMountInput {
    HostedFilesystemMountInput {
        path: path.into(),
        backend: HostedFilesystemBackendInput::Durable {
            namespace: Some(namespace.into()),
        },
        read_only: false,
    }
}

fn no_exec_options() -> ActorExecOptions {
    ActorExecOptions {
        env: StringMap::new(),
        cwd: None,
        stdin: None,
        timeout_ms: None,
        capture_stdio: None,
    }
}

fn no_spawn_options() -> ActorSpawnOptions {
    ActorSpawnOptions {
        env: StringMap::new(),
        cwd: None,
        stdin_fd: None,
        stdout_fd: None,
        stderr_fd: None,
    }
}

fn no_terminal_options() -> ActorTerminalOptions {
    ActorTerminalOptions {
        command: None,
        args: Vec::new(),
        env: StringMap::new(),
        cwd: None,
        cols: None,
        rows: None,
    }
}

#[test]
fn filesystem_registry_rejects_reserved_and_overlapping_mounts() {
    for path in [
        "/",
        "/proc",
        "/opt/agentos/packages",
        "/a/../b",
        "//proc",
        "/opt//agentos",
        "/etc//agentos/config",
        "/workspace//cache",
        "/workspace\0suffix",
    ] {
        let error = normalize_filesystem(HostedFilesystemConfigInput {
            root: None,
            mounts: vec![mount(path, "one")],
        })
        .expect_err("unsafe mount must fail");
        assert!(error.message.contains("mount path"));
    }

    let error = normalize_filesystem(HostedFilesystemConfigInput {
        root: None,
        mounts: vec![mount("/workspace", "one"), mount("/workspace/cache", "two")],
    })
    .expect_err("overlap must fail");
    assert!(error.message.contains("overlaps"));
}

#[test]
fn filesystem_registry_is_closed_and_materializes_namespaces() {
    let mut input = empty_input();
    input.filesystem = Some(HostedFilesystemConfigInput {
        root: Some(HostedRootFilesystemInput::Durable {
            namespace: None,
            read_only: false,
        }),
        mounts: vec![HostedFilesystemMountInput {
            path: "/workspace".into(),
            backend: HostedFilesystemBackendInput::Durable { namespace: None },
            read_only: false,
        }],
    });
    let normalized =
        AgentOsActorConfig::normalize(input, no_checks()).expect("normalize hosted filesystem");

    assert_eq!(
        normalized.filesystem.root,
        HostedRootFilesystem::Durable {
            namespace: "root".into(),
            read_only: false,
        }
    );
    assert_eq!(
        normalized.filesystem.mounts[0].backend,
        HostedFilesystemBackend::Durable {
            namespace: "mount-0".into(),
        }
    );
    assert_eq!(normalized.filesystem.mounts[0].path, "/workspace");
}

#[test]
fn environment_and_preview_preserve_explicit_empty_and_false_values() {
    let mut input = empty_input();
    input.environment = Some(StringMap::new());
    input.high_resolution_time = Some(false);
    input.preview = Some(PreviewPolicyInput {
        default_ttl_ms: Some(MIN_PREVIEW_TTL_MS),
        max_ttl_ms: Some(MIN_PREVIEW_TTL_MS),
        max_active: Some(1),
    });
    let normalized =
        AgentOsActorConfig::normalize(input, no_checks()).expect("normalize explicit values");

    assert_eq!(normalized.environment.map(|e| e.len()), Some(0));
    assert_eq!(normalized.high_resolution_time, Some(false));
    assert_eq!(normalized.preview.max_active, 1);
    assert_eq!(normalized.preview.max_ttl_ms, MIN_PREVIEW_TTL_MS);
}

#[test]
fn environment_and_permissions_are_bounded() {
    let environment = StringMap::from_pairs(
        (0..=MAX_ENVIRONMENT_ENTRIES)
            .map(|index| (format!("KEY_{index}"), String::new()))
            .collect(),
    );
    let mut input = empty_input();
    input.environment = Some(environment);
    let error = AgentOsActorConfig::normalize(input, no_checks())
        .expect_err("oversized environment must fail");
    assert!(error.message.contains("environment has"));

    let permissions = PermissionRuleSets {
        fs: None,
        network: Some(
            (0..=MAX_PERMISSION_RULES_PER_DOMAIN)
                .map(|_| PatternPermissionRule {
                    operations: None,
                    patterns: None,
                })
                .collect(),
        ),
        child_process: None,
        process: None,
        env: None,
        binding: None,
    };
    let mut input = empty_input();
    input.permissions = Some(permissions);
    let error = AgentOsActorConfig::normalize(input, no_checks())
        .expect_err("oversized permission rule set must fail");
    assert!(error.message.contains("maximum is 256"));
}

#[test]
fn default_input_normalizes_to_the_default_configuration() {
    let normalized = AgentOsActorConfig::normalize(empty_input(), no_checks()).expect("defaults");
    assert!(normalized.environment.is_none());
    assert_eq!(normalized.allowed_node_builtins, None);
    assert_eq!(normalized.loopback_exempt_ports, Vec::<u16>::new());
    assert_eq!(normalized.filesystem, HostedFilesystemConfig::default());
    assert!(normalized.software.is_empty());
    assert_eq!(normalized.preview, PreviewPolicy::default());
}

#[test]
fn configuration_failures_come_in_a_fixed_order() {
    let mut input = empty_input();
    input.allowed_node_builtins = Some(vec!["fs".into()]);
    input.preview = Some(PreviewPolicyInput {
        default_ttl_ms: None,
        max_ttl_ms: None,
        max_active: Some(0),
    });
    let mut checks = no_checks();
    checks.allowed_node_builtins = Some(Err(agentos_actor::error::ActorError::new(
        ErrorCode::InvalidInput,
        "allowedNodeBuiltins has an unknown module".into(),
    )));
    checks.loopback_exempt_ports = Err(agentos_actor::error::ActorError::new(
        ErrorCode::LimitExceeded,
        "loopbackExemptPorts has too many entries".into(),
    ));
    let error = AgentOsActorConfig::normalize(input, checks).expect_err("builtins fail first");
    assert_eq!(error.message, "invalid_input: allowedNodeBuiltins has an unknown module");

    let mut input = empty_input();
    input.preview = Some(PreviewPolicyInput {
        default_ttl_ms: None,
        max_ttl_ms: None,
        max_active: Some(0),
    });
    let mut checks = no_checks();
    checks.permissions_encoded_len = 300 * 1024;
    input.permissions = Some(PermissionRuleSets {
        fs: None,
        network: None,
        child_process: None,
        process: None,
        env: None,
        binding: None,
    });
    let error = AgentOsActorConfig::normalize(input, checks).expect_err("permissions before preview");
    assert_eq!(
        error.message,
        "limit_exceeded: permissions contains 307200 bytes; maximum is 262144; reduce it or raise MAX_PERMISSION_CONFIG_BYTES"
    );

    let mut input = empty_input();
    input.allowed_node_builtins = Some(vec!["path".into(), "fs".into(), "path".into()]);
    let mut checks = no_checks();
    checks.allowed_node_builtins = Some(Ok(vec!["fs".into(), "path".into()]));
    checks.loopback_exempt_ports = Ok(vec![80, 8080]);
    let normalized = AgentOsActorConfig::normalize(input, checks).expect("canonical lists");
    assert_eq!(normalized.allowed_node_builtins, Some(vec!["fs".into(), "path".into()]));
    assert_eq!(normalized.loopback_exempt_ports, vec![80, 8080]);
}

#[test]
fn permission_rule_labels_name_the_domain_rule_and_field() {
    let rules = PermissionRuleSets {
        fs: Some(vec![
            FsPermissionRule {
                operations: Some(vec!["read".into()]),
                paths: None,
            },
            FsPermissionRule {
                operations: None,
                paths: Some(vec!["/tmp\0x".into()]),
            },
        ]),
        network: None,
        child_process: None,
        process: None,
        env: None,
        binding: None,
    };
    let error = validate_permissions(Some(&rules), 10).expect_err("NUL in a path");
    assert_eq!(
        error.message,
        "limit_exceeded: permissions.fs.rules[1].paths value contains 6 bytes or NUL; maximum is 4096; reduce it or raise MAX_PERMISSION_VALUE_BYTES"
    );
    let rules = PermissionRuleSets {
        fs: None,
        network: None,
        child_process: None,
        process: None,
        env: Some(vec![PatternPermissionRule {
            operations: Some(vec!["x".into(); 129]),
            patterns: None,
        }]),
        binding: None,
    };
    let error = validate_permissions(Some(&rules), 10).expect_err("too many operations");
    assert!(error
        .message
        .starts_with("limit_exceeded: permissions.env.rules[0].operations has 129 values"));
    assert!(validate_permissions(None, usize::MAX).is_ok());
}

#[test]
fn actor_restart_identity_contains_only_software() {
    let original = AgentOsActorConfig::normalize(empty_input(), no_checks()).expect("defaults");
    let mut changed = AgentOsActorConfig::normalize(empty_input(), no_checks()).expect("defaults");
    changed.high_resolution_time = Some(false);
    changed.preview.max_active = 4;
    assert_eq!(original.restart_identity(), changed.restart_identity());

    changed.filesystem.root = HostedRootFilesystem::Durable {
        namespace: "different-root".into(),
        read_only: false,
    };
    assert_eq!(original.restart_identity(), changed.restart_identity());
    changed.filesystem = original.filesystem.clone();
    changed.software.push(RemotePackageSource {
        url: "https://example.com/package.aospkg".into(),
        digest: None,
        size: None,
        package_id: None,
    });
    assert_ne!(original.restart_identity(), changed.restart_identity());
    assert_eq!(changed.restart_identity(), vec!["https://example.com/package.aospkg#".to_string()]);
}

#[test]
fn remote_sources_take_their_package_id_from_the_digest() {
    let digest = format!("sha256:{}", "a".repeat(64));
    let normalized = normalize_remote_source(
        RemotePackageSourceInput {
            url: "https://example.com/tool.aospkg".into(),
            digest: Some(digest.clone()),
            size: Some(42),
            package_id: Some(digest.clone()),
        },
        Ok(()),
    )
    .expect("normalize remote source");
    assert_eq!(normalized.package_id, normalized.digest);
    assert_eq!(normalized.size, None);
    let error = normalize_remote_source(
        RemotePackageSourceInput {
            url: "https://example.com/tool.aospkg".into(),
            digest: Some(digest),
            size: None,
            package_id: Some("sha256:other".into()),
        },
        Ok(()),
    )
    .expect_err("mismatched package id");
    assert!(error.message.starts_with("invalid_input: software packageId must equal digest"));
}

#[test]
fn actor_network_request_limits_are_bounded() {
    let request = ActorHttpRequest {
        port: 0,
        path: String::from("/"),
        method: String::from("GET"),
        headers: StringMap::new(),
        body: None,
    };
    assert!(validate_http_request(&request).is_err());
    assert!(validate_limit(
        "chunk",
        MAX_STREAM_CHUNK_BYTES as usize + 1,
        MAX_STREAM_CHUNK_BYTES as usize
    )
    .is_err());
}

#[test]
fn preview_tokens_and_hop_headers_are_restricted() {
    assert!(validate_token("../../control").is_err());
    assert!(validate_token("0123456789abcdef").is_ok());
    assert!(is_hop_by_hop_header("Transfer-Encoding"));
    assert!(!is_hop_by_hop_header("set-cookie"));
}

#[test]
fn buffered_responses_bound_headers_and_body() {
    let response = actor_http_response(HttpResponse {
        status: 200,
        status_text: "OK".into(),
        headers: vec![("content-type".into(), "text/plain".into())],
        body: b"hello".to_vec(),
    })
    .expect("small response");
    assert_eq!(response.status, 200);
    assert_eq!(response.body, FileBytes(b"hello".to_vec()));
    let error = actor_http_response(HttpResponse {
        status: 200,
        status_text: "OK".into(),
        headers: Vec::new(),
        body: vec![0; MAX_HTTP_RESPONSE_BYTES + 1],
    })
    .expect_err("oversized body");
    assert_eq!(
        error.message,
        format!(
            "limit_exceeded: HTTP response body is {}; maximum is {}",
            MAX_HTTP_RESPONSE_BYTES + 1,
            MAX_HTTP_RESPONSE_BYTES
        )
    );
}

#[test]
fn stream_heads_expire_after_the_stream_lifetime() {
    let head = actor_stream_head(
        3,
        1_000,
        HttpStreamHead {
            stream_id: "s-1".into(),
            status: 200,
            status_text: "OK".into(),
            headers: Vec::new(),
        },
    )
    .expect("stream head");
    assert_eq!(head.stream.generation, 3);
    assert_eq!(head.stream.expires_at_ms, 1_000 + MAX_STREAM_LIFETIME_MS);
    let error = actor_stream_head(
        3,
        i64::MAX,
        HttpStreamHead {
            stream_id: "s-1".into(),
            status: 200,
            status_text: "OK".into(),
            headers: Vec::new(),
        },
    )
    .expect_err("expiry overflow");
    assert_eq!(error.message, "fetch stream expiration overflow");
    let error = actor_stream_head(
        3,
        0,
        HttpStreamHead {
            stream_id: String::new(),
            status: 200,
            status_text: "OK".into(),
            headers: Vec::new(),
        },
    )
    .expect_err("empty stream id");
    assert_eq!(error.message, "invalid_input: fetch stream id cannot be empty");
    assert!(actor_stream_chunk(HttpStreamChunk {
        body: vec![0; MAX_STREAM_CHUNK_BYTES as usize + 1],
        done: false,
    })
    .is_err());
    let chunk = actor_stream_chunk(HttpStreamChunk {
        body: vec![1, 2],
        done: true,
    })
    .expect("small chunk");
    assert!(chunk.done);
    assert_eq!(chunk.body, FileBytes(vec![1, 2]));
}

#[test]
fn empty_process_argument_is_distinct_from_missing_argument() {
    validate_arguments(&[]).expect("no argument entries is valid");
    validate_arguments(&[String::new()]).expect("empty argv element is valid");
    assert!(validate_command("").unwrap_err().message.starts_with("invalid_input:"));
    assert!(validate_arguments(&["x".repeat(MAX_ARGUMENT_BYTES + 1)])
        .unwrap_err()
        .message
        .starts_with("limit_exceeded:"));
    validate_arguments(&vec![String::new(); MAX_ARGUMENTS])
        .expect("empty entries still fit the argument-count boundary");
    assert!(validate_arguments(&vec![String::new(); MAX_ARGUMENTS + 1])
        .unwrap_err()
        .message
        .starts_with("limit_exceeded: process argument count"));
    validate_arguments(&["é".repeat(MAX_ARGUMENT_BYTES / 2)])
        .expect("argument byte boundary is inclusive");
    assert!(validate_arguments(&["é".repeat(MAX_ARGUMENT_BYTES / 2 + 1)])
        .unwrap_err()
        .message
        .starts_with("limit_exceeded: process argument"));
}

#[test]
fn command_and_terminal_limits_are_bounded() {
    assert!(validate_command("sh").is_ok());
    assert!(validate_command("").is_err());
    assert!(validate_dimensions(Some(80), Some(24)).is_ok());
    assert!(validate_dimensions(Some(0), Some(24)).is_err());
}

#[test]
fn process_and_terminal_cwd_validation_has_consistent_public_errors() {
    for (cwd, expected) in [
        (String::new(), "invalid_input"),
        ("x".repeat(MAX_ARGUMENT_BYTES + 1), "limit_exceeded"),
    ] {
        let mut exec = no_exec_options();
        exec.cwd = Some(cwd.clone());
        let mut spawn = no_spawn_options();
        spawn.cwd = Some(cwd.clone());
        let mut terminal = no_terminal_options();
        terminal.cwd = Some(cwd.clone());
        for result in [
            validate_exec_options(&exec),
            validate_spawn_options(&spawn),
            validate_terminal_options(&terminal),
        ] {
            let error = result.expect_err("invalid cwd");
            assert_eq!(error.code_str(), expected);
            assert!(error.message.contains("cwd"));
        }
    }
    let mut terminal = no_terminal_options();
    terminal.cwd = Some("/".into());
    validate_terminal_options(&terminal).expect("nonempty terminal cwd is valid");
}

#[test]
fn captured_runs_bound_their_output() {
    let result = actor_exec_result(ExecResult {
        exit_code: 2,
        stdout: "out".into(),
        stderr: "err".into(),
    })
    .expect("small output");
    assert_eq!(result.status.exit_code, 2);
    assert_eq!(result.status.signal, None);
    assert_eq!(result.stdout, "out");
    let error = actor_exec_result(ExecResult {
        exit_code: 0,
        stdout: "x".repeat(MAX_EXEC_OUTPUT_BYTES),
        stderr: "y".into(),
    })
    .expect_err("output over the bound");
    assert_eq!(
        error.message,
        format!(
            "limit_exceeded: process exec output is {} bytes, limit is {}",
            MAX_EXEC_OUTPUT_BYTES + 1,
            MAX_EXEC_OUTPUT_BYTES
        )
    );
    let info = actor_process_info(
        4,
        SpawnedProcessInfo {
            pid: 100,
            command: "sh".into(),
            args: Vec::new(),
            running: false,
            exit_code: Some(1),
            started_at: 1_700_000_000_000,
        },
    );
    assert_eq!(info.process.generation, 4);
    assert_eq!(info.process.pid, 100);
    assert_eq!(info.exit.map(|e| e.exit_code), Some(1));
    assert_eq!(info.started_at_ms, 1_700_000_000_000);
}

fn tree_entry(pid: u32, scoped: Option<u32>, status: ProcessStatus, exit_code: Option<i32>) -> ProcessInfo {
    ProcessInfo {
        pid,
        tracked_pid: scoped,
        ppid: 1,
        pgid: 100,
        sid: 100,
        driver: "node".into(),
        command: "node".into(),
        args: Vec::new(),
        cwd: "/".into(),
        status,
        exit_code,
        start_time_bits: 1_700_000_000_000.25f64.to_bits(),
        exit_time_bits: None,
    }
}

#[test]
fn process_trees_keep_their_shape_and_scope_tracked_processes() {
    let tree = ProcessTreeNode {
        info: tree_entry(1_000_000, Some(123), ProcessStatus::Exited, Some(0)),
        children: vec![
            ProcessTreeNode {
                info: tree_entry(1_000_001, None, ProcessStatus::Running, None),
                children: vec![ProcessTreeNode {
                    info: tree_entry(7, None, ProcessStatus::Running, None),
                    children: Vec::new(),
                }],
            },
            ProcessTreeNode {
                info: tree_entry(8, Some(8), ProcessStatus::Running, None),
                children: Vec::new(),
            },
        ],
    };
    assert_eq!(count_process_tree_nodes(std::slice::from_ref(&tree)), 4);
    assert_eq!(count_process_tree_nodes(&[]), 0);
    let public = actor_process_tree_node(tree, 4);
    let process = public.process.expect("root is scoped");
    assert_eq!((process.generation, process.pid), (4, 123));
    assert_eq!(public.exit.map(|e| e.exit_code), Some(0));
    assert_eq!(f64::from_bits(public.start_time_ms_bits), 1_700_000_000_000.25);
    assert_eq!(public.children.len(), 2);
    assert!(public.children[0].process.is_none());
    assert_eq!(public.children[0].children[0].pid, 7);
    assert_eq!(public.children[1].process.map(|p| p.pid), Some(8));
    assert_eq!(public.children[1].status, ProcessStatus::Running);
}

fn execution(outcome: ExecutionOutcome) -> CodeExecutionResult {
    CodeExecutionResult {
        execution: None,
        outcome,
        exit_code: Some(0),
        error: None,
        stdout: Some(b"out".to_vec()),
        stderr: None,
        stdout_truncated: Some(false),
        stderr_truncated: None,
        evaluation_value: None,
        type_script_check_result: None,
    }
}

#[test]
fn execution_results_bound_output_and_name_states() {
    let result = actor_execution_result(execution(ExecutionOutcome::TimedOut)).expect("small result");
    assert_eq!(result.outcome, ActorExecutionOutcome::TimedOut);
    assert_eq!(result.stdout, Some(FileBytes(b"out".to_vec())));
    assert_eq!(result.stdout_truncated, Some(false));

    let mut big = execution(ExecutionOutcome::Succeeded);
    big.stdout = Some(vec![0; MAX_RESULT_BYTES]);
    big.evaluation_value = Some("x".into());
    let error = actor_execution_result(big).expect_err("output over the bound");
    assert_eq!(
        error.message,
        format!(
            "limit_exceeded: language result is {} bytes; maximum is {} bytes",
            MAX_RESULT_BYTES + 1,
            MAX_RESULT_BYTES
        )
    );

    let mut failed = execution(ExecutionOutcome::Failed);
    failed.error = Some(ExecutionErrorData {
        code: String::new(),
        name: "Error".into(),
        message: "boom".into(),
        stack: None,
        details: None,
    });
    let error = actor_execution_result(failed).expect_err("empty error code");
    assert_eq!(error.message, "invalid_input: language error code cannot be empty");

    let descriptor = actor_execution_descriptor(ExecutionDescriptor {
        execution_id: "e-1".into(),
        generation: 2,
        state: ExecutionState::Resetting,
        retained_language: Some(RetainedExecutionLanguage::Python),
        process_id: None,
        pid: Some(9),
        created_at_ms: 5,
        last_started_at_ms: None,
        last_completed_at_ms: None,
        last_outcome: Some(ExecutionOutcome::Cancelled),
        last_exit_code: None,
    });
    assert_eq!(descriptor.state, "resetting");
    assert_eq!(descriptor.language.as_deref(), Some("python"));
    assert_eq!(descriptor.last_outcome, Some(ActorExecutionOutcome::Cancelled));

    let context = actor_context_descriptor(
        6,
        ContextDescriptor {
            context_id: "ctx".into(),
            state: "idle".into(),
            language: None,
            created_at_ms: 1,
            last_started_at_ms: None,
            last_completed_at_ms: None,
        },
    );
    assert_eq!(context.context.generation, 6);
    assert_eq!(context.context.context_id, "ctx");
}

fn diagnostic(message: &str) -> TypeScriptDiagnostic {
    TypeScriptDiagnostic {
        code: 2322,
        category: "error".into(),
        message: message.into(),
        file_path: Some("/a.ts".into()),
        line: Some(1),
        column: Some(2),
    }
}

#[test]
fn typescript_checks_bound_their_diagnostics() {
    let checked = actor_typescript_check_result(TypeScriptCheckResult {
        result: execution(ExecutionOutcome::Failed),
        has_errors: Some(true),
        diagnostics: vec![diagnostic("bad type")],
    })
    .expect("one diagnostic");
    assert_eq!(checked.has_errors, Some(true));
    assert_eq!(checked.diagnostics.len(), 1);
    assert_eq!(checked.diagnostics[0].message, "bad type");
    assert_eq!(checked.diagnostics[0].file_path.as_deref(), Some("/a.ts"));

    let error = actor_typescript_check_result(TypeScriptCheckResult {
        result: execution(ExecutionOutcome::Failed),
        has_errors: Some(true),
        diagnostics: vec![diagnostic("x"); MAX_DIAGNOSTICS + 1],
    })
    .expect_err("too many diagnostics");
    assert_eq!(
        error.message,
        format!(
            "limit_exceeded: TypeScript diagnostics has {} entries; maximum is {}",
            MAX_DIAGNOSTICS + 1,
            MAX_DIAGNOSTICS
        )
    );
    let error = actor_typescript_check_result(TypeScriptCheckResult {
        result: execution(ExecutionOutcome::Failed),
        has_errors: Some(true),
        diagnostics: vec![diagnostic(&"m".repeat(600 * 1024))],
    })
    .expect_err("too many diagnostic bytes");
    assert!(error.message.starts_with("limit_exceeded: TypeScript diagnostics is "));
}

use agentos_actor::contract::merge_patch::{
    collect_removals, merge_patch, require_object_patch, JsonValue,
};

fn obj(entries: Vec<(&str, JsonValue)>) -> JsonValue {
    JsonValue::Object(entries.into_iter().map(|(k, v)| (k.to_string(), v)).collect())
}

fn text(s: &str) -> JsonValue {
    JsonValue::Text(s.into())
}

fn num(s: &str) -> JsonValue {
    JsonValue::Number(s.into())
}

#[test]
fn merge_patches_merge_objects_replace_arrays_and_remove_nulls() {
    let target = obj(vec![
        ("environment", obj(vec![("KEEP", text("yes")), ("CHANGE", text("old"))])),
        ("loopbackExemptPorts", JsonValue::Array(vec![num("3000"), num("4000")])),
        ("highResolutionTime", JsonValue::Bool(true)),
    ]);
    let patch = obj(vec![
        ("environment", obj(vec![("CHANGE", text("new")), ("ADDED", text("1"))])),
        ("loopbackExemptPorts", JsonValue::Array(vec![num("8080")])),
        ("highResolutionTime", JsonValue::Null),
    ]);
    let merged = merge_patch(target, patch);
    assert_eq!(
        merged,
        obj(vec![
            (
                "environment",
                obj(vec![("KEEP", text("yes")), ("CHANGE", text("new")), ("ADDED", text("1"))])
            ),
            ("loopbackExemptPorts", JsonValue::Array(vec![num("8080")])),
        ])
    );
    assert_eq!(merge_patch(obj(vec![("a", num("1"))]), text("x")), text("x"));
    assert_eq!(
        merge_patch(text("scalar"), obj(vec![("a", obj(vec![("b", JsonValue::Null), ("c", num("2"))]))])),
        obj(vec![("a", obj(vec![("c", num("2"))]))])
    );
}

#[test]
fn merge_patch_removals_are_listed_depth_first() {
    let patch = obj(vec![
        ("preview", JsonValue::Null),
        ("filesystem", obj(vec![("root", JsonValue::Null), ("mounts", JsonValue::Array(Vec::new()))])),
        ("environment", obj(vec![("ABSENT", JsonValue::Null)])),
    ]);
    let mut path = Vec::new();
    let mut out = Vec::new();
    collect_removals(&patch, &mut path, &mut out);
    assert!(path.is_empty());
    assert_eq!(
        out,
        vec![
            vec!["preview".to_string()],
            vec!["filesystem".to_string(), "root".to_string()],
            vec!["environment".to_string(), "ABSENT".to_string()],
        ]
    );
    assert!(require_object_patch(&patch).is_ok());
    assert_eq!(
        require_object_patch(&JsonValue::Array(Vec::new())).unwrap_err().message,
        "invalid_input: config.patch patch must be a JSON object"
    );
}

use agentos_actor::actor::preview::{
    forwarded_request_headers, guest_target, is_forwarded_response_header, preview_expiry,
    preview_path, preview_port, preview_route, preview_ttl,
};

#[test]
fn preview_requests_route_by_token() {
    assert_eq!(
        preview_route("/preview/abc123/index.html"),
        Some(("abc123".to_string(), "/index.html".to_string()))
    );
    assert_eq!(preview_route("/preview/abc123"), Some(("abc123".to_string(), "/".to_string())));
    assert_eq!(preview_route("/preview/../etc/passwd"), None);
    assert_eq!(preview_route("/other/abc123/"), None);
    assert_eq!(preview_route("/preview/"), None);
    assert_eq!(guest_target("/index.html".into(), Some("a=1")), "/index.html?a=1");
    assert_eq!(guest_target("/".into(), None), "/");
    assert_eq!(preview_path("abc"), "/preview/abc/");
}

#[test]
fn preview_headers_drop_hop_by_hop_fields() {
    let headers = forwarded_request_headers(&vec![
        ("accept".into(), "text/html".into()),
        ("Connection".into(), "keep-alive".into()),
        ("accept".into(), "application/json".into()),
    ]);
    assert_eq!(headers.len(), 1);
    let (name, value) = headers.entry(0);
    assert_eq!((name.as_str(), value.as_str()), ("accept", "application/json"));
    assert!(!is_forwarded_response_header("Content-Length"));
    assert!(!is_forwarded_response_header("upgrade"));
    assert!(is_forwarded_response_header("set-cookie"));
}

#[test]
fn preview_leases_are_bounded_in_time() {
    let policy = PreviewPolicy::default();
    assert_eq!(preview_ttl(None, &policy).unwrap(), policy.default_ttl_ms);
    assert_eq!(
        preview_ttl(Some(10), &policy).unwrap_err().message,
        format!(
            "limit_exceeded: preview ttlMs must be between 1000 and {}; raise config.preview.maxTtlMs up to its actor maximum",
            policy.max_ttl_ms
        )
    );
    assert_eq!(preview_expiry(1_000, 500).unwrap(), 1_500);
    assert_eq!(preview_expiry(i64::MAX, 1).unwrap_err().message, "preview expiration overflow");
    assert_eq!(preview_expiry(0, u64::MAX).unwrap_err().message, "preview TTL exceeds signed range");
    assert!(preview_port(8080).is_ok());
    assert_eq!(
        preview_port(0).unwrap_err().message,
        "invalid_input: preview port must be between 1 and 65535"
    );
}

use agentos_actor::contract::filesystem::FileContentInput;
use agentos_actor::contract::network::{NetworkFetch, NetworkFetchStreamStart};
use agentos_actor::contract::process::{
    exec_options_into_core, file_content_to_stdin, spawn_options_into_core,
    terminal_options_into_core, ProcessSpawn, StdinInput, MAX_WAIT_MS,
};

#[test]
fn captured_run_forwards_a_bounded_core_timeout_by_default() {
    let default = ActorExecOptions::default();
    validate_exec_options(&default).expect("default options are valid");
    assert_eq!(
        Some(exec_options_into_core(default).timeout_ms as f64),
        Some(MAX_WAIT_MS as f64)
    );
    assert!(validate_exec_options(&ActorExecOptions {
        timeout_ms: Some(0),
        ..Default::default()
    })
    .is_err());
}

#[test]
fn process_requests_keep_stdin_form_and_always_retain_output() {
    assert_eq!(
        file_content_to_stdin(FileContentInput::Text("hi".into())),
        StdinInput::Text("hi".into())
    );
    assert_eq!(
        file_content_to_stdin(FileContentInput::Bytes(vec![0, 1])),
        StdinInput::Bytes(vec![0, 1])
    );
    let run = exec_options_into_core(ActorExecOptions {
        stdin: Some(FileContentInput::Bytes(vec![7])),
        timeout_ms: Some(1_000),
        capture_stdio: Some(true),
        ..Default::default()
    });
    assert_eq!(run.stdin, Some(StdinInput::Bytes(vec![7])));
    assert_eq!(run.timeout_ms, 1_000);
    assert_eq!(run.capture_stdio, Some(true));

    let spawn = ProcessSpawn {
        command: "node".into(),
        args: vec!["".into(), " two words ".into()],
        options: ActorSpawnOptions {
            stdout_fd: Some(3),
            ..Default::default()
        },
    };
    assert_eq!(spawn.args, vec!["".to_string(), " two words ".to_string()]);
    let request = spawn_options_into_core(spawn.options);
    assert!(request.stream_stdin);
    assert!(request.retain_output);
    assert_eq!(request.stdout_fd, Some(3));

    let shell = terminal_options_into_core(ActorTerminalOptions {
        command: Some("bash".into()),
        cols: Some(80),
        ..Default::default()
    });
    assert_eq!(shell.command.as_deref(), Some("bash"));
    assert_eq!((shell.cols, shell.rows), (Some(80), None));
}

#[test]
fn fetch_inputs_carry_a_validated_request() {
    let request = ActorHttpRequest {
        port: 8080,
        method: "GET".into(),
        path: "/".into(),
        headers: StringMap::new(),
        body: None,
    };
    let fetch = NetworkFetch { request: request.clone() };
    assert!(validate_http_request(&fetch.request).is_ok());
    let stream = NetworkFetchStreamStart { request };
    assert_eq!(stream.request.port, 8080);
}

use agentos_actor::contract::merge_patch::removal_refused;

#[test]
fn only_unknown_fields_and_unmatched_variants_refuse_a_removal() {
    assert!(removal_refused("unknown field `mystery`, expected one of `environment`"));
    assert!(removal_refused(
        "data did not match any variant of untagged enum HostedRootFilesystemInput"
    ));
    assert!(!removal_refused("invalid type: null, expected a string"));
    assert!(!removal_refused("an unknown field `x`"));
    assert!(!removal_refused(""));
}

use agentos_actor::contract::public_error::{
    classify_public_error, public_error_code, ClassifiedError, ClientErrorKind, ErrorCause,
};

fn cause(text: &str) -> ErrorCause {
    ErrorCause { public: false, client: None, text: text.into(), details: None }
}

fn client_cause(kind: ClientErrorKind, text: &str) -> ErrorCause {
    ErrorCause { public: false, client: Some(kind), text: text.into(), details: None }
}

#[test]
fn typed_core_errors_keep_public_error_codes_through_context() {
    for (kind, text, expected) in [
        (
            ClientErrorKind::OperationTimedOut,
            "VM SQLite close exceeded its deadline",
            ErrorCode::Timeout,
        ),
        (ClientErrorKind::ExecutionTimedOut, "execution of p timed out", ErrorCode::Timeout),
        (
            ClientErrorKind::TerminationFailed,
            "termination of p failed: missing exit",
            ErrorCode::TerminationFailed,
        ),
        (ClientErrorKind::ProcessNotFound, "process 1 not found", ErrorCode::NotFound),
        (ClientErrorKind::ShellNotFound, "shell shell-1 not found", ErrorCode::NotFound),
        (
            ClientErrorKind::PackageCachePendingLimit,
            "package cache pending limit 1 reached",
            ErrorCode::LimitExceeded,
        ),
        (
            ClientErrorKind::InvalidPackageSource,
            "invalid package source: invalid",
            ErrorCode::InvalidInput,
        ),
    ] {
        let chain = vec![cause("actor action failed"), client_cause(kind, text)];
        assert_eq!(public_error_code(&chain), Some(expected));
    }
}

#[test]
fn stream_expiration_and_package_resolution_timeout_are_typed() {
    for (message, expected) in [
        ("timeout: runtime shutdown exceeded 10000ms", ErrorCode::Timeout),
        ("fetch_stream_expired: stream lifetime elapsed", ErrorCode::Expired),
        (
            "config_package_resolution_timeout: required software resolution expired",
            ErrorCode::Timeout,
        ),
    ] {
        let chain = vec![cause("actor action failed"), cause(message)];
        assert_eq!(public_error_code(&chain), Some(expected));
        match classify_public_error(chain) {
            ClassifiedError::Public(error) => {
                assert_eq!(error.group, "agentos");
                assert_eq!(error.code, expected);
                assert_eq!(error.message, "actor action failed");
                assert_eq!(error.default_message, "actor action failed");
                assert_eq!(error.cause, format!("actor action failed: {message}"));
            }
            ClassifiedError::Unchanged(_) => panic!("expected a public error for {message}"),
        }
    }
}

#[test]
fn public_errors_carry_limit_and_package_details() {
    let chain = vec![
        cause("software installation failed"),
        ErrorCause {
            public: false,
            client: Some(ClientErrorKind::ResourceLimit),
            text: "resource limit reached".into(),
            details: Some("{\"operation\":\"fs.write\"}".into()),
        },
        ErrorCause {
            public: false,
            client: Some(ClientErrorKind::PackageAcquisition { code: "package_download_failed".into() }),
            text: "download failed".into(),
            details: Some("{\"errno\":\"EIO\"}".into()),
        },
    ];
    match classify_public_error(chain) {
        ClassifiedError::Public(error) => {
            assert_eq!(error.code, ErrorCode::LimitExceeded);
            assert_eq!(error.limit.as_deref(), Some("{\"operation\":\"fs.write\"}"));
            assert_eq!(
                error.package,
                Some(("package_download_failed".to_string(), "{\"errno\":\"EIO\"}".to_string()))
            );
            assert_eq!(error.cause, "software installation failed: resource limit reached: download failed");
        }
        ClassifiedError::Unchanged(_) => panic!("a resource limit is public"),
    }
    match classify_public_error(vec![cause("timeout: slow")]) {
        ClassifiedError::Public(error) => {
            assert_eq!(error.limit, None);
            assert_eq!(error.package, None);
        }
        ClassifiedError::Unchanged(_) => panic!("a timeout is public"),
    }
}

#[test]
fn classifying_a_classified_failure_leaves_it_unchanged() {
    let chain = vec![cause("actor action failed"), cause("fetch_stream_expired: stream lifetime elapsed")];
    let once = classify_public_error(chain).into_causes();
    assert_eq!(once.len(), 1);
    assert!(once[0].public);
    assert_eq!(once[0].text, "actor action failed");
    assert_eq!(public_error_code(&once), None);
    match classify_public_error(once) {
        ClassifiedError::Unchanged(c) => assert_eq!(c.len(), 1),
        ClassifiedError::Public(_) => panic!("a classified failure must not be classified again"),
    }
    let none = vec![cause("plain failure")];
    match classify_public_error(none) {
        ClassifiedError::Unchanged(c) => assert_eq!(c[0].text, "plain failure"),
        ClassifiedError::Public(_) => panic!("a chain naming no code stays as it is"),
    }
}

#[test]
fn operator_cache_and_acquisition_io_failures_are_not_caller_validation_errors() {
    let mut errors = vec![client_cause(
        ClientErrorKind::Other,
        "operator cache is already configured differently",
    )];
    for code in [
        "package_cache_configuration",
        "package_download_failed",
        "package_io_failed",
        "package_acquisition_failed",
    ] {
        errors.push(client_cause(
            ClientErrorKind::PackageAcquisition { code: code.into() },
            "operator or acquisition failure",
        ));
    }
    for error in errors {
        let chain = vec![cause("install software"), error];
        assert_eq!(public_error_code(&chain), None);
    }
}

#[test]
fn public_errors_pass_through_and_validation_codes_are_public() {
    for code in ["invalid_package_source", "invalid_package_format", "package_digest_mismatch"] {
        let chain = vec![
            cause("software installation failed"),
            client_cause(ClientErrorKind::PackageAcquisition { code: code.into() }, "invalid artifact"),
        ];
        assert_eq!(public_error_code(&chain), Some(ErrorCode::InvalidInput));
    }
    let already = vec![ErrorCause { public: true, client: None, text: "not_found: gone".into(), details: None }];
    assert_eq!(public_error_code(&already), None);
    match classify_public_error(already.clone()) {
        ClassifiedError::Unchanged(c) => assert_eq!(c[0].text, "not_found: gone"),
        ClassifiedError::Public(_) => panic!("a public error must pass through"),
    }
    let kernel = vec![client_cause(ClientErrorKind::Kernel { code: "ENOENT".into() }, "no such file")];
    assert_eq!(public_error_code(&kernel), Some(ErrorCode::NotFound));
    assert_eq!(public_error_code(&[cause("software_not_found: sha256:x")]), Some(ErrorCode::NotFound));
}

use agentos_actor::contract::process::ProcessRun;

#[test]
fn process_action_dtos_preserve_empty_and_whitespace_arguments() {
    let args: Vec<String> = vec!["".into(), " two words ".into(), "".into()];
    let run = ProcessRun {
        command: "echo".into(),
        args: args.clone(),
        options: ActorExecOptions::default(),
    };
    let spawn = ProcessSpawn {
        command: "echo".into(),
        args: args.clone(),
        options: ActorSpawnOptions::default(),
    };
    let terminal = ActorTerminalOptions {
        command: Some("echo".into()),
        args: args.clone(),
        ..Default::default()
    };
    validate_arguments(&run.args).unwrap();
    validate_arguments(&spawn.args).unwrap();
    validate_terminal_options(&terminal).unwrap();
    assert_eq!(run.args, args);
    assert_eq!(spawn.args, args);
    assert_eq!(terminal_options_into_core(terminal).args, args);
}

use agentos_actor::contract::config::{
    durable_sqlite_plugin, HostedFilesystemMount, MountRequest, RootFilesystemMode,
    RootFilesystemRequest,
};

#[test]
fn durable_filesystems_reach_the_vm_as_native_sqlite_plugins() {
    assert_eq!(HostedRootFilesystem::Default.to_core(), RootFilesystemRequest::Default);
    assert_eq!(
        HostedRootFilesystem::Durable { namespace: "root".into(), read_only: true }.to_core(),
        RootFilesystemRequest::Native {
            mode: RootFilesystemMode::ReadOnly,
            plugin: durable_sqlite_plugin("root"),
            disable_default_base_layer: true,
        }
    );
    let writable = HostedRootFilesystem::Durable { namespace: "root".into(), read_only: false };
    assert!(matches!(
        writable.to_core(),
        RootFilesystemRequest::Native { mode: RootFilesystemMode::Ephemeral, .. }
    ));
    let mount = HostedFilesystemMount {
        path: "/data".into(),
        backend: HostedFilesystemBackend::Durable { namespace: "data".into() },
        read_only: false,
    };
    assert_eq!(
        mount.to_core(),
        MountRequest {
            path: "/data".into(),
            plugin: durable_sqlite_plugin("data"),
            guest_source: "durable".into(),
            guest_fstype: "durable".into(),
            read_only: false,
        }
    );
    assert_eq!(durable_sqlite_plugin("x").id, "chunked_sqlite");
}

use agentos_actor::contract::schema::{
    build, ActionContract as SchemaAction, ContractMetadata, EventContract as SchemaEvent, TypeContract,
    TypeScriptShape,
};

fn shape(input: &str, output: &str) -> TypeScriptShape {
    TypeScriptShape { input: input.into(), output: output.into() }
}

fn metadata(schema_version: u32) -> ContractMetadata {
    ContractMetadata {
        schema_version,
        api_version: "agentos.v1",
        contract_major: 1,
        capabilities: vec!["fs", "process"],
        actor_name: "agentOs",
    }
}

fn contract_actions(private: bool) -> Vec<SchemaAction> {
    let mut actions = vec![SchemaAction { name: "readFile", public: true, input: "[path: string]".into(), output: "Uint8Array".into() }];
    if private {
        actions.push(SchemaAction { name: "internalProbe", public: false, input: "[]".into(), output: "void".into() });
    }
    actions
}

fn hash_of(schema_version: u32, private: bool) -> String {
    build(
        metadata(schema_version),
        shape("AgentOsActorCreateInput", "void"),
        contract_actions(private),
        vec![SchemaEvent { name: "fsChanged", payload: "FsChangedEvent".into() }],
        vec![TypeContract { name: "FsChangedEvent".into(), declaration: "{ path: string }".into() }],
        shape("AgentOsError", "never"),
    )
    .contract_hash
}

#[test]
fn contract_hash_is_sha256_hex_of_the_public_contract_only() {
    let hash = hash_of(1, false);
    assert!(hash.starts_with("sha256:"));
    assert_eq!(hash.len(), 71);
    assert!(hash[7..].chars().all(|c| c.is_ascii_digit() || ('a'..='f').contains(&c)));
    assert_eq!(hash_of(2, false), hash);
    assert_eq!(hash_of(1, true), hash);
    let mut changed = contract_actions(false);
    changed[0].output = "string".into();
    let other = build(
        metadata(1),
        shape("AgentOsActorCreateInput", "void"),
        changed,
        vec![SchemaEvent { name: "fsChanged", payload: "FsChangedEvent".into() }],
        vec![TypeContract { name: "FsChangedEvent".into(), declaration: "{ path: string }".into() }],
        shape("AgentOsError", "never"),
    );
    assert_ne!(other.contract_hash, hash);
    assert_eq!(other.schema_version, 1);
    assert_eq!(other.actions.len(), 1);
}

use agentos_actor::text::{i64_text, u64_text, usize_text};

#[test]
fn decimal_texts_match_display() {
    for n in [0u64, 7, 10, 99, 100, 1234567890, u64::MAX] {
        assert_eq!(u64_text(n), n.to_string());
    }
    for n in [0usize, 9, 4096, usize::MAX] {
        assert_eq!(usize_text(n), n.to_string());
    }
    for n in [0i64, -1, 42, -42, i64::MAX, i64::MIN] {
        assert_eq!(i64_text(n), n.to_string());
    }
}
