use agentos_actor::contract::language::{
    validate_context_id, validate_source, ActorExecutionPtyOptions, MAX_CONTEXT_ID_BYTES,
    MAX_SOURCE_BYTES,
};

#[test]
fn language_inputs_and_contexts_are_bounded() {
    assert!(validate_context_id("").is_err());
    assert!(validate_context_id(&"c".repeat(MAX_CONTEXT_ID_BYTES + 1)).is_err());
    assert!(validate_source("source", &"x".repeat(MAX_SOURCE_BYTES + 1)).is_err());
    assert!(ActorExecutionPtyOptions {
        cols: Some(0),
        rows: Some(24),
    }
    .validate()
    .is_err());
}

use agentos_actor::contract::language::{
    ActorExecutionOutputOptions, ActorLanguageExecutionOptions, ActorLanguageSpawnOptions,
    ActorNpmInstallOptions, ActorOutputCapture, ActorPythonInstallOptions, MAX_TIMEOUT_MS,
};
use agentos_actor::contract::filesystem::FileContentInput;
use agentos_actor::strmap::StringMap;

fn no_output() -> ActorExecutionOutputOptions {
    ActorExecutionOutputOptions {
        capture: None,
        retain_events: None,
    }
}

#[test]
fn spawn_options_always_enable_bounded_replay() {
    let options = ActorLanguageSpawnOptions::default().into_core();
    assert!(options.retain_events);
}

#[test]
fn synchronous_requests_default_to_the_maximum_timeout() {
    let execution = ActorLanguageExecutionOptions {
        context: None,
        cwd: None,
        env: StringMap::new(),
        args: Vec::new(),
        stdin: Some(FileContentInput::Text("hé".into())),
        timeout_ms: None,
        pty: None,
        output: no_output(),
    }
    .into_core();
    assert_eq!(execution.timeout_ms, MAX_TIMEOUT_MS);
    assert_eq!(execution.stdin, Some("hé".as_bytes().to_vec()));
    assert_eq!(execution.output.capture, ActorOutputCapture::Silent);
    assert!(!execution.output.retain_events);

    let npm = ActorNpmInstallOptions {
        context: None,
        cwd: None,
        env: StringMap::new(),
        timeout_ms: None,
        frozen: Some(true),
        dev: None,
        global: None,
        output: no_output(),
    };
    let project = npm.clone().into_project_core();
    assert_eq!(project.timeout_ms, MAX_TIMEOUT_MS);
    assert_eq!(project.frozen, Some(true));
    assert_eq!(npm.into_package_core().timeout_ms, MAX_TIMEOUT_MS);

    let python = ActorPythonInstallOptions {
        context: None,
        cwd: None,
        env: StringMap::new(),
        timeout_ms: Some(5),
        upgrade: None,
        requirements_file: None,
        index_url: None,
        extra_index_urls: Vec::new(),
        output: ActorExecutionOutputOptions {
            capture: Some(ActorOutputCapture::All),
            retain_events: Some(true),
        },
    }
    .into_core();
    assert_eq!(python.timeout_ms, 5);
    assert_eq!(python.output.capture, ActorOutputCapture::All);
    assert!(python.output.retain_events);
}

use agentos_actor::contract::language::{
    actor_evaluation_result, validate_cbor_result, validate_json_map, validate_timeout,
    ActorInlineExecutionOptions, ActorJavaScriptExecutionOptions, ActorJavaScriptModuleFormat,
    ActorTypeScriptCheckOptions, ActorTypeScriptExecutionOptions, CodeEvaluationResult,
    CodeExecutionResult, ExecutionOutcome, MAX_JSON_BYTES, MAX_PACKAGES, MAX_RESULT_BYTES,
};
use agentos_actor::contract::merge_patch::JsonValue;

#[test]
fn synchronous_language_actions_have_sidecar_visible_timeouts() {
    assert_eq!(
        ActorLanguageExecutionOptions::default()
            .into_core()
            .timeout_ms,
        MAX_TIMEOUT_MS
    );
    assert_eq!(
        ActorTypeScriptCheckOptions::default()
            .into_core()
            .timeout_ms,
        MAX_TIMEOUT_MS
    );
    assert_eq!(
        ActorNpmInstallOptions::default()
            .into_project_core()
            .timeout_ms,
        MAX_TIMEOUT_MS
    );
    assert_eq!(
        ActorPythonInstallOptions::default().into_core().timeout_ms,
        MAX_TIMEOUT_MS
    );
    assert!(validate_timeout(Some(0)).is_err());
}

fn object(entries: usize) -> Vec<(String, JsonValue)> {
    (0..entries)
        .map(|i| (format!("k{i}"), JsonValue::Number(i.to_string())))
        .collect()
}

#[test]
fn json_maps_are_bounded_by_entries_then_encoded_bytes() {
    assert!(validate_json_map("inputs", None, usize::MAX).is_ok());
    assert!(validate_json_map("inputs", Some(&object(MAX_PACKAGES)), MAX_JSON_BYTES).is_ok());
    let too_many = validate_json_map("inputs", Some(&object(MAX_PACKAGES + 1)), 2).unwrap_err();
    assert_eq!(too_many.message(), "limit_exceeded: inputs has 257 entries; maximum is 256");
    let too_long = validate_json_map("inputs", Some(&object(1)), MAX_JSON_BYTES + 1).unwrap_err();
    assert_eq!(
        too_long.message(),
        "limit_exceeded: inputs is 262145 bytes; maximum is 262144 bytes"
    );
    assert!(validate_cbor_result("reply", MAX_RESULT_BYTES).is_ok());
    assert!(validate_cbor_result("reply", MAX_RESULT_BYTES + 1).is_err());
}

#[test]
fn inline_executions_check_process_options_before_inputs() {
    let mut options = ActorJavaScriptExecutionOptions::default();
    options.inline.process.timeout_ms = Some(0);
    options.inline.inputs = Some(object(MAX_PACKAGES + 1));
    assert_eq!(
        options.validate(2).unwrap_err().message(),
        "invalid_input: language timeoutMs must be greater than zero"
    );
    options.inline.process.timeout_ms = None;
    assert!(options
        .validate(2)
        .unwrap_err()
        .message()
        .starts_with("limit_exceeded: language inputs has 257 entries"));
    options.inline.inputs = Some(object(1));
    options.file_path = Some(String::new());
    assert_eq!(
        options.validate(2).unwrap_err().message(),
        "invalid_input: JavaScript virtual file path cannot be empty"
    );
    options.file_path = Some("/main.mjs".into());
    assert!(options.validate(2).is_ok());
    assert!(options.context().is_none());
    let request = options.into_core();
    assert_eq!(request.format, ActorJavaScriptModuleFormat::Module);
    assert_eq!(request.inline.process.timeout_ms, MAX_TIMEOUT_MS);
    assert_eq!(request.file_path.as_deref(), Some("/main.mjs"));

    let mut typescript = ActorTypeScriptExecutionOptions::default();
    typescript.compiler_options = Some(object(2));
    assert!(typescript.validate(0, MAX_JSON_BYTES).is_ok());
    assert!(typescript
        .validate(0, MAX_JSON_BYTES + 1)
        .unwrap_err()
        .message()
        .starts_with("limit_exceeded: TypeScript compiler options is"));
    let inline = ActorInlineExecutionOptions::default();
    assert!(inline.validate(usize::MAX).is_ok());
}

#[test]
fn typescript_checks_need_a_context_to_retain_events() {
    let mut options = ActorTypeScriptCheckOptions::default();
    options.output.retain_events = Some(true);
    assert_eq!(
        options.validate(0).unwrap_err().message(),
        "invalid_input: retainEvents requires a named execution context"
    );
    options.output.retain_events = None;
    options.timeout_ms = Some(1_000);
    options.output.capture = Some(ActorOutputCapture::All);
    assert!(options.validate(0).is_ok());
    let request = options.into_core();
    assert_eq!(request.timeout_ms, 1_000);
    assert_eq!(request.output.capture, ActorOutputCapture::All);
}

fn bare_result() -> CodeExecutionResult {
    CodeExecutionResult {
        execution: None,
        outcome: ExecutionOutcome::Succeeded,
        exit_code: Some(0),
        error: None,
        stdout: None,
        stderr: None,
        stdout_truncated: None,
        stderr_truncated: None,
        evaluation_value: None,
        type_script_check_result: None,
    }
}

#[test]
fn evaluation_values_are_bounded_before_the_result() {
    let value = CodeEvaluationResult {
        result: bare_result(),
        value: Some(JsonValue::Bool(true)),
    };
    let converted = actor_evaluation_result(value, 4).unwrap();
    assert_eq!(converted.value, Some(JsonValue::Bool(true)));
    assert_eq!(converted.result.exit_code, Some(0));

    let oversized = CodeEvaluationResult {
        result: bare_result(),
        value: Some(JsonValue::Bool(true)),
    };
    assert_eq!(
        actor_evaluation_result(oversized, MAX_JSON_BYTES + 1)
            .unwrap_err()
            .message(),
        "limit_exceeded: language evaluation value is 262145 bytes; maximum is 262144 bytes"
    );
    let absent = CodeEvaluationResult {
        result: bare_result(),
        value: None,
    };
    assert!(actor_evaluation_result(absent, usize::MAX).is_ok());
}
