//! Language execution action DTOs and the bounds every input must satisfy.
use vstd::prelude::*;

use crate::contract::filesystem::{FileBytes, FileContentInput};
use crate::contract::merge_patch::JsonValue;
use crate::actor::filesystem::{content_bytes, content_data};
use crate::error::{first_failure, fault, outcome, outcome_of, scan, then, ActorError, ErrorCode, Outcome};
use crate::strmap::{total_bytes, StringMap};
use crate::text::{appended, byte_len, decimal, owned, with_number, with_text};

verus! {

pub const MAX_CONTEXT_ID_BYTES: usize = 256;
pub const MAX_SOURCE_BYTES: usize = 512 * 1024;
pub const MAX_PATH_BYTES: usize = 4 * 1024;
pub const MAX_ARGUMENTS: usize = 1_024;
pub const MAX_ARGUMENT_BYTES: usize = 16 * 1024;
pub const MAX_ENVIRONMENT_ENTRIES: usize = 1_024;
pub const MAX_ENVIRONMENT_BYTES: usize = 256 * 1024;
pub const MAX_STDIN_BYTES: usize = 256 * 1024;
pub const MAX_JSON_BYTES: usize = 256 * 1024;
pub const MAX_PACKAGES: usize = 256;
pub const MAX_INDEX_URLS: usize = 16;
pub const MAX_TIMEOUT_MS: u64 = 5 * 60 * 1_000;
pub const MAX_RESULT_BYTES: usize = 768 * 1024;
pub const MAX_DIAGNOSTICS: usize = 1_024;
pub const MAX_DIAGNOSTIC_BYTES: usize = 512 * 1024;
pub const MAX_TERMINAL_DIMENSION: u16 = 4_096;

// ---------------------------------------------------------------------------
// Specification of the checks
// ---------------------------------------------------------------------------

/// A byte count within `max`.
pub open spec fn check_bytes(label: Seq<char>, actual: nat, max: nat) -> Outcome {
    if actual > max {
        Err(fault(ErrorCode::LimitExceeded, label + " is "@ + decimal(actual) + " bytes; maximum is "@ + decimal(max) + " bytes"@))
    } else {
        Ok(())
    }
}

/// An entry count within `max`.
pub open spec fn check_count(label: Seq<char>, actual: nat, max: nat) -> Outcome {
    if actual > max {
        Err(fault(ErrorCode::LimitExceeded, label + " has "@ + decimal(actual) + " entries; maximum is "@ + decimal(max)))
    } else {
        Ok(())
    }
}

/// A nonempty string of at most `max` bytes.
pub open spec fn check_string(label: Seq<char>, value: Seq<char>, max: nat) -> Outcome {
    if value.len() == 0 {
        Err(fault(ErrorCode::InvalidInput, label + " cannot be empty"@))
    } else {
        check_bytes(label, byte_len(value), max)
    }
}

/// An optional path: absent, or a nonempty path of at most `MAX_PATH_BYTES`.
pub open spec fn check_optional_path(label: Seq<char>, path: Option<Seq<char>>) -> Outcome {
    match path {
        Some(p) => check_string(label, p, MAX_PATH_BYTES as nat),
        None => Ok(()),
    }
}

/// An optional string: absent, or nonempty and at most `max` bytes.
pub open spec fn check_optional_string(label: Seq<char>, value: Option<Seq<char>>, max: nat) -> Outcome {
    match value {
        Some(v) => check_string(label, v, max),
        None => Ok(()),
    }
}

/// The view of an optional owned string.
pub open spec fn opt_view(value: Option<String>) -> Option<Seq<char>> {
    match value {
        Some(s) => Some(s@),
        None => None,
    }
}

/// The language argument list: bounded count, each argument bounded (empty allowed).
pub open spec fn check_arguments(args: Seq<String>) -> Outcome {
    then(
        check_count("language arguments"@, args.len(), MAX_ARGUMENTS as nat),
        first_failure(args.len() as int, |i: int| check_bytes("language argument"@, byte_len(args[i]@), MAX_ARGUMENT_BYTES as nat)),
    )
}

/// A language environment: bounded entry count and bounded total key and value bytes.
pub open spec fn check_environment(env: Seq<(Seq<char>, Seq<char>)>) -> Outcome {
    then(
        check_count("language environment entries"@, env.len(), MAX_ENVIRONMENT_ENTRIES as nat),
        if total_bytes(env) > usize::MAX {
            Err(fault(ErrorCode::LimitExceeded, "language environment byte count overflow"@))
        } else {
            check_bytes("language environment"@, total_bytes(env), MAX_ENVIRONMENT_BYTES as nat)
        },
    )
}

/// A package list: bounded count, each package a nonempty bounded string.
pub open spec fn check_packages(label: Seq<char>, packages: Seq<String>) -> Outcome {
    then(
        check_count(label, packages.len(), MAX_PACKAGES as nat),
        first_failure(packages.len() as int, |i: int| check_string(label, packages[i]@, MAX_ARGUMENT_BYTES as nat)),
    )
}

/// A timeout: absent, or between 1 and `MAX_TIMEOUT_MS`.
pub open spec fn check_timeout(timeout_ms: Option<u64>) -> Outcome {
    match timeout_ms {
        Some(0) => Err(fault(ErrorCode::InvalidInput, "language timeoutMs must be greater than zero"@)),
        Some(t) => if t > MAX_TIMEOUT_MS {
            Err(fault(ErrorCode::LimitExceeded, "language timeout exceeds 300000ms; lower timeoutMs"@))
        } else {
            Ok(())
        },
        None => Ok(()),
    }
}

/// A named execution context handle.
pub open spec fn check_context_handle(context: ActorContextId) -> Outcome {
    if context.generation == 0 {
        Err(fault(ErrorCode::InvalidInput, "execution context generation must be greater than zero"@))
    } else {
        check_string("execution context id"@, context.context_id@, MAX_CONTEXT_ID_BYTES as nat)
    }
}

/// An optional named execution context handle.
pub open spec fn check_optional_context(context: Option<ActorContextId>) -> Outcome {
    match context {
        Some(c) => check_context_handle(c),
        None => Ok(()),
    }
}

/// One PTY dimension: absent, or between 1 and `MAX_TERMINAL_DIMENSION`.
pub open spec fn check_pty_dimension(name: Seq<char>, value: Option<u16>) -> Outcome {
    match value {
        Some(v) => if v == 0 || v > MAX_TERMINAL_DIMENSION {
            Err(fault(ErrorCode::LimitExceeded, "language PTY "@ + name + " must be between 1 and 4096"@))
        } else {
            Ok(())
        },
        None => Ok(()),
    }
}

/// PTY options: columns first, then rows.
pub open spec fn check_pty(pty: ActorExecutionPtyOptions) -> Outcome {
    then(check_pty_dimension("cols"@, pty.cols), check_pty_dimension("rows"@, pty.rows))
}

/// Optional PTY options.
pub open spec fn check_optional_pty(pty: Option<ActorExecutionPtyOptions>) -> Outcome {
    match pty {
        Some(p) => check_pty(p),
        None => Ok(()),
    }
}

/// Optional standard input of at most `MAX_STDIN_BYTES`.
pub open spec fn check_stdin(stdin: Option<FileContentInput>) -> Outcome {
    match stdin {
        Some(content) => check_bytes("language stdin"@, content_bytes(content), MAX_STDIN_BYTES as nat),
        None => Ok(()),
    }
}

/// Retained output events need a named context to be replayed from.
pub open spec fn check_retain_events(output: ActorExecutionOutputOptions, context: Option<ActorContextId>) -> Outcome {
    if output.retain_events == Some(true) && context is None {
        Err(fault(ErrorCode::InvalidInput, "retainEvents requires a named execution context"@))
    } else {
        Ok(())
    }
}

// ---------------------------------------------------------------------------
// DTOs
// ---------------------------------------------------------------------------

/// A named execution context, scoped to the VM generation that created it.
#[derive(Debug, Clone, PartialEq, Eq)]
pub struct ActorContextId {
    pub generation: u64,
    pub context_id: String,
}

/// Public description of a named execution context.
#[derive(Debug, Clone, PartialEq, Eq)]
pub struct ActorContextDescriptor {
    pub context: ActorContextId,
    pub state: String,
    pub language: Option<String>,
    pub created_at_ms: u64,
    pub last_started_at_ms: Option<u64>,
    pub last_completed_at_ms: Option<u64>,
}

/// Which output streams an execution captures.
#[derive(Debug, Clone, Copy, PartialEq, Eq, Structural)]
pub enum ActorOutputCapture {
    Silent,
    Stderr,
    All,
}

/// Output capture options of an execution.
#[derive(Debug, Clone, Copy, PartialEq, Eq, Structural)]
pub struct ActorExecutionOutputOptions {
    pub capture: Option<ActorOutputCapture>,
    pub retain_events: Option<bool>,
}

/// Terminal size of a PTY-backed execution.
#[derive(Debug, Clone, Copy, PartialEq, Eq, Structural)]
pub struct ActorExecutionPtyOptions {
    pub cols: Option<u16>,
    pub rows: Option<u16>,
}

/// Options of a synchronous language execution.
#[derive(Debug, Clone, PartialEq, Eq)]
pub struct ActorLanguageExecutionOptions {
    pub context: Option<ActorContextId>,
    pub cwd: Option<String>,
    pub env: StringMap,
    pub args: Vec<String>,
    pub stdin: Option<FileContentInput>,
    pub timeout_ms: Option<u64>,
    pub pty: Option<ActorExecutionPtyOptions>,
    pub output: ActorExecutionOutputOptions,
}

/// Options of a spawned language process.
#[derive(Debug, Clone, PartialEq, Eq)]
pub struct ActorLanguageSpawnOptions {
    pub cwd: Option<String>,
    pub env: StringMap,
    pub args: Vec<String>,
    pub stdin: Option<FileContentInput>,
    pub timeout_ms: Option<u64>,
    pub pty: Option<ActorExecutionPtyOptions>,
}

/// JavaScript module system of an inline execution.
#[derive(Debug, Clone, Copy, PartialEq, Eq, Structural)]
pub enum ActorJavaScriptModuleFormat {
    Module,
    CommonJs,
}

/// Options of an npm installation.
#[derive(Debug, Clone, PartialEq, Eq)]
pub struct ActorNpmInstallOptions {
    pub context: Option<ActorContextId>,
    pub cwd: Option<String>,
    pub env: StringMap,
    pub timeout_ms: Option<u64>,
    pub frozen: Option<bool>,
    pub dev: Option<bool>,
    pub global: Option<bool>,
    pub output: ActorExecutionOutputOptions,
}

/// Options of a Python package installation.
#[derive(Debug, Clone, PartialEq, Eq)]
pub struct ActorPythonInstallOptions {
    pub context: Option<ActorContextId>,
    pub cwd: Option<String>,
    pub env: StringMap,
    pub timeout_ms: Option<u64>,
    pub upgrade: Option<bool>,
    pub requirements_file: Option<String>,
    pub index_url: Option<String>,
    pub extra_index_urls: Vec<String>,
    pub output: ActorExecutionOutputOptions,
}

/// Options of an inline source execution: the process options and the JSON
/// inputs handed to the program.
#[derive(Debug, PartialEq, Eq)]
pub struct ActorInlineExecutionOptions {
    pub process: ActorLanguageExecutionOptions,
    pub inputs: Option<Vec<(String, JsonValue)>>,
}

/// Options of an inline JavaScript execution.
#[derive(Debug, PartialEq, Eq)]
pub struct ActorJavaScriptExecutionOptions {
    pub inline: ActorInlineExecutionOptions,
    pub format: Option<ActorJavaScriptModuleFormat>,
    pub file_path: Option<String>,
}

/// Options of an inline TypeScript execution.
#[derive(Debug, PartialEq, Eq)]
pub struct ActorTypeScriptExecutionOptions {
    pub inline: ActorInlineExecutionOptions,
    pub file_path: Option<String>,
    pub tsconfig_path: Option<String>,
    pub compiler_options: Option<Vec<(String, JsonValue)>>,
}

/// Options of a TypeScript type check.
#[derive(Debug, PartialEq, Eq)]
pub struct ActorTypeScriptCheckOptions {
    pub context: Option<ActorContextId>,
    pub cwd: Option<String>,
    pub file_path: Option<String>,
    pub tsconfig_path: Option<String>,
    pub compiler_options: Option<Vec<(String, JsonValue)>>,
    pub timeout_ms: Option<u64>,
    pub output: ActorExecutionOutputOptions,
}

/// How an execution ended.
#[derive(Debug, Clone, Copy, PartialEq, Eq, Structural)]
pub enum ActorExecutionOutcome {
    Succeeded,
    Failed,
    Cancelled,
    TimedOut,
}

/// Public description of one execution.
#[derive(Debug, Clone, PartialEq, Eq)]
pub struct ActorExecutionDescriptor {
    pub execution_id: String,
    pub generation: u64,
    pub state: String,
    pub language: Option<String>,
    pub process_id: Option<String>,
    pub pid: Option<u32>,
    pub created_at_ms: u64,
    pub last_started_at_ms: Option<u64>,
    pub last_completed_at_ms: Option<u64>,
    pub last_outcome: Option<ActorExecutionOutcome>,
    pub last_exit_code: Option<i32>,
}

/// One TypeScript compiler diagnostic.
#[derive(Debug, Clone, PartialEq, Eq)]
pub struct ActorTypeScriptDiagnostic {
    pub code: u32,
    pub category: String,
    pub message: String,
    pub file_path: Option<String>,
    pub line: Option<u32>,
    pub column: Option<u32>,
}

/// `contexts.create` input.
#[derive(Debug, Clone, PartialEq, Eq)]
pub struct ContextsCreate {
    pub context_id: String,
}

/// `contexts.list` input.
#[derive(Debug, Clone, PartialEq, Eq)]
pub struct ContextsList {}

/// `javascript.npm.install` input.
#[derive(Debug, Clone, PartialEq, Eq)]
pub struct JavaScriptNpmInstall {
    pub packages: Vec<String>,
    pub options: ActorNpmInstallOptions,
}

/// `javascript.npm.runPackage` input.
#[derive(Debug, Clone, PartialEq, Eq)]
pub struct JavaScriptNpmRunPackage {
    pub package_spec: String,
    pub binary: Option<String>,
    pub options: ActorLanguageExecutionOptions,
}

/// `typescript.checkProject` input.
#[derive(Debug, PartialEq, Eq)]
pub struct TypeScriptCheckProject {
    pub options: ActorTypeScriptCheckOptions,
}

/// `python.install` input.
#[derive(Debug, Clone, PartialEq, Eq)]
pub struct PythonInstall {
    pub packages: Vec<String>,
    pub options: ActorPythonInstallOptions,
}

/// The entry count of an optional JSON object.
pub open spec fn object_entries(value: Option<Vec<(String, JsonValue)>>) -> Option<nat> {
    match value {
        Some(m) => Some(m@.len()),
        None => None,
    }
}

/// An optional JSON object: at most `MAX_PACKAGES` entries, then at most
/// `MAX_JSON_BYTES` bytes of JSON text, `encoded` being the length of its
/// JSON encoding.
pub open spec fn check_json_map(label: Seq<char>, entries: Option<nat>, encoded: nat) -> Outcome {
    match entries {
        Some(n) => then(check_count(label, n, MAX_PACKAGES as nat), check_bytes(label, encoded, MAX_JSON_BYTES as nat)),
        None => Ok(()),
    }
}

// ---------------------------------------------------------------------------
// Validation
// ---------------------------------------------------------------------------

/// Rejects a byte count above `max`.
pub fn validate_bytes(label: &str, actual: usize, max: usize) -> (r: Result<(), ActorError>)
    ensures
        outcome(r) == check_bytes(label@, actual as nat, max as nat),
{
    if actual > max {
        let body = with_number(with_number(appended(owned(label), " is "), actual, " bytes; maximum is "), max, " bytes");
        return Err(ActorError::new(ErrorCode::LimitExceeded, body));
    }
    Ok(())
}

/// Rejects an entry count above `max`.
pub fn validate_count(label: &str, actual: usize, max: usize) -> (r: Result<(), ActorError>)
    ensures
        outcome(r) == check_count(label@, actual as nat, max as nat),
{
    if actual > max {
        let body = with_number(with_number(appended(owned(label), " has "), actual, " entries; maximum is "), max, "");
        proof {
            reveal_strlit("");
        }
        assert(body@ =~= label@ + " has "@ + decimal(actual as nat) + " entries; maximum is "@ + decimal(max as nat));
        return Err(ActorError::new(ErrorCode::LimitExceeded, body));
    }
    Ok(())
}

/// Rejects an empty string or one longer than `max` bytes.
pub fn validate_string(label: &str, value: &str, max: usize) -> (r: Result<(), ActorError>)
    ensures
        outcome(r) == check_string(label@, value@, max as nat),
{
    if value.is_empty() {
        return Err(ActorError::new(ErrorCode::InvalidInput, appended(owned(label), " cannot be empty")));
    }
    validate_bytes(label, value.len(), max)
}

/// Checks an execution context id.
pub fn validate_context_id(context_id: &str) -> (r: Result<(), ActorError>)
    ensures
        outcome(r) == check_string("execution context id"@, context_id@, MAX_CONTEXT_ID_BYTES as nat),
{
    validate_string("execution context id", context_id, MAX_CONTEXT_ID_BYTES)
}

/// Checks a named execution context handle.
pub fn validate_context_handle(context: &ActorContextId) -> (r: Result<(), ActorError>)
    ensures
        outcome(r) == check_context_handle(*context),
{
    if context.generation == 0 {
        return Err(ActorError::new(ErrorCode::InvalidInput, owned("execution context generation must be greater than zero")));
    }
    validate_context_id(context.context_id.as_str())
}

/// Checks inline source text.
pub fn validate_source(label: &str, source: &str) -> (r: Result<(), ActorError>)
    ensures
        outcome(r) == check_string(label@, source@, MAX_SOURCE_BYTES as nat),
{
    validate_string(label, source, MAX_SOURCE_BYTES)
}

/// Checks a guest path.
pub fn validate_path(label: &str, path: &str) -> (r: Result<(), ActorError>)
    ensures
        outcome(r) == check_string(label@, path@, MAX_PATH_BYTES as nat),
{
    validate_string(label, path, MAX_PATH_BYTES)
}

/// Checks a single argument-sized string.
pub fn validate_argument(label: &str, value: &str) -> (r: Result<(), ActorError>)
    ensures
        outcome(r) == check_string(label@, value@, MAX_ARGUMENT_BYTES as nat),
{
    validate_string(label, value, MAX_ARGUMENT_BYTES)
}

/// Checks an optional guest path.
pub fn validate_optional_path(label: &str, path: Option<&str>) -> (r: Result<(), ActorError>)
    ensures
        outcome(r) == check_optional_path(label@, match path { Some(p) => Some(p@), None => None }),
{
    match path {
        Some(p) => validate_path(label, p),
        None => Ok(()),
    }
}

/// Checks an optional bounded string.
pub fn validate_optional_string(label: &str, value: Option<&str>, max: usize) -> (r: Result<(), ActorError>)
    ensures
        outcome(r) == check_optional_string(label@, match value { Some(v) => Some(v@), None => None }, max as nat),
{
    match value {
        Some(v) => validate_string(label, v, max),
        None => Ok(()),
    }
}

/// Checks a language argument list.
pub fn validate_arguments(arguments: &[String]) -> (r: Result<(), ActorError>)
    ensures
        outcome(r) == check_arguments(arguments@),
{
    let r = validate_count("language arguments", arguments.len(), MAX_ARGUMENTS);
    if r.is_err() {
        return r;
    }
    let ghost check = |i: int| check_bytes("language argument"@, byte_len(arguments@[i]@), MAX_ARGUMENT_BYTES as nat);
    let n = arguments.len();
    let mut i: usize = 0;
    while i < n
        invariant
            n == arguments@.len(),
            i <= n,
            check == (|i: int| check_bytes("language argument"@, byte_len(arguments@[i]@), MAX_ARGUMENT_BYTES as nat)),
            check_arguments(arguments@) == first_failure(n as int, check),
            first_failure(n as int, check) == scan(n as int, check, i as int),
        decreases n - i,
    {
        let r = validate_bytes("language argument", arguments[i].as_str().len(), MAX_ARGUMENT_BYTES);
        if r.is_err() {
            return r;
        }
        i += 1;
    }
    Ok(())
}

/// Checks a language environment.
pub fn validate_environment(environment: &StringMap) -> (r: Result<(), ActorError>)
    ensures
        outcome(r) == check_environment(environment@),
{
    let r = validate_count("language environment entries", environment.len(), MAX_ENVIRONMENT_ENTRIES);
    if r.is_err() {
        return r;
    }
    match environment.checked_total_bytes() {
        None => Err(ActorError::new(ErrorCode::LimitExceeded, owned("language environment byte count overflow"))),
        Some(bytes) => validate_bytes("language environment", bytes, MAX_ENVIRONMENT_BYTES),
    }
}

/// Checks a package list.
pub fn validate_packages(label: &str, packages: &[String]) -> (r: Result<(), ActorError>)
    ensures
        outcome(r) == check_packages(label@, packages@),
{
    let r = validate_count(label, packages.len(), MAX_PACKAGES);
    if r.is_err() {
        return r;
    }
    let ghost check = |i: int| check_string(label@, packages@[i]@, MAX_ARGUMENT_BYTES as nat);
    let n = packages.len();
    let mut i: usize = 0;
    while i < n
        invariant
            n == packages@.len(),
            i <= n,
            check == (|i: int| check_string(label@, packages@[i]@, MAX_ARGUMENT_BYTES as nat)),
            check_packages(label@, packages@) == first_failure(n as int, check),
            first_failure(n as int, check) == scan(n as int, check, i as int),
        decreases n - i,
    {
        let r = validate_string(label, packages[i].as_str(), MAX_ARGUMENT_BYTES);
        if r.is_err() {
            return r;
        }
        i += 1;
    }
    Ok(())
}

/// Rejects a JSON value whose encoding, `encoded_bytes` long, exceeds
/// `MAX_JSON_BYTES`.
pub fn validate_json_value(label: &str, encoded_bytes: usize) -> (r: Result<(), ActorError>)
    ensures
        outcome(r) == check_bytes(label@, encoded_bytes as nat, MAX_JSON_BYTES as nat),
{
    validate_bytes(label, encoded_bytes, MAX_JSON_BYTES)
}

/// Rejects an encoded reply, `encoded_bytes` long, that exceeds
/// `MAX_RESULT_BYTES`.
pub fn validate_cbor_result(label: &str, encoded_bytes: usize) -> (r: Result<(), ActorError>)
    ensures
        outcome(r) == check_bytes(label@, encoded_bytes as nat, MAX_RESULT_BYTES as nat),
{
    validate_bytes(label, encoded_bytes, MAX_RESULT_BYTES)
}

/// Checks an optional JSON object: its entry count, then the length of its
/// JSON encoding, `encoded_bytes`.
pub fn validate_json_map(label: &str, value: Option<&Vec<(String, JsonValue)>>, encoded_bytes: usize) -> (r: Result<(), ActorError>)
    ensures
        outcome(r) == check_json_map(label@, match value { Some(m) => Some(m@.len()), None => None }, encoded_bytes as nat),
{
    match value {
        Some(m) => {
            let r = validate_count(label, m.len(), MAX_PACKAGES);
            if r.is_err() {
                return r;
            }
            validate_json_value(label, encoded_bytes)
        },
        None => Ok(()),
    }
}

/// Checks an optional timeout.
pub fn validate_timeout(timeout_ms: Option<u64>) -> (r: Result<(), ActorError>)
    ensures
        outcome(r) == check_timeout(timeout_ms),
{
    match timeout_ms {
        Some(0) => Err(ActorError::new(ErrorCode::InvalidInput, owned("language timeoutMs must be greater than zero"))),
        Some(t) => if t > MAX_TIMEOUT_MS {
            Err(ActorError::new(ErrorCode::LimitExceeded, owned("language timeout exceeds 300000ms; lower timeoutMs")))
        } else {
            Ok(())
        },
        None => Ok(()),
    }
}

fn validate_pty_dimension(name: &str, value: Option<u16>) -> (r: Result<(), ActorError>)
    ensures
        outcome(r) == check_pty_dimension(name@, value),
{
    match value {
        Some(v) => if v == 0 || v > MAX_TERMINAL_DIMENSION {
            let body = with_text(owned("language PTY "), name, " must be between 1 and 4096");
            Err(ActorError::new(ErrorCode::LimitExceeded, body))
        } else {
            Ok(())
        },
        None => Ok(()),
    }
}

fn validate_stdin(stdin: &Option<FileContentInput>) -> (r: Result<(), ActorError>)
    ensures
        outcome(r) == check_stdin(*stdin),
{
    match stdin {
        Some(content) => validate_bytes("language stdin", content.byte_len(), MAX_STDIN_BYTES),
        None => Ok(()),
    }
}

fn validate_optional_context(context: &Option<ActorContextId>) -> (r: Result<(), ActorError>)
    ensures
        outcome(r) == check_optional_context(*context),
{
    match context {
        Some(c) => validate_context_handle(c),
        None => Ok(()),
    }
}

fn validate_retain_events(output: ActorExecutionOutputOptions, context: &Option<ActorContextId>) -> (r: Result<(), ActorError>)
    ensures
        outcome(r) == check_retain_events(output, *context),
{
    if output.retain_events == Some(true) && context.is_none() {
        return Err(ActorError::new(ErrorCode::InvalidInput, owned("retainEvents requires a named execution context")));
    }
    Ok(())
}

fn as_str_option(value: &Option<String>) -> (r: Option<&str>)
    ensures
        match r { Some(s) => Some(s@), None => None::<Seq<char>> } == opt_view(*value),
{
    match value {
        Some(s) => Some(s.as_str()),
        None => None,
    }
}

impl ActorExecutionPtyOptions {
    /// Rejects a zero or oversized column or row count.
    pub fn validate(self) -> (r: Result<(), ActorError>)
        ensures
            outcome(r) == check_pty(self),
    {
        let r = validate_pty_dimension("cols", self.cols);
        if r.is_err() {
            return r;
        }
        validate_pty_dimension("rows", self.rows)
    }
}

fn validate_optional_pty(pty: Option<ActorExecutionPtyOptions>) -> (r: Result<(), ActorError>)
    ensures
        outcome(r) == check_optional_pty(pty),
{
    match pty {
        Some(p) => p.validate(),
        None => Ok(()),
    }
}

/// Everything a synchronous language execution must satisfy, in check order.
pub open spec fn check_execution_options(o: ActorLanguageExecutionOptions) -> Outcome {
    then(check_optional_context(o.context),
    then(check_optional_path("language cwd"@, opt_view(o.cwd)),
    then(check_environment(o.env@),
    then(check_arguments(o.args@),
    then(check_stdin(o.stdin),
    then(check_timeout(o.timeout_ms),
    then(check_optional_pty(o.pty),
    check_retain_events(o.output, o.context))))))))
}

/// Everything a spawned language process must satisfy, in check order.
pub open spec fn check_spawn_options(o: ActorLanguageSpawnOptions) -> Outcome {
    then(check_optional_path("language cwd"@, opt_view(o.cwd)),
    then(check_environment(o.env@),
    then(check_arguments(o.args@),
    then(check_stdin(o.stdin),
    then(check_timeout(o.timeout_ms),
    check_optional_pty(o.pty))))))
}

/// Everything an npm installation must satisfy, in check order.
pub open spec fn check_npm_install(o: ActorNpmInstallOptions, packages: Seq<String>) -> Outcome {
    then(check_optional_context(o.context),
    then(check_optional_path("npm cwd"@, opt_view(o.cwd)),
    then(check_environment(o.env@),
    then(check_timeout(o.timeout_ms),
    then(check_packages("npm package"@, packages),
    then(if packages.len() == 0 && (o.dev is Some || o.global is Some) {
            Err(fault(ErrorCode::InvalidInput, "dev and global require explicit npm packages"@))
        } else { Ok(()) },
    then(if packages.len() != 0 && o.frozen is Some {
            Err(fault(ErrorCode::InvalidInput, "frozen applies only to npm project installation"@))
        } else { Ok(()) },
    check_retain_events(o.output, o.context))))))))
}

/// Everything a Python installation must satisfy, in check order.
pub open spec fn check_python_install(o: ActorPythonInstallOptions, packages: Seq<String>) -> Outcome {
    then(check_optional_context(o.context),
    then(check_optional_path("Python cwd"@, opt_view(o.cwd)),
    then(check_environment(o.env@),
    then(check_timeout(o.timeout_ms),
    then(check_packages("Python package"@, packages),
    then(check_optional_path("Python requirements file"@, opt_view(o.requirements_file)),
    then(if packages.len() != 0 && o.requirements_file is Some {
            Err(fault(ErrorCode::InvalidInput, "Python packages and requirementsFile are mutually exclusive"@))
        } else { Ok(()) },
    then(check_optional_string("Python index URL"@, opt_view(o.index_url), MAX_ARGUMENT_BYTES as nat),
    then(check_count("Python extra index URLs"@, o.extra_index_urls@.len(), MAX_INDEX_URLS as nat),
    then(first_failure(o.extra_index_urls@.len() as int,
            |i: int| check_string("Python extra index URL"@, o.extra_index_urls@[i]@, MAX_ARGUMENT_BYTES as nat)),
    check_retain_events(o.output, o.context)))))))))))
}

impl ActorLanguageExecutionOptions {
    /// Checks every bound of a synchronous execution.
    pub fn validate(&self) -> (r: Result<(), ActorError>)
        ensures
            outcome(r) == check_execution_options(*self),
    {
        let r = validate_optional_context(&self.context);
        if r.is_err() { return r; }
        let r = validate_optional_path("language cwd", as_str_option(&self.cwd));
        if r.is_err() { return r; }
        let r = validate_environment(&self.env);
        if r.is_err() { return r; }
        let r = validate_arguments(self.args.as_slice());
        if r.is_err() { return r; }
        let r = validate_stdin(&self.stdin);
        if r.is_err() { return r; }
        let r = validate_timeout(self.timeout_ms);
        if r.is_err() { return r; }
        let r = validate_optional_pty(self.pty);
        if r.is_err() { return r; }
        validate_retain_events(self.output, &self.context)
    }

    /// The named context the execution runs in, if any.
    pub fn context(&self) -> (c: Option<&ActorContextId>)
        ensures
            match c { Some(c) => self.context == Some(*c), None => self.context is None },
    {
        match &self.context {
            Some(c) => Some(c),
            None => None,
        }
    }
}

impl ActorLanguageSpawnOptions {
    /// Checks every bound of a spawned language process.
    pub fn validate(&self) -> (r: Result<(), ActorError>)
        ensures
            outcome(r) == check_spawn_options(*self),
    {
        let r = validate_optional_path("language cwd", as_str_option(&self.cwd));
        if r.is_err() { return r; }
        let r = validate_environment(&self.env);
        if r.is_err() { return r; }
        let r = validate_arguments(self.args.as_slice());
        if r.is_err() { return r; }
        let r = validate_stdin(&self.stdin);
        if r.is_err() { return r; }
        let r = validate_timeout(self.timeout_ms);
        if r.is_err() { return r; }
        validate_optional_pty(self.pty)
    }
}

impl ActorNpmInstallOptions {
    /// Checks an npm installation of `packages` (empty: the project's own).
    pub fn validate(&self, packages: &[String]) -> (r: Result<(), ActorError>)
        ensures
            outcome(r) == check_npm_install(*self, packages@),
    {
        let r = validate_optional_context(&self.context);
        if r.is_err() { return r; }
        let r = validate_optional_path("npm cwd", as_str_option(&self.cwd));
        if r.is_err() { return r; }
        let r = validate_environment(&self.env);
        if r.is_err() { return r; }
        let r = validate_timeout(self.timeout_ms);
        if r.is_err() { return r; }
        let r = validate_packages("npm package", packages);
        if r.is_err() { return r; }
        if packages.len() == 0 && (self.dev.is_some() || self.global.is_some()) {
            return Err(ActorError::new(ErrorCode::InvalidInput, owned("dev and global require explicit npm packages")));
        }
        if packages.len() != 0 && self.frozen.is_some() {
            return Err(ActorError::new(ErrorCode::InvalidInput, owned("frozen applies only to npm project installation")));
        }
        validate_retain_events(self.output, &self.context)
    }

    /// The named context the installation runs in, if any.
    pub fn context(&self) -> (c: Option<&ActorContextId>)
        ensures
            match c { Some(c) => self.context == Some(*c), None => self.context is None },
    {
        match &self.context {
            Some(c) => Some(c),
            None => None,
        }
    }
}

impl ActorPythonInstallOptions {
    /// Checks a Python installation of `packages`.
    pub fn validate(&self, packages: &[String]) -> (r: Result<(), ActorError>)
        ensures
            outcome(r) == check_python_install(*self, packages@),
    {
        let r = validate_optional_context(&self.context);
        if r.is_err() { return r; }
        let r = validate_optional_path("Python cwd", as_str_option(&self.cwd));
        if r.is_err() { return r; }
        let r = validate_environment(&self.env);
        if r.is_err() { return r; }
        let r = validate_timeout(self.timeout_ms);
        if r.is_err() { return r; }
        let r = validate_packages("Python package", packages);
        if r.is_err() { return r; }
        let r = validate_optional_path("Python requirements file", as_str_option(&self.requirements_file));
        if r.is_err() { return r; }
        if packages.len() != 0 && self.requirements_file.is_some() {
            return Err(ActorError::new(ErrorCode::InvalidInput, owned("Python packages and requirementsFile are mutually exclusive")));
        }
        let r = validate_optional_string("Python index URL", as_str_option(&self.index_url), MAX_ARGUMENT_BYTES);
        if r.is_err() { return r; }
        let r = validate_count("Python extra index URLs", self.extra_index_urls.len(), MAX_INDEX_URLS);
        if r.is_err() { return r; }
        let urls = &self.extra_index_urls;
        let ghost check = |i: int| check_string("Python extra index URL"@, urls@[i]@, MAX_ARGUMENT_BYTES as nat);
        let n = urls.len();
        let mut i: usize = 0;
        assert(check_python_install(*self, packages@) == then(first_failure(n as int, check), check_retain_events(self.output, self.context)));
        while i < n
            invariant
                n == urls@.len(),
                check_python_install(*self, packages@) == then(first_failure(n as int, check), check_retain_events(self.output, self.context)),
                i <= n,
                check == (|i: int| check_string("Python extra index URL"@, urls@[i]@, MAX_ARGUMENT_BYTES as nat)),
                first_failure(n as int, check) == scan(n as int, check, i as int),
            decreases n - i,
        {
            let r = validate_string("Python extra index URL", urls[i].as_str(), MAX_ARGUMENT_BYTES);
            if r.is_err() {
                return r;
            }
            i += 1;
        }
        validate_retain_events(self.output, &self.context)
    }

    /// The named context the installation runs in, if any.
    pub fn context(&self) -> (c: Option<&ActorContextId>)
        ensures
            match c { Some(c) => self.context == Some(*c), None => self.context is None },
    {
        match &self.context {
            Some(c) => Some(c),
            None => None,
        }
    }
}

/// Everything an inline execution must satisfy, in check order; `inputs_bytes`
/// is the length of the inputs' JSON encoding.
pub open spec fn check_inline_options(o: ActorInlineExecutionOptions, inputs_bytes: nat) -> Outcome {
    then(check_execution_options(o.process),
    check_json_map("language inputs"@, object_entries(o.inputs), inputs_bytes))
}

/// Everything an inline JavaScript execution must satisfy, in check order.
pub open spec fn check_javascript_options(o: ActorJavaScriptExecutionOptions, inputs_bytes: nat) -> Outcome {
    then(check_inline_options(o.inline, inputs_bytes),
    check_optional_path("JavaScript virtual file path"@, opt_view(o.file_path)))
}

/// Everything an inline TypeScript execution must satisfy, in check order;
/// `compiler_options_bytes` is the length of the compiler options' JSON
/// encoding.
pub open spec fn check_typescript_options(o: ActorTypeScriptExecutionOptions, inputs_bytes: nat, compiler_options_bytes: nat) -> Outcome {
    then(check_inline_options(o.inline, inputs_bytes),
    then(check_optional_path("TypeScript virtual file path"@, opt_view(o.file_path)),
    then(check_optional_path("TypeScript config path"@, opt_view(o.tsconfig_path)),
    check_json_map("TypeScript compiler options"@, object_entries(o.compiler_options), compiler_options_bytes))))
}

/// Everything a TypeScript check must satisfy, in check order.
pub open spec fn check_typescript_check(o: ActorTypeScriptCheckOptions, compiler_options_bytes: nat) -> Outcome {
    then(check_optional_context(o.context),
    then(check_optional_path("TypeScript cwd"@, opt_view(o.cwd)),
    then(check_optional_path("TypeScript virtual file path"@, opt_view(o.file_path)),
    then(check_optional_path("TypeScript config path"@, opt_view(o.tsconfig_path)),
    then(check_json_map("TypeScript compiler options"@, object_entries(o.compiler_options), compiler_options_bytes),
    then(check_timeout(o.timeout_ms),
    check_retain_events(o.output, o.context)))))))
}

fn as_object_option(value: &Option<Vec<(String, JsonValue)>>) -> (r: Option<&Vec<(String, JsonValue)>>)
    ensures
        match r { Some(m) => Some(m@.len()), None => None::<nat> } == object_entries(*value),
{
    match value {
        Some(m) => Some(m),
        None => None,
    }
}

impl ActorInlineExecutionOptions {
    /// Checks the process options, then the inputs, whose JSON encoding is
    /// `inputs_bytes` long.
    pub fn validate(&self, inputs_bytes: usize) -> (r: Result<(), ActorError>)
        ensures
            outcome(r) == check_inline_options(*self, inputs_bytes as nat),
    {
        let r = self.process.validate();
        if r.is_err() { return r; }
        validate_json_map("language inputs", as_object_option(&self.inputs), inputs_bytes)
    }

    /// The named context the execution runs in, if any.
    pub fn context(&self) -> (c: Option<&ActorContextId>)
        ensures
            match c { Some(c) => self.process.context == Some(*c), None => self.process.context is None },
    {
        self.process.context()
    }
}

impl ActorJavaScriptExecutionOptions {
    /// Checks the inline options, then the virtual file path.
    pub fn validate(&self, inputs_bytes: usize) -> (r: Result<(), ActorError>)
        ensures
            outcome(r) == check_javascript_options(*self, inputs_bytes as nat),
    {
        let r = self.inline.validate(inputs_bytes);
        if r.is_err() { return r; }
        validate_optional_path("JavaScript virtual file path", as_str_option(&self.file_path))
    }

    /// The named context the execution runs in, if any.
    pub fn context(&self) -> (c: Option<&ActorContextId>)
        ensures
            match c { Some(c) => self.inline.process.context == Some(*c), None => self.inline.process.context is None },
    {
        self.inline.context()
    }
}

impl ActorTypeScriptExecutionOptions {
    /// Checks the inline options, the paths, then the compiler options, whose
    /// JSON encoding is `compiler_options_bytes` long.
    pub fn validate(&self, inputs_bytes: usize, compiler_options_bytes: usize) -> (r: Result<(), ActorError>)
        ensures
            outcome(r) == check_typescript_options(*self, inputs_bytes as nat, compiler_options_bytes as nat),
    {
        let r = self.inline.validate(inputs_bytes);
        if r.is_err() { return r; }
        let r = validate_optional_path("TypeScript virtual file path", as_str_option(&self.file_path));
        if r.is_err() { return r; }
        let r = validate_optional_path("TypeScript config path", as_str_option(&self.tsconfig_path));
        if r.is_err() { return r; }
        validate_json_map("TypeScript compiler options", as_object_option(&self.compiler_options), compiler_options_bytes)
    }

    /// The named context the execution runs in, if any.
    pub fn context(&self) -> (c: Option<&ActorContextId>)
        ensures
            match c { Some(c) => self.inline.process.context == Some(*c), None => self.inline.process.context is None },
    {
        self.inline.context()
    }
}

impl ActorTypeScriptCheckOptions {
    /// Checks every bound of a TypeScript check.
    pub fn validate(&self, compiler_options_bytes: usize) -> (r: Result<(), ActorError>)
        ensures
            outcome(r) == check_typescript_check(*self, compiler_options_bytes as nat),
    {
        let r = validate_optional_context(&self.context);
        if r.is_err() { return r; }
        let r = validate_optional_path("TypeScript cwd", as_str_option(&self.cwd));
        if r.is_err() { return r; }
        let r = validate_optional_path("TypeScript virtual file path", as_str_option(&self.file_path));
        if r.is_err() { return r; }
        let r = validate_optional_path("TypeScript config path", as_str_option(&self.tsconfig_path));
        if r.is_err() { return r; }
        let r = validate_json_map("TypeScript compiler options", as_object_option(&self.compiler_options), compiler_options_bytes);
        if r.is_err() { return r; }
        let r = validate_timeout(self.timeout_ms);
        if r.is_err() { return r; }
        validate_retain_events(self.output, &self.context)
    }

    /// The named context the check runs in, if any.
    pub fn context(&self) -> (c: Option<&ActorContextId>)
        ensures
            match c { Some(c) => self.context == Some(*c), None => self.context is None },
    {
        match &self.context {
            Some(c) => Some(c),
            None => None,
        }
    }
}

// ---------------------------------------------------------------------------
// Results reported by the sidecar
// ---------------------------------------------------------------------------

/// A named execution context as the sidecar describes it.
#[derive(Debug, Clone, PartialEq, Eq)]
pub struct ContextDescriptor {
    pub context_id: String,
    pub state: String,
    pub language: Option<String>,
    pub created_at_ms: u64,
    pub last_started_at_ms: Option<u64>,
    pub last_completed_at_ms: Option<u64>,
}

/// The lifecycle state of an execution, as the sidecar reports it.
#[derive(Debug, Clone, Copy, PartialEq, Eq, Structural)]
pub enum ExecutionState {
    Creating,
    Idle,
    Running,
    Resetting,
    Deleting,
    Failed,
}

/// The language a retained execution runs.
#[derive(Debug, Clone, Copy, PartialEq, Eq, Structural)]
pub enum RetainedExecutionLanguage {
    JavaScript,
    Python,
}

/// How an execution ended, as the sidecar reports it.
#[derive(Debug, Clone, Copy, PartialEq, Eq, Structural)]
pub enum ExecutionOutcome {
    Succeeded,
    Failed,
    Cancelled,
    TimedOut,
}

/// One execution as the sidecar describes it.
#[derive(Debug, Clone, PartialEq, Eq)]
pub struct ExecutionDescriptor {
    pub execution_id: String,
    pub generation: u64,
    pub state: ExecutionState,
    pub retained_language: Option<RetainedExecutionLanguage>,
    pub process_id: Option<String>,
    pub pid: Option<u32>,
    pub created_at_ms: u64,
    pub last_started_at_ms: Option<u64>,
    pub last_completed_at_ms: Option<u64>,
    pub last_outcome: Option<ExecutionOutcome>,
    pub last_exit_code: Option<i32>,
}

/// A guest error as the sidecar reports it; `details` is JSON text.
#[derive(Debug, Clone, PartialEq, Eq)]
pub struct ExecutionErrorData {
    pub code: String,
    pub name: String,
    pub message: String,
    pub stack: Option<String>,
    pub details: Option<String>,
}

/// The result of a synchronous execution as the sidecar reports it.
#[derive(Debug, Clone, PartialEq, Eq)]
pub struct CodeExecutionResult {
    pub execution: Option<ExecutionDescriptor>,
    pub outcome: ExecutionOutcome,
    pub exit_code: Option<i32>,
    pub error: Option<ExecutionErrorData>,
    pub stdout: Option<Vec<u8>>,
    pub stderr: Option<Vec<u8>>,
    pub stdout_truncated: Option<bool>,
    pub stderr_truncated: Option<bool>,
    pub evaluation_value: Option<String>,
    pub type_script_check_result: Option<String>,
}

/// One TypeScript compiler diagnostic as the sidecar reports it.
#[derive(Debug, Clone, PartialEq, Eq)]
pub struct TypeScriptDiagnostic {
    pub code: u32,
    pub category: String,
    pub message: String,
    pub file_path: Option<String>,
    pub line: Option<u32>,
    pub column: Option<u32>,
}

/// The result of a TypeScript check as the sidecar reports it.
#[derive(Debug, Clone, PartialEq, Eq)]
pub struct TypeScriptCheckResult {
    pub result: CodeExecutionResult,
    pub has_errors: Option<bool>,
    pub diagnostics: Vec<TypeScriptDiagnostic>,
}

/// A guest error returned to the caller; `details` is JSON text.
#[derive(Debug, Clone, PartialEq, Eq)]
pub struct ActorExecutionError {
    pub code: String,
    pub name: String,
    pub message: String,
    pub stack: Option<String>,
    pub details: Option<String>,
}

/// The result of a synchronous execution returned to the caller.
#[derive(Debug, Clone, PartialEq, Eq)]
pub struct ActorCodeExecutionResult {
    pub execution: Option<ActorExecutionDescriptor>,
    pub outcome: ActorExecutionOutcome,
    pub exit_code: Option<i32>,
    pub error: Option<ActorExecutionError>,
    pub stdout: Option<FileBytes>,
    pub stderr: Option<FileBytes>,
    pub stdout_truncated: Option<bool>,
    pub stderr_truncated: Option<bool>,
}

/// The result of a TypeScript check returned to the caller.
#[derive(Debug, Clone, PartialEq, Eq)]
pub struct ActorTypeScriptCheckResult {
    pub result: ActorCodeExecutionResult,
    pub has_errors: Option<bool>,
    pub diagnostics: Vec<ActorTypeScriptDiagnostic>,
}

/// The result of an evaluation as the sidecar reports it.
#[derive(Debug, PartialEq, Eq)]
pub struct CodeEvaluationResult {
    pub result: CodeExecutionResult,
    pub value: Option<JsonValue>,
}

/// The result of an evaluation returned to the caller.
#[derive(Debug, PartialEq, Eq)]
pub struct ActorCodeEvaluationResult {
    pub result: ActorCodeExecutionResult,
    pub value: Option<JsonValue>,
}

/// The public descriptor of a context in the given VM generation.
pub fn actor_context_descriptor(generation: u64, descriptor: ContextDescriptor) -> (d: ActorContextDescriptor)
    ensures
        d == (ActorContextDescriptor {
            context: ActorContextId { generation, context_id: descriptor.context_id },
            state: descriptor.state,
            language: descriptor.language,
            created_at_ms: descriptor.created_at_ms,
            last_started_at_ms: descriptor.last_started_at_ms,
            last_completed_at_ms: descriptor.last_completed_at_ms,
        }),
{
    ActorContextDescriptor {
        context: ActorContextId { generation, context_id: descriptor.context_id },
        state: descriptor.state,
        language: descriptor.language,
        created_at_ms: descriptor.created_at_ms,
        last_started_at_ms: descriptor.last_started_at_ms,
        last_completed_at_ms: descriptor.last_completed_at_ms,
    }
}

/// The public outcome of a reported one.
pub open spec fn outcome_name(o: ExecutionOutcome) -> ActorExecutionOutcome {
    match o {
        ExecutionOutcome::Succeeded => ActorExecutionOutcome::Succeeded,
        ExecutionOutcome::Failed => ActorExecutionOutcome::Failed,
        ExecutionOutcome::Cancelled => ActorExecutionOutcome::Cancelled,
        ExecutionOutcome::TimedOut => ActorExecutionOutcome::TimedOut,
    }
}

/// Maps a reported outcome to its public one.
pub fn actor_execution_outcome(outcome: ExecutionOutcome) -> (o: ActorExecutionOutcome)
    ensures
        o == outcome_name(outcome),
{
    match outcome {
        ExecutionOutcome::Succeeded => ActorExecutionOutcome::Succeeded,
        ExecutionOutcome::Failed => ActorExecutionOutcome::Failed,
        ExecutionOutcome::Cancelled => ActorExecutionOutcome::Cancelled,
        ExecutionOutcome::TimedOut => ActorExecutionOutcome::TimedOut,
    }
}

/// The public name of an execution state.
pub open spec fn state_name(s: ExecutionState) -> Seq<char> {
    match s {
        ExecutionState::Creating => "creating"@,
        ExecutionState::Idle => "idle"@,
        ExecutionState::Running => "running"@,
        ExecutionState::Resetting => "resetting"@,
        ExecutionState::Deleting => "deleting"@,
        ExecutionState::Failed => "failed"@,
    }
}

/// The public name of a retained language.
pub open spec fn language_name(l: RetainedExecutionLanguage) -> Seq<char> {
    match l {
        RetainedExecutionLanguage::JavaScript => "javascript"@,
        RetainedExecutionLanguage::Python => "python"@,
    }
}

/// `out` is the public descriptor of the reported descriptor `d`.
pub open spec fn describes(out: ActorExecutionDescriptor, d: ExecutionDescriptor) -> bool {
    &&& out.execution_id == d.execution_id
    &&& out.generation == d.generation
    &&& out.state@ == state_name(d.state)
    &&& match (out.language, d.retained_language) {
        (None, None) => true,
        (Some(s), Some(l)) => s@ == language_name(l),
        _ => false,
    }
    &&& out.process_id == d.process_id
    &&& out.pid == d.pid
    &&& out.created_at_ms == d.created_at_ms
    &&& out.last_started_at_ms == d.last_started_at_ms
    &&& out.last_completed_at_ms == d.last_completed_at_ms
    &&& out.last_outcome == match d.last_outcome {
        Some(o) => Some(outcome_name(o)),
        None => None,
    }
    &&& out.last_exit_code == d.last_exit_code
}

/// Maps a reported execution descriptor to its public form.
pub fn actor_execution_descriptor(descriptor: ExecutionDescriptor) -> (d: ActorExecutionDescriptor)
    ensures
        describes(d, descriptor),
{
    let state = match descriptor.state {
        ExecutionState::Creating => "creating",
        ExecutionState::Idle => "idle",
        ExecutionState::Running => "running",
        ExecutionState::Resetting => "resetting",
        ExecutionState::Deleting => "deleting",
        ExecutionState::Failed => "failed",
    };
    let language = match descriptor.retained_language {
        Some(RetainedExecutionLanguage::JavaScript) => Some(owned("javascript")),
        Some(RetainedExecutionLanguage::Python) => Some(owned("python")),
        None => None,
    };
    let last_outcome = match descriptor.last_outcome {
        Some(o) => Some(actor_execution_outcome(o)),
        None => None,
    };
    ActorExecutionDescriptor {
        execution_id: descriptor.execution_id,
        generation: descriptor.generation,
        state: owned(state),
        language,
        process_id: descriptor.process_id,
        pid: descriptor.pid,
        created_at_ms: descriptor.created_at_ms,
        last_started_at_ms: descriptor.last_started_at_ms,
        last_completed_at_ms: descriptor.last_completed_at_ms,
        last_outcome,
        last_exit_code: descriptor.last_exit_code,
    }
}

/// The bounds of a reported guest error.
pub open spec fn check_execution_error(e: ExecutionErrorData) -> Outcome {
    then(check_string("language error code"@, e.code@, MAX_ARGUMENT_BYTES as nat),
    then(check_string("language error name"@, e.name@, MAX_ARGUMENT_BYTES as nat),
    then(check_string("language error message"@, e.message@, MAX_JSON_BYTES as nat),
    check_optional_string("language error stack"@, opt_view(e.stack), MAX_JSON_BYTES as nat))))
}

/// The public form of a reported guest error.
pub open spec fn public_error(e: ExecutionErrorData) -> ActorExecutionError {
    ActorExecutionError { code: e.code, name: e.name, message: e.message, stack: e.stack, details: e.details }
}

/// Bounds a reported guest error and maps it to its public form.
pub fn actor_execution_error(error: ExecutionErrorData) -> (r: Result<ActorExecutionError, ActorError>)
    ensures
        outcome_of(r, |e: ActorExecutionError| ()) == check_execution_error(error),
        r matches Ok(e) ==> e == public_error(error),
{
    validate_string("language error code", error.code.as_str(), MAX_ARGUMENT_BYTES)?;
    validate_string("language error name", error.name.as_str(), MAX_ARGUMENT_BYTES)?;
    validate_string("language error message", error.message.as_str(), MAX_JSON_BYTES)?;
    let stack: Option<&str> = match &error.stack {
        Some(s) => Some(s.as_str()),
        None => None,
    };
    validate_optional_string("language error stack", stack, MAX_JSON_BYTES)?;
    Ok(ActorExecutionError {
        code: error.code,
        name: error.name,
        message: error.message,
        stack: error.stack,
        details: error.details,
    })
}

/// A count capped at `usize::MAX`.
pub open spec fn saturated(n: nat) -> nat {
    if n > usize::MAX { usize::MAX as nat } else { n }
}

/// The length of optional bytes.
pub open spec fn bytes_len(b: Option<Vec<u8>>) -> nat {
    match b {
        Some(v) => v@.len(),
        None => 0,
    }
}

/// The UTF-8 length of optional text.
pub open spec fn text_len(t: Option<String>) -> nat {
    match t {
        Some(s) => byte_len(s@),
        None => 0,
    }
}

/// The output bytes a reported result carries, capped at `usize::MAX`.
pub open spec fn output_bytes(r: CodeExecutionResult) -> nat {
    saturated(bytes_len(r.stdout) + bytes_len(r.stderr) + text_len(r.evaluation_value) + text_len(r.type_script_check_result))
}

/// The bounds of a reported execution result.
pub open spec fn check_execution_result(r: CodeExecutionResult) -> Outcome {
    then(check_bytes("language result"@, output_bytes(r), MAX_RESULT_BYTES as nat), match r.error {
        Some(e) => check_execution_error(e),
        None => Ok(()),
    })
}

/// `out` is the public form of the reported result `r`.
pub open spec fn converts(out: ActorCodeExecutionResult, r: CodeExecutionResult) -> bool {
    &&& match (out.execution, r.execution) {
        (None, None) => true,
        (Some(a), Some(d)) => describes(a, d),
        _ => false,
    }
    &&& out.outcome == outcome_name(r.outcome)
    &&& out.exit_code == r.exit_code
    &&& out.error == match r.error {
        Some(e) => Some(public_error(e)),
        None => None,
    }
    &&& out.stdout == match r.stdout {
        Some(b) => Some(FileBytes(b)),
        None => None,
    }
    &&& out.stderr == match r.stderr {
        Some(b) => Some(FileBytes(b)),
        None => None,
    }
    &&& out.stdout_truncated == r.stdout_truncated
    &&& out.stderr_truncated == r.stderr_truncated
}

fn optional_bytes_len(b: &Option<Vec<u8>>) -> (n: usize)
    ensures
        n == bytes_len(*b),
{
    match b {
        Some(v) => v.len(),
        None => 0,
    }
}

fn optional_text_len(t: &Option<String>) -> (n: usize)
    ensures
        n == text_len(*t),
{
    match t {
        Some(s) => s.as_str().len(),
        None => 0,
    }
}

/// Bounds the output a reported result carries and maps it to its public
/// form. The caller then bounds the encoded reply.
pub fn actor_execution_result(result: CodeExecutionResult) -> (r: Result<ActorCodeExecutionResult, ActorError>)
    ensures
        outcome_of(r, |o: ActorCodeExecutionResult| ()) == check_execution_result(result),
        r matches Ok(o) ==> converts(o, result),
{
    let a = optional_bytes_len(&result.stdout);
    let b = optional_bytes_len(&result.stderr);
    let c = optional_text_len(&result.evaluation_value);
    let d = optional_text_len(&result.type_script_check_result);
    let total = a.saturating_add(b).saturating_add(c).saturating_add(d);
    assert(total == output_bytes(result));
    validate_bytes("language result", total, MAX_RESULT_BYTES)?;
    let execution = match result.execution {
        Some(descriptor) => Some(actor_execution_descriptor(descriptor)),
        None => None,
    };
    let error = match result.error {
        Some(e) => Some(actor_execution_error(e)?),
        None => None,
    };
    let stdout = match result.stdout {
        Some(v) => Some(FileBytes(v)),
        None => None,
    };
    let stderr = match result.stderr {
        Some(v) => Some(FileBytes(v)),
        None => None,
    };
    Ok(ActorCodeExecutionResult {
        execution,
        outcome: actor_execution_outcome(result.outcome),
        exit_code: result.exit_code,
        error,
        stdout,
        stderr,
        stdout_truncated: result.stdout_truncated,
        stderr_truncated: result.stderr_truncated,
    })
}

/// The bounds of a reported evaluation: its value's JSON encoding
/// (`value_bytes` long), then the execution result.
pub open spec fn check_evaluation_result(r: CodeEvaluationResult, value_bytes: nat) -> Outcome {
    then(match r.value {
        Some(_) => check_bytes("language evaluation value"@, value_bytes, MAX_JSON_BYTES as nat),
        None => Ok(()),
    }, check_execution_result(r.result))
}

/// Bounds a reported evaluation, whose value's JSON encoding is
/// `value_bytes` long, and maps it to its public form. The caller then
/// bounds the encoded reply.
pub fn actor_evaluation_result(result: CodeEvaluationResult, value_bytes: usize) -> (r: Result<ActorCodeEvaluationResult, ActorError>)
    ensures
        outcome_of(r, |o: ActorCodeEvaluationResult| ()) == check_evaluation_result(result, value_bytes as nat),
        r matches Ok(o) ==> converts(o.result, result.result) && o.value == result.value,
{
    if result.value.is_some() {
        validate_json_value("language evaluation value", value_bytes)?;
    }
    let converted = actor_execution_result(result.result)?;
    Ok(ActorCodeEvaluationResult { result: converted, value: result.value })
}

/// The bytes of a diagnostic's category, message and file path.
pub open spec fn diagnostic_bytes(d: TypeScriptDiagnostic) -> nat {
    byte_len(d.category@) + byte_len(d.message@) + text_len(d.file_path)
}

/// The bytes of the first `n` diagnostics.
pub open spec fn diagnostics_bytes(ds: Seq<TypeScriptDiagnostic>, n: int) -> nat
    decreases n,
{
    if n <= 0 || n > ds.len() {
        0
    } else {
        diagnostics_bytes(ds, n - 1) + diagnostic_bytes(ds[n - 1])
    }
}

/// The bounds of a reported TypeScript check.
pub open spec fn check_typescript_result(r: TypeScriptCheckResult) -> Outcome {
    let ds = r.diagnostics@;
    then(check_count("TypeScript diagnostics"@, ds.len(), MAX_DIAGNOSTICS as nat),
    then(if diagnostics_bytes(ds, ds.len() as int) > usize::MAX {
        Err(fault(ErrorCode::LimitExceeded, "TypeScript diagnostic byte count overflow"@))
    } else {
        check_bytes("TypeScript diagnostics"@, diagnostics_bytes(ds, ds.len() as int), MAX_DIAGNOSTIC_BYTES as nat)
    },
    check_execution_result(r.result)))
}

/// The public form of a reported diagnostic.
pub open spec fn public_diagnostic(d: TypeScriptDiagnostic) -> ActorTypeScriptDiagnostic {
    ActorTypeScriptDiagnostic {
        code: d.code,
        category: d.category,
        message: d.message,
        file_path: d.file_path,
        line: d.line,
        column: d.column,
    }
}

proof fn lemma_diagnostics_bytes_monotone(ds: Seq<TypeScriptDiagnostic>, m: int, n: int)
    requires
        0 <= m <= n <= ds.len(),
    ensures
        diagnostics_bytes(ds, m) <= diagnostics_bytes(ds, n),
    decreases n - m,
{
    if m < n {
        lemma_diagnostics_bytes_monotone(ds, m, n - 1);
    }
}

/// Bounds a reported TypeScript check (diagnostic count and bytes, then the
/// execution result) and maps it to its public form. The caller then bounds
/// the encoded reply.
pub fn actor_typescript_check_result(result: TypeScriptCheckResult) -> (r: Result<ActorTypeScriptCheckResult, ActorError>)
    ensures
        outcome_of(r, |o: ActorTypeScriptCheckResult| ()) == check_typescript_result(result),
        r matches Ok(o) ==> {
            &&& converts(o.result, result.result)
            &&& o.has_errors == result.has_errors
            &&& o.diagnostics@.len() == result.diagnostics@.len()
            &&& forall|i: int| 0 <= i < o.diagnostics@.len()
                ==> #[trigger] o.diagnostics@[i] == public_diagnostic(result.diagnostics@[i])
        },
{
    let n = result.diagnostics.len();
    validate_count("TypeScript diagnostics", n, MAX_DIAGNOSTICS)?;
    let ghost ds = result.diagnostics@;
    let mut total: usize = 0;
    let mut i: usize = 0;
    while i < n
        invariant
            n == ds.len(),
            ds == result.diagnostics@,
            n <= MAX_DIAGNOSTICS,
            i <= n,
            total == diagnostics_bytes(ds, i as int),
        decreases n - i,
    {
        let diagnostic = &result.diagnostics[i];
        let category = diagnostic.category.as_str().len();
        let message = diagnostic.message.as_str().len();
        let path = optional_text_len(&diagnostic.file_path);
        assert(diagnostics_bytes(ds, i as int + 1) == total + category + message + path);
        if total > usize::MAX - category || total + category > usize::MAX - message
            || total + category + message > usize::MAX - path
        {
            proof {
                lemma_diagnostics_bytes_monotone(ds, i as int + 1, n as int);
            }
            return Err(ActorError::new(ErrorCode::LimitExceeded, owned("TypeScript diagnostic byte count overflow")));
        }
        total = total + category + message + path;
        i += 1;
    }
    validate_bytes("TypeScript diagnostics", total, MAX_DIAGNOSTIC_BYTES)?;
    let converted = actor_execution_result(result.result)?;
    let mut diagnostics: Vec<ActorTypeScriptDiagnostic> = Vec::new();
    let mut pending = result.diagnostics;
    let mut j: usize = 0;
    while j < n
        invariant
            n == ds.len(),
            j <= n,
            pending@.len() == n - j,
            forall|k: int| 0 <= k < n - j ==> #[trigger] pending@[k] == ds[j + k],
            diagnostics@.len() == j,
            forall|k: int| 0 <= k < j ==> #[trigger] diagnostics@[k] == public_diagnostic(ds[k]),
        decreases n - j,
    {
        assert(pending@[0] == ds[j as int + 0]);
        let d = pending.remove(0);
        diagnostics.push(ActorTypeScriptDiagnostic {
            code: d.code,
            category: d.category,
            message: d.message,
            file_path: d.file_path,
            line: d.line,
            column: d.column,
        });
        j += 1;
    }
    Ok(ActorTypeScriptCheckResult { result: converted, has_errors: result.has_errors, diagnostics })
}

// ---------------------------------------------------------------------------
// Requests handed to the VM
// ---------------------------------------------------------------------------

/// Output capture as the VM receives it: every field decided.
#[derive(Debug, Clone, Copy, PartialEq, Eq, Structural)]
pub struct ExecutionOutputRequest {
    pub capture: ActorOutputCapture,
    pub retain_events: bool,
}

/// A synchronous language execution as the VM receives it. It always
/// carries a timeout.
#[derive(Debug, Clone, PartialEq, Eq)]
pub struct LanguageExecutionRequest {
    pub context_id: Option<String>,
    pub cwd: Option<String>,
    pub env: StringMap,
    pub args: Vec<String>,
    pub stdin: Option<Vec<u8>>,
    pub timeout_ms: u64,
    pub pty: Option<ActorExecutionPtyOptions>,
    pub output: ExecutionOutputRequest,
}

/// A spawned language process as the VM receives it. Its output is always
/// retained for bounded replay.
#[derive(Debug, Clone, PartialEq, Eq)]
pub struct LanguageSpawnRequest {
    pub cwd: Option<String>,
    pub env: StringMap,
    pub args: Vec<String>,
    pub stdin: Option<Vec<u8>>,
    pub timeout_ms: Option<u64>,
    pub pty: Option<ActorExecutionPtyOptions>,
    pub retain_events: bool,
}

/// An npm project installation as the VM receives it.
#[derive(Debug, Clone, PartialEq, Eq)]
pub struct NpmProjectInstallRequest {
    pub context_id: Option<String>,
    pub cwd: Option<String>,
    pub env: StringMap,
    pub timeout_ms: u64,
    pub frozen: Option<bool>,
    pub output: ExecutionOutputRequest,
}

/// An npm package installation as the VM receives it.
#[derive(Debug, Clone, PartialEq, Eq)]
pub struct NpmPackageInstallRequest {
    pub context_id: Option<String>,
    pub cwd: Option<String>,
    pub env: StringMap,
    pub timeout_ms: u64,
    pub dev: Option<bool>,
    pub global: Option<bool>,
    pub output: ExecutionOutputRequest,
}

/// A Python package installation as the VM receives it.
#[derive(Debug, Clone, PartialEq, Eq)]
pub struct PythonInstallRequest {
    pub context_id: Option<String>,
    pub cwd: Option<String>,
    pub env: StringMap,
    pub timeout_ms: u64,
    pub upgrade: Option<bool>,
    pub requirements_file: Option<String>,
    pub index_url: Option<String>,
    pub extra_index_urls: Vec<String>,
    pub output: ExecutionOutputRequest,
}

/// An inline execution as the VM receives it.
#[derive(Debug, PartialEq, Eq)]
pub struct InlineExecutionRequest {
    pub process: LanguageExecutionRequest,
    pub inputs: Option<Vec<(String, JsonValue)>>,
}

/// An inline JavaScript execution as the VM receives it; the module format
/// is always decided.
#[derive(Debug, PartialEq, Eq)]
pub struct JavaScriptExecutionRequest {
    pub inline: InlineExecutionRequest,
    pub format: ActorJavaScriptModuleFormat,
    pub file_path: Option<String>,
}

/// An inline TypeScript execution as the VM receives it.
#[derive(Debug, PartialEq, Eq)]
pub struct TypeScriptExecutionRequest {
    pub inline: InlineExecutionRequest,
    pub file_path: Option<String>,
    pub tsconfig_path: Option<String>,
    pub compiler_options: Option<Vec<(String, JsonValue)>>,
}

/// A TypeScript check as the VM receives it. It always carries a timeout.
#[derive(Debug, PartialEq, Eq)]
pub struct TypeScriptCheckRequest {
    pub context_id: Option<String>,
    pub cwd: Option<String>,
    pub file_path: Option<String>,
    pub tsconfig_path: Option<String>,
    pub compiler_options: Option<Vec<(String, JsonValue)>>,
    pub timeout_ms: u64,
    pub output: ExecutionOutputRequest,
}

/// The timeout a synchronous operation runs under: the requested one, or
/// the maximum.
pub open spec fn effective_timeout(timeout_ms: Option<u64>) -> u64 {
    match timeout_ms {
        Some(t) => t,
        None => MAX_TIMEOUT_MS,
    }
}

/// The output request of output options: nothing captured and no events
/// retained unless asked.
pub open spec fn output_request(o: ActorExecutionOutputOptions) -> ExecutionOutputRequest {
    ExecutionOutputRequest {
        capture: match o.capture {
            Some(c) => c,
            None => ActorOutputCapture::Silent,
        },
        retain_events: match o.retain_events {
            Some(r) => r,
            None => false,
        },
    }
}

/// The context id of an optional context handle.
pub open spec fn context_id_of(c: Option<ActorContextId>) -> Option<String> {
    match c {
        Some(h) => Some(h.context_id),
        None => None,
    }
}

/// The bytes of optional stdin content.
pub open spec fn stdin_data(stdin: Option<FileContentInput>) -> Option<Seq<u8>> {
    match stdin {
        Some(c) => Some(content_data(c)),
        None => None,
    }
}

fn stdin_bytes(stdin: Option<FileContentInput>) -> (r: Option<Vec<u8>>)
    ensures
        match r {
            Some(b) => stdin_data(stdin) == Some(b@),
            None => stdin_data(stdin) is None,
        },
{
    match stdin {
        Some(c) => Some(c.into_bytes()),
        None => None,
    }
}

impl ActorExecutionOutputOptions {
    /// The output request the VM receives.
    pub fn into_core(self) -> (r: ExecutionOutputRequest)
        ensures
            r == output_request(self),
    {
        ExecutionOutputRequest {
            capture: match self.capture {
                Some(c) => c,
                None => ActorOutputCapture::Silent,
            },
            retain_events: match self.retain_events {
                Some(r) => r,
                None => false,
            },
        }
    }
}

fn context_id(context: Option<ActorContextId>) -> (r: Option<String>)
    ensures
        r == context_id_of(context),
{
    match context {
        Some(h) => Some(h.context_id),
        None => None,
    }
}

/// `r` is the execution request of options `o`: the requested timeout or
/// the maximum, and every other field carried over.
pub open spec fn execution_request_of(r: LanguageExecutionRequest, o: ActorLanguageExecutionOptions) -> bool {
    &&& r.context_id == context_id_of(o.context)
    &&& r.cwd == o.cwd
    &&& r.env@ == o.env@
    &&& r.args == o.args
    &&& match r.stdin {
        Some(b) => stdin_data(o.stdin) == Some(b@),
        None => stdin_data(o.stdin) is None,
    }
    &&& r.timeout_ms == effective_timeout(o.timeout_ms)
    &&& r.pty == o.pty
    &&& r.output == output_request(o.output)
}

impl ActorLanguageExecutionOptions {
    /// The execution request the VM receives; it runs under the requested
    /// timeout or the maximum.
    pub fn into_core(self) -> (r: LanguageExecutionRequest)
        ensures
            execution_request_of(r, self),
    {
        LanguageExecutionRequest {
            context_id: context_id(self.context),
            cwd: self.cwd,
            env: self.env,
            args: self.args,
            stdin: stdin_bytes(self.stdin),
            timeout_ms: match self.timeout_ms {
                Some(t) => t,
                None => MAX_TIMEOUT_MS,
            },
            pty: self.pty,
            output: self.output.into_core(),
        }
    }
}

impl ActorLanguageSpawnOptions {
    /// The spawn request the VM receives; its output is always retained.
    pub fn into_core(self) -> (r: LanguageSpawnRequest)
        ensures
            r.cwd == self.cwd,
            r.env@ == self.env@,
            r.args == self.args,
            match r.stdin {
                Some(b) => stdin_data(self.stdin) == Some(b@),
                None => stdin_data(self.stdin) is None,
            },
            r.timeout_ms == self.timeout_ms,
            r.pty == self.pty,
            r.retain_events,
    {
        LanguageSpawnRequest {
            cwd: self.cwd,
            env: self.env,
            args: self.args,
            stdin: stdin_bytes(self.stdin),
            timeout_ms: self.timeout_ms,
            pty: self.pty,
            retain_events: true,
        }
    }
}

impl ActorNpmInstallOptions {
    /// The project installation request the VM receives.
    pub fn into_project_core(self) -> (r: NpmProjectInstallRequest)
        ensures
            r.context_id == context_id_of(self.context),
            r.cwd == self.cwd,
            r.env@ == self.env@,
            r.timeout_ms == effective_timeout(self.timeout_ms),
            r.frozen == self.frozen,
            r.output == output_request(self.output),
    {
        NpmProjectInstallRequest {
            context_id: context_id(self.context),
            cwd: self.cwd,
            env: self.env,
            timeout_ms: match self.timeout_ms {
                Some(t) => t,
                None => MAX_TIMEOUT_MS,
            },
            frozen: self.frozen,
            output: self.output.into_core(),
        }
    }

    /// The package installation request the VM receives.
    pub fn into_package_core(self) -> (r: NpmPackageInstallRequest)
        ensures
            r.context_id == context_id_of(self.context),
            r.cwd == self.cwd,
            r.env@ == self.env@,
            r.timeout_ms == effective_timeout(self.timeout_ms),
            r.dev == self.dev,
            r.global == self.global,
            r.output == output_request(self.output),
    {
        NpmPackageInstallRequest {
            context_id: context_id(self.context),
            cwd: self.cwd,
            env: self.env,
            timeout_ms: match self.timeout_ms {
                Some(t) => t,
                None => MAX_TIMEOUT_MS,
            },
            dev: self.dev,
            global: self.global,
            output: self.output.into_core(),
        }
    }
}

impl ActorPythonInstallOptions {
    /// The installation request the VM receives.
    pub fn into_core(self) -> (r: PythonInstallRequest)
        ensures
            r.context_id == context_id_of(self.context),
            r.cwd == self.cwd,
            r.env@ == self.env@,
            r.timeout_ms == effective_timeout(self.timeout_ms),
            r.upgrade == self.upgrade,
            r.requirements_file == self.requirements_file,
            r.index_url == self.index_url,
            r.extra_index_urls == self.extra_index_urls,
            r.output == output_request(self.output),
    {
        PythonInstallRequest {
            context_id: context_id(self.context),
            cwd: self.cwd,
            env: self.env,
            timeout_ms: match self.timeout_ms {
                Some(t) => t,
                None => MAX_TIMEOUT_MS,
            },
            upgrade: self.upgrade,
            requirements_file: self.requirements_file,
            index_url: self.index_url,
            extra_index_urls: self.extra_index_urls,
            output: self.output.into_core(),
        }
    }
}

impl ActorInlineExecutionOptions {
    /// The inline execution request the VM receives.
    pub fn into_core(self) -> (r: InlineExecutionRequest)
        ensures
            execution_request_of(r.process, self.process),
            r.inputs == self.inputs,
    {
        InlineExecutionRequest { process: self.process.into_core(), inputs: self.inputs }
    }
}

/// The module format an execution runs as: the requested one, or ES modules.
pub open spec fn effective_format(format: Option<ActorJavaScriptModuleFormat>) -> ActorJavaScriptModuleFormat {
    match format {
        Some(f) => f,
        None => ActorJavaScriptModuleFormat::Module,
    }
}

impl ActorJavaScriptExecutionOptions {
    /// The JavaScript execution request the VM receives; it runs as an ES
    /// module unless another format is requested.
    pub fn into_core(self) -> (r: JavaScriptExecutionRequest)
        ensures
            execution_request_of(r.inline.process, self.inline.process),
            r.inline.inputs == self.inline.inputs,
            r.format == effective_format(self.format),
            r.file_path == self.file_path,
    {
        JavaScriptExecutionRequest {
            inline: self.inline.into_core(),
            format: match self.format {
                Some(f) => f,
                None => ActorJavaScriptModuleFormat::Module,
            },
            file_path: self.file_path,
        }
    }
}

impl ActorTypeScriptExecutionOptions {
    /// The TypeScript execution request the VM receives.
    pub fn into_core(self) -> (r: TypeScriptExecutionRequest)
        ensures
            execution_request_of(r.inline.process, self.inline.process),
            r.inline.inputs == self.inline.inputs,
            r.file_path == self.file_path,
            r.tsconfig_path == self.tsconfig_path,
            r.compiler_options == self.compiler_options,
    {
        TypeScriptExecutionRequest {
            inline: self.inline.into_core(),
            file_path: self.file_path,
            tsconfig_path: self.tsconfig_path,
            compiler_options: self.compiler_options,
        }
    }
}

impl ActorTypeScriptCheckOptions {
    /// The check request the VM receives; it runs under the requested
    /// timeout or the maximum.
    pub fn into_core(self) -> (r: TypeScriptCheckRequest)
        ensures
            r.context_id == context_id_of(self.context),
            r.cwd == self.cwd,
            r.file_path == self.file_path,
            r.tsconfig_path == self.tsconfig_path,
            r.compiler_options == self.compiler_options,
            r.timeout_ms == effective_timeout(self.timeout_ms),
            r.output == output_request(self.output),
    {
        TypeScriptCheckRequest {
            context_id: context_id(self.context),
            cwd: self.cwd,
            file_path: self.file_path,
            tsconfig_path: self.tsconfig_path,
            compiler_options: self.compiler_options,
            timeout_ms: match self.timeout_ms {
                Some(t) => t,
                None => MAX_TIMEOUT_MS,
            },
            output: self.output.into_core(),
        }
    }
}

// ---------------------------------------------------------------------------
// Defaults: every option absent
// ---------------------------------------------------------------------------

impl Default for ActorExecutionOutputOptions {
    fn default() -> (o: ActorExecutionOutputOptions)
        ensures
            o.capture is None,
            o.retain_events is None,
    {
        ActorExecutionOutputOptions { capture: None, retain_events: None }
    }
}

impl Default for ActorLanguageExecutionOptions {
    fn default() -> (o: ActorLanguageExecutionOptions)
        ensures
            o.context is None,
            o.cwd is None,
            o.env@.len() == 0,
            o.args@.len() == 0,
            o.stdin is None,
            o.timeout_ms is None,
            o.pty is None,
            o.output.capture is None,
            o.output.retain_events is None,
    {
        ActorLanguageExecutionOptions {
            context: None,
            cwd: None,
            env: StringMap::new(),
            args: Vec::new(),
            stdin: None,
            timeout_ms: None,
            pty: None,
            output: ActorExecutionOutputOptions::default(),
        }
    }
}

impl Default for ActorLanguageSpawnOptions {
    fn default() -> (o: ActorLanguageSpawnOptions)
        ensures
            o.cwd is None,
            o.env@.len() == 0,
            o.args@.len() == 0,
            o.stdin is None,
            o.timeout_ms is None,
            o.pty is None,
    {
        ActorLanguageSpawnOptions {
            cwd: None,
            env: StringMap::new(),
            args: Vec::new(),
            stdin: None,
            timeout_ms: None,
            pty: None,
        }
    }
}

impl Default for ActorNpmInstallOptions {
    fn default() -> (o: ActorNpmInstallOptions)
        ensures
            o.context is None,
            o.cwd is None,
            o.env@.len() == 0,
            o.timeout_ms is None,
            o.frozen is None,
            o.dev is None,
            o.global is None,
            o.output.capture is None,
            o.output.retain_events is None,
    {
        ActorNpmInstallOptions {
            context: None,
            cwd: None,
            env: StringMap::new(),
            timeout_ms: None,
            frozen: None,
            dev: None,
            global: None,
            output: ActorExecutionOutputOptions::default(),
        }
    }
}

impl Default for ActorPythonInstallOptions {
    fn default() -> (o: ActorPythonInstallOptions)
        ensures
            o.context is None,
            o.cwd is None,
            o.env@.len() == 0,
            o.timeout_ms is None,
            o.upgrade is None,
            o.requirements_file is None,
            o.index_url is None,
            o.extra_index_urls@.len() == 0,
            o.output.capture is None,
            o.output.retain_events is None,
    {
        ActorPythonInstallOptions {
            context: None,
            cwd: None,
            env: StringMap::new(),
            timeout_ms: None,
            upgrade: None,
            requirements_file: None,
            index_url: None,
            extra_index_urls: Vec::new(),
            output: ActorExecutionOutputOptions::default(),
        }
    }
}

impl Default for ActorTypeScriptCheckOptions {
    fn default() -> (o: ActorTypeScriptCheckOptions)
        ensures
            o.context is None,
            o.cwd is None,
            o.file_path is None,
            o.tsconfig_path is None,
            o.compiler_options is None,
            o.timeout_ms is None,
            o.output.capture is None,
            o.output.retain_events is None,
    {
        ActorTypeScriptCheckOptions {
            context: None,
            cwd: None,
            file_path: None,
            tsconfig_path: None,
            compiler_options: None,
            timeout_ms: None,
            output: ActorExecutionOutputOptions::default(),
        }
    }
}

impl Default for ActorInlineExecutionOptions {
    fn default() -> (o: ActorInlineExecutionOptions)
        ensures
            o.process.context is None,
            o.process.cwd is None,
            o.process.env@.len() == 0,
            o.process.args@.len() == 0,
            o.process.stdin is None,
            o.process.timeout_ms is None,
            o.process.pty is None,
            o.process.output.capture is None,
            o.process.output.retain_events is None,
            o.inputs is None,
    {
        ActorInlineExecutionOptions { process: ActorLanguageExecutionOptions::default(), inputs: None }
    }
}

impl Default for ActorJavaScriptExecutionOptions {
    fn default() -> (o: ActorJavaScriptExecutionOptions)
        ensures
            o.inline.process.context is None,
            o.inline.process.cwd is None,
            o.inline.process.env@.len() == 0,
            o.inline.process.args@.len() == 0,
            o.inline.process.stdin is None,
            o.inline.process.timeout_ms is None,
            o.inline.process.pty is None,
            o.inline.process.output.capture is None,
            o.inline.process.output.retain_events is None,
            o.inline.inputs is None,
            o.format is None,
            o.file_path is None,
    {
        ActorJavaScriptExecutionOptions { inline: ActorInlineExecutionOptions::default(), format: None, file_path: None }
    }
}

impl Default for ActorTypeScriptExecutionOptions {
    fn default() -> (o: ActorTypeScriptExecutionOptions)
        ensures
            o.inline.process.context is None,
            o.inline.process.cwd is None,
            o.inline.process.env@.len() == 0,
            o.inline.process.args@.len() == 0,
            o.inline.process.stdin is None,
            o.inline.process.timeout_ms is None,
            o.inline.process.pty is None,
            o.inline.process.output.capture is None,
            o.inline.process.output.retain_events is None,
            o.inline.inputs is None,
            o.file_path is None,
            o.tsconfig_path is None,
            o.compiler_options is None,
    {
        ActorTypeScriptExecutionOptions {
            inline: ActorInlineExecutionOptions::default(),
            file_path: None,
            tsconfig_path: None,
            compiler_options: None,
        }
    }
}

} // verus!
