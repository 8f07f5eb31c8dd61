//! Process and terminal action DTOs and the bounds their inputs must satisfy.
use vstd::prelude::*;

use crate::actor::filesystem::content_bytes;
use crate::contract::events::ProcessStream;
use crate::contract::filesystem::{FileBytes, FileContentInput};
use crate::contract::language::opt_view;
use crate::error::{first_failure, fault, outcome, outcome_of, scan, then, ActorError, ErrorCode, Outcome};
use crate::strmap::{total_bytes, StringMap};
use crate::text::{appended, byte_len, decimal, owned, with_number, with_text};

verus! {

pub const MAX_COMMAND_BYTES: usize = 16 * 1024;
pub const MAX_ARGUMENTS: usize = 1_024;
pub const MAX_ARGUMENT_BYTES: usize = 16 * 1024;
pub const MAX_ENVIRONMENT_ENTRIES: usize = 1_024;
pub const MAX_ENVIRONMENT_BYTES: usize = 256 * 1024;
pub const MAX_STDIN_BYTES: usize = 256 * 1024;
pub const MAX_EXEC_OUTPUT_BYTES: usize = 768 * 1024;
pub const MAX_PROCESS_LIST_ENTRIES: usize = 4_096;
pub const MAX_WAIT_MS: u64 = 5 * 60 * 1_000;
pub const DEFAULT_WAIT_MS: u64 = 30 * 1_000;
pub const MAX_TERMINAL_DIMENSION: u16 = 4_096;

// ---------------------------------------------------------------------------
// Specification of the checks
// ---------------------------------------------------------------------------

/// A nonempty string of at most `limit` bytes.
pub open spec fn check_string(label: Seq<char>, value: Seq<char>, limit: nat) -> Outcome {
    if value.len() == 0 {
        Err(fault(ErrorCode::InvalidInput, label + " must not be empty"@))
    } else if byte_len(value) > limit {
        Err(fault(ErrorCode::LimitExceeded, label + " is "@ + decimal(byte_len(value)) + " bytes, limit is "@ + decimal(limit)))
    } else {
        Ok(())
    }
}

/// A count within `limit`.
pub open spec fn check_count(label: Seq<char>, actual: nat, limit: nat) -> Outcome {
    if actual > limit {
        Err(fault(ErrorCode::LimitExceeded, label + " is "@ + decimal(actual) + ", limit is "@ + decimal(limit)))
    } else {
        Ok(())
    }
}

/// A byte count within `limit`.
pub open spec fn check_bytes(label: Seq<char>, actual: nat, limit: nat) -> Outcome {
    if actual > limit {
        Err(fault(ErrorCode::LimitExceeded, label + " is "@ + decimal(actual) + " bytes, limit is "@ + decimal(limit)))
    } else {
        Ok(())
    }
}

/// A process command.
pub open spec fn check_command(command: Seq<char>) -> Outcome {
    check_string("process command"@, command, MAX_COMMAND_BYTES as nat)
}

/// A process argument list; empty arguments are meaningful and allowed.
pub open spec fn check_arguments(args: Seq<String>) -> Outcome {
    then(
        check_count("process argument count"@, args.len(), MAX_ARGUMENTS as nat),
        first_failure(args.len() as int, |i: int| check_bytes("process argument"@, byte_len(args[i]@), MAX_ARGUMENT_BYTES as nat)),
    )
}

/// A process environment.
pub open spec fn check_environment(env: Seq<(Seq<char>, Seq<char>)>) -> Outcome {
    then(
        check_count("process environment entries"@, env.len(), MAX_ENVIRONMENT_ENTRIES as nat),
        if total_bytes(env) > usize::MAX {
            Err(fault(ErrorCode::LimitExceeded, "environment byte count overflow"@))
        } else {
            check_bytes("process environment"@, total_bytes(env), MAX_ENVIRONMENT_BYTES as nat)
        },
    )
}

/// One terminal dimension.
pub open spec fn check_dimension(name: Seq<char>, value: Option<u16>) -> Outcome {
    match value {
        Some(v) => if v == 0 || v > MAX_TERMINAL_DIMENSION {
            Err(fault(ErrorCode::LimitExceeded, "terminal "@ + name + " must be between 1 and 4096"@))
        } else {
            Ok(())
        },
        None => Ok(()),
    }
}

/// Terminal dimensions: columns first, then rows.
pub open spec fn check_dimensions(cols: Option<u16>, rows: Option<u16>) -> Outcome {
    then(check_dimension("cols"@, cols), check_dimension("rows"@, rows))
}

/// An optional working directory.
pub open spec fn check_cwd(label: Seq<char>, cwd: Option<Seq<char>>) -> Outcome {
    match cwd {
        Some(c) => check_string(label, c, MAX_ARGUMENT_BYTES as nat),
        None => Ok(()),
    }
}

/// Options of a captured command run, in check order.
pub open spec fn check_exec_options(o: ActorExecOptions) -> Outcome {
    then(check_environment(o.env@),
    then(check_cwd("process cwd"@, opt_view(o.cwd)),
    then(match o.stdin {
            Some(content) => check_bytes("process stdin"@, content_bytes(content), MAX_STDIN_BYTES as nat),
            None => Ok(()),
        },
    match o.timeout_ms {
        Some(0) => Err(fault(ErrorCode::InvalidInput, "process timeoutMs must be greater than zero"@)),
        Some(t) => if t > MAX_WAIT_MS {
            Err(fault(ErrorCode::LimitExceeded, "process timeout exceeds 300000ms; lower timeoutMs"@))
        } else {
            Ok(())
        },
        None => Ok(()),
    })))
}

/// Options of an interactive terminal, in check order.
pub open spec fn check_terminal_options(o: ActorTerminalOptions) -> Outcome {
    then(match o.command {
            Some(c) => check_command(c@),
            None => Ok(()),
        },
    then(check_arguments(o.args@),
    then(check_environment(o.env@),
    then(check_cwd("terminal cwd"@, opt_view(o.cwd)),
    check_dimensions(o.cols, o.rows)))))
}

// ---------------------------------------------------------------------------
// DTOs
// ---------------------------------------------------------------------------

/// A process, scoped to the VM generation that started it.
#[derive(Debug, Clone, Copy, PartialEq, Eq, Structural)]
pub struct ActorProcessId {
    pub generation: u64,
    pub pid: u32,
}

/// A terminal, scoped to the VM generation that opened it.
#[derive(Debug, Clone, PartialEq, Eq)]
pub struct ActorTerminalId {
    pub generation: u64,
    pub shell_id: String,
}

/// Options of a captured command run.
#[derive(Debug, Clone, PartialEq, Eq)]
pub struct ActorExecOptions {
    pub env: StringMap,
    pub cwd: Option<String>,
    pub stdin: Option<FileContentInput>,
    pub timeout_ms: Option<u64>,
    pub capture_stdio: Option<bool>,
}

/// Result of a captured command run.
#[derive(Debug, Clone, PartialEq, Eq)]
pub struct ActorExecResult {
    pub status: ActorExitStatus,
    pub stdout: String,
    pub stderr: String,
}

/// `process.run` input.
#[derive(Debug, Clone, PartialEq, Eq)]
pub struct ProcessRun {
    pub command: String,
    pub args: Vec<String>,
    pub options: ActorExecOptions,
}

/// Public description of a spawned process.
#[derive(Debug, Clone, PartialEq, Eq)]
pub struct ActorProcessInfo {
    pub process: ActorProcessId,
    pub command: String,
    pub args: Vec<String>,
    pub running: bool,
    pub exit: Option<ActorExitStatus>,
    pub started_at_ms: i64,
}

/// `process.wait` result.
#[derive(Debug, Clone, Copy, PartialEq, Eq)]
pub struct ActorProcessExit {
    pub process: ActorProcessId,
    pub status: ActorExitStatus,
}

/// `process.list` input.
#[derive(Debug, Clone, PartialEq, Eq)]
pub struct ProcessList {}

/// `process.tree` input.
#[derive(Debug, Clone, PartialEq, Eq)]
pub struct ProcessTree {}

/// A signal that can be delivered to a process.
#[derive(Debug, Clone, Copy, PartialEq, Eq, Structural)]
pub enum ActorSignal {
    Term,
    Interrupt,
    Kill,
}

/// The conventional name of each signal.
pub open spec fn signal_name(signal: ActorSignal) -> Seq<char> {
    match signal {
        ActorSignal::Term => "SIGTERM"@,
        ActorSignal::Interrupt => "SIGINT"@,
        ActorSignal::Kill => "SIGKILL"@,
    }
}

impl ActorSignal {
    /// The conventional signal name.
    pub fn as_str(self) -> (s: &'static str)
        ensures
            s@ == signal_name(self),
    {
        match self {
            ActorSignal::Term => "SIGTERM",
            ActorSignal::Interrupt => "SIGINT",
            ActorSignal::Kill => "SIGKILL",
        }
    }
}

/// How a process ended.
#[derive(Debug, Clone, Copy, PartialEq, Eq, Structural)]
pub struct ActorExitStatus {
    pub exit_code: i32,
    pub signal: Option<ActorSignal>,
}

/// `process.signal` input.
#[derive(Debug, Clone, Copy, PartialEq, Eq)]
pub struct ProcessSignal {
    pub process: ActorProcessId,
    pub signal: ActorSignal,
}

/// `process.stdin.write` input.
#[derive(Debug, Clone, PartialEq, Eq)]
pub struct ProcessStdinWrite {
    pub process: ActorProcessId,
    pub data: FileContentInput,
}

/// `process.pty.resize` input.
#[derive(Debug, Clone, Copy, PartialEq, Eq)]
pub struct ProcessPtyResize {
    pub process: ActorProcessId,
    pub cols: u16,
    pub rows: u16,
}

/// `process.output.read` input.
#[derive(Debug, Clone, Copy, PartialEq, Eq)]
pub struct ProcessOutputRead {
    pub process: ActorProcessId,
    pub after: Option<u64>,
    pub max_events: Option<usize>,
    pub max_bytes: Option<usize>,
}

/// One retained chunk of process output.
#[derive(Debug, Clone, PartialEq, Eq)]
pub struct ActorOutputEvent {
    pub sequence: u64,
    pub stream: ProcessStream,
    pub data: FileBytes,
    pub timestamp_ms: i64,
}

/// A page of retained process output, from a cursor on.
#[derive(Debug, Clone, PartialEq, Eq)]
pub struct ActorOutputReplay {
    pub generation: u64,
    pub events: Vec<ActorOutputEvent>,
    pub next_cursor: Option<u64>,
    pub has_more: bool,
    pub truncated: bool,
    pub end: Option<ActorExitStatus>,
}

/// Options of an interactive terminal.
#[derive(Debug, Clone, PartialEq, Eq)]
pub struct ActorTerminalOptions {
    pub command: Option<String>,
    pub args: Vec<String>,
    pub env: StringMap,
    pub cwd: Option<String>,
    pub cols: Option<u16>,
    pub rows: Option<u16>,
}

/// `terminal.open` input.
#[derive(Debug, Clone, PartialEq, Eq)]
pub struct TerminalOpen {
    pub options: ActorTerminalOptions,
}

/// `terminal.list` input.
#[derive(Debug, Clone, PartialEq, Eq)]
pub struct TerminalList {}

/// Public description of a terminal.
#[derive(Debug, Clone, PartialEq, Eq)]
pub struct ActorTerminalInfo {
    pub terminal: ActorTerminalId,
    pub pid: u32,
    pub running: bool,
    pub exit: Option<ActorExitStatus>,
}

/// `terminal.output.read` input.
#[derive(Debug, Clone, PartialEq, Eq)]
pub struct TerminalOutputRead {
    pub terminal: ActorTerminalId,
    pub after: Option<u64>,
    pub max_bytes: Option<usize>,
    pub max_events: Option<usize>,
}

/// `terminal.stdin.write` input.
#[derive(Debug, Clone, PartialEq, Eq)]
pub struct TerminalStdinWrite {
    pub terminal: ActorTerminalId,
    pub data: FileContentInput,
}

/// `terminal.pty.resize` input.
#[derive(Debug, Clone, PartialEq, Eq)]
pub struct TerminalPtyResize {
    pub terminal: ActorTerminalId,
    pub cols: u16,
    pub rows: u16,
}

/// `terminal.wait` result.
#[derive(Debug, Clone, PartialEq, Eq)]
pub struct ActorTerminalExit {
    pub terminal: ActorTerminalId,
    pub status: ActorExitStatus,
}

// ---------------------------------------------------------------------------
// Validation
// ---------------------------------------------------------------------------

/// Rejects an empty string or one longer than `limit` bytes.
pub fn validate_string(label: &str, value: &str, limit: usize) -> (r: Result<(), ActorError>)
    ensures
        outcome(r) == check_string(label@, value@, limit as nat),
{
    if value.is_empty() {
        return Err(ActorError::new(ErrorCode::InvalidInput, appended(owned(label), " must not be empty")));
    }
    let n = value.len();
    if n > limit {
        let body = with_number(with_number(appended(owned(label), " is "), n, " bytes, limit is "), limit, "");
        proof {
            reveal_strlit("");
        }
        assert(body@ =~= label@ + " is "@ + decimal(n as nat) + " bytes, limit is "@ + decimal(limit as nat));
        return Err(ActorError::new(ErrorCode::LimitExceeded, body));
    }
    Ok(())
}

/// Rejects a count above `limit`.
pub fn validate_count(label: &str, actual: usize, limit: usize) -> (r: Result<(), ActorError>)
    ensures
        outcome(r) == check_count(label@, actual as nat, limit as nat),
{
    if actual > limit {
        let body = with_number(with_number(appended(owned(label), " is "), actual, ", limit is "), limit, "");
        proof {
            reveal_strlit("");
        }
        assert(body@ =~= label@ + " is "@ + decimal(actual as nat) + ", limit is "@ + decimal(limit as nat));
        return Err(ActorError::new(ErrorCode::LimitExceeded, body));
    }
    Ok(())
}

/// Rejects a byte count above `limit`.
pub fn validate_bytes(label: &str, actual: usize, limit: usize) -> (r: Result<(), ActorError>)
    ensures
        outcome(r) == check_bytes(label@, actual as nat, limit as nat),
{
    if actual > limit {
        let body = with_number(with_number(appended(owned(label), " is "), actual, " bytes, limit is "), limit, "");
        proof {
            reveal_strlit("");
        }
        assert(body@ =~= label@ + " is "@ + decimal(actual as nat) + " bytes, limit is "@ + decimal(limit as nat));
        return Err(ActorError::new(ErrorCode::LimitExceeded, body));
    }
    Ok(())
}

/// Checks a process command.
pub fn validate_command(command: &str) -> (r: Result<(), ActorError>)
    ensures
        outcome(r) == check_command(command@),
{
    validate_string("process command", command, MAX_COMMAND_BYTES)
}

/// Checks a process argument list.
pub fn validate_arguments(args: &[String]) -> (r: Result<(), ActorError>)
    ensures
        outcome(r) == check_arguments(args@),
{
    let r = validate_count("process argument count", args.len(), MAX_ARGUMENTS);
    if r.is_err() {
        return r;
    }
    let ghost check = |i: int| check_bytes("process argument"@, byte_len(args@[i]@), MAX_ARGUMENT_BYTES as nat);
    let n = args.len();
    let mut i: usize = 0;
    while i < n
        invariant
            n == args@.len(),
            i <= n,
            check == (|i: int| check_bytes("process argument"@, byte_len(args@[i]@), MAX_ARGUMENT_BYTES as nat)),
            check_arguments(args@) == first_failure(n as int, check),
            first_failure(n as int, check) == scan(n as int, check, i as int),
        decreases n - i,
    {
        let r = validate_bytes("process argument", args[i].as_str().len(), MAX_ARGUMENT_BYTES);
        if r.is_err() {
            return r;
        }
        i += 1;
    }
    Ok(())
}

/// Checks a process environment.
pub fn validate_environment(env: &StringMap) -> (r: Result<(), ActorError>)
    ensures
        outcome(r) == check_environment(env@),
{
    let r = validate_count("process environment entries", env.len(), MAX_ENVIRONMENT_ENTRIES);
    if r.is_err() {
        return r;
    }
    match env.checked_total_bytes() {
        None => Err(ActorError::new(ErrorCode::LimitExceeded, owned("environment byte count overflow"))),
        Some(bytes) => validate_bytes("process environment", bytes, MAX_ENVIRONMENT_BYTES),
    }
}

fn validate_dimension(name: &str, value: Option<u16>) -> (r: Result<(), ActorError>)
    ensures
        outcome(r) == check_dimension(name@, value),
{
    match value {
        Some(v) => if v == 0 || v > MAX_TERMINAL_DIMENSION {
            Err(ActorError::new(ErrorCode::LimitExceeded, with_text(owned("terminal "), name, " must be between 1 and 4096")))
        } else {
            Ok(())
        },
        None => Ok(()),
    }
}

/// Checks terminal dimensions.
pub fn validate_dimensions(cols: Option<u16>, rows: Option<u16>) -> (r: Result<(), ActorError>)
    ensures
        outcome(r) == check_dimensions(cols, rows),
{
    let r = validate_dimension("cols", cols);
    if r.is_err() {
        return r;
    }
    validate_dimension("rows", rows)
}

fn validate_cwd(label: &str, cwd: &Option<String>) -> (r: Result<(), ActorError>)
    ensures
        outcome(r) == check_cwd(label@, opt_view(*cwd)),
{
    match cwd {
        Some(c) => validate_string(label, c.as_str(), MAX_ARGUMENT_BYTES),
        None => Ok(()),
    }
}

/// Checks the options of a captured command run.
pub fn validate_exec_options(options: &ActorExecOptions) -> (r: Result<(), ActorError>)
    ensures
        outcome(r) == check_exec_options(*options),
{
    let r = validate_environment(&options.env);
    if r.is_err() { return r; }
    let r = validate_cwd("process cwd", &options.cwd);
    if r.is_err() { return r; }
    if let Some(stdin) = &options.stdin {
        let r = validate_bytes("process stdin", stdin.byte_len(), MAX_STDIN_BYTES);
        if r.is_err() { return r; }
    }
    match options.timeout_ms {
        Some(0) => Err(ActorError::new(ErrorCode::InvalidInput, owned("process timeoutMs must be greater than zero"))),
        Some(t) => if t > MAX_WAIT_MS {
            Err(ActorError::new(ErrorCode::LimitExceeded, owned("process timeout exceeds 300000ms; lower timeoutMs")))
        } else {
            Ok(())
        },
        None => Ok(()),
    }
}

/// Checks the options of an interactive terminal.
pub fn validate_terminal_options(options: &ActorTerminalOptions) -> (r: Result<(), ActorError>)
    ensures
        outcome(r) == check_terminal_options(*options),
{
    if let Some(command) = &options.command {
        let r = validate_command(command.as_str());
        if r.is_err() { return r; }
    }
    let r = validate_arguments(options.args.as_slice());
    if r.is_err() { return r; }
    let r = validate_environment(&options.env);
    if r.is_err() { return r; }
    let r = validate_cwd("terminal cwd", &options.cwd);
    if r.is_err() { return r; }
    validate_dimensions(options.cols, options.rows)
}

/// The exit status of a process whose exit code is known.
pub fn exit_status(exit_code: Option<i32>) -> (s: Option<ActorExitStatus>)
    ensures
        s == match exit_code {
            Some(code) => Some(ActorExitStatus { exit_code: code, signal: None }),
            None => None,
        },
{
    match exit_code {
        Some(code) => Some(ActorExitStatus { exit_code: code, signal: None }),
        None => None,
    }
}

// ---------------------------------------------------------------------------
// Results reported by the VM
// ---------------------------------------------------------------------------

/// The result of a captured command run as the VM reports it.
#[derive(Debug, Clone, PartialEq, Eq)]
pub struct ExecResult {
    pub exit_code: i32,
    pub stdout: String,
    pub stderr: String,
}

/// A spawned process as the VM reports it.
#[derive(Debug, Clone, PartialEq, Eq)]
pub struct SpawnedProcessInfo {
    pub pid: u32,
    pub command: String,
    pub args: Vec<String>,
    pub running: bool,
    pub exit_code: Option<i32>,
    pub started_at: i64,
}

/// The run state of a process in the process table.
#[derive(Debug, Clone, Copy, PartialEq, Eq, Structural)]
pub enum ProcessStatus {
    Running,
    Exited,
}

/// One process table entry as the VM reports it. Times are milliseconds,
/// carried as the bit patterns of their IEEE-754 values.
#[derive(Debug, Clone, PartialEq, Eq)]
pub struct ProcessInfo {
    pub pid: u32,
    pub tracked_pid: Option<u32>,
    pub ppid: u32,
    pub pgid: u32,
    pub sid: u32,
    pub driver: String,
    pub command: String,
    pub args: Vec<String>,
    pub cwd: String,
    pub status: ProcessStatus,
    pub exit_code: Option<i32>,
    pub start_time_bits: u64,
    pub exit_time_bits: Option<u64>,
}

/// A process and its children as the VM reports them.
#[derive(Debug, PartialEq, Eq)]
pub struct ProcessTreeNode {
    pub info: ProcessInfo,
    pub children: Vec<ProcessTreeNode>,
}

/// One process of the public process tree; `process` names it when the
/// actor tracks it.
#[derive(Debug, PartialEq, Eq)]
pub struct ActorProcessTreeNode {
    pub process: Option<ActorProcessId>,
    pub pid: u32,
    pub ppid: u32,
    pub pgid: u32,
    pub sid: u32,
    pub driver: String,
    pub command: String,
    pub args: Vec<String>,
    pub cwd: String,
    pub status: ProcessStatus,
    pub exit: Option<ActorExitStatus>,
    pub start_time_ms_bits: u64,
    pub exit_time_ms_bits: Option<u64>,
    pub children: Vec<ActorProcessTreeNode>,
}

/// The public process tree of one VM generation.
#[derive(Debug, PartialEq, Eq)]
pub struct ActorProcessTree {
    pub generation: u64,
    pub roots: Vec<ActorProcessTreeNode>,
}

/// Options of a spawned process. How its standard streams are wired is
/// passed to the VM as given.
#[derive(Debug, Clone, PartialEq, Eq)]
pub struct ActorSpawnOptions {
    pub env: StringMap,
    pub cwd: Option<String>,
    pub stdin_fd: Option<i32>,
    pub stdout_fd: Option<i32>,
    pub stderr_fd: Option<i32>,
}

/// The bounds of a spawned process's options.
pub open spec fn check_spawn_options(o: ActorSpawnOptions) -> Outcome {
    then(check_environment(o.env@), check_cwd("process cwd"@, opt_view(o.cwd)))
}

/// Checks the options of a spawned process.
pub fn validate_spawn_options(options: &ActorSpawnOptions) -> (r: Result<(), ActorError>)
    ensures
        outcome(r) == check_spawn_options(*options),
{
    let r = validate_environment(&options.env);
    if r.is_err() {
        return r;
    }
    validate_cwd("process cwd", &options.cwd)
}

/// The bounds of a captured run's output.
pub open spec fn check_exec_result(r: ExecResult) -> Outcome {
    check_bytes("process exec output"@, saturating_sum(byte_len(r.stdout@), byte_len(r.stderr@)), MAX_EXEC_OUTPUT_BYTES as nat)
}

/// A sum capped at `usize::MAX`.
pub open spec fn saturating_sum(a: nat, b: nat) -> nat {
    if a + b > usize::MAX { usize::MAX as nat } else { a + b }
}

/// Bounds a captured run's output and maps it to its public form.
pub fn actor_exec_result(result: ExecResult) -> (r: Result<ActorExecResult, ActorError>)
    ensures
        outcome_of(r, |x: ActorExecResult| ()) == check_exec_result(result),
        r matches Ok(x) ==> x == (ActorExecResult {
            status: ActorExitStatus { exit_code: result.exit_code, signal: None },
            stdout: result.stdout,
            stderr: result.stderr,
        }),
{
    let total = result.stdout.as_str().len().saturating_add(result.stderr.as_str().len());
    validate_bytes("process exec output", total, MAX_EXEC_OUTPUT_BYTES)?;
    Ok(ActorExecResult {
        status: ActorExitStatus { exit_code: result.exit_code, signal: None },
        stdout: result.stdout,
        stderr: result.stderr,
    })
}

/// The public description of a spawned process in the given generation.
pub fn actor_process_info(generation: u64, info: SpawnedProcessInfo) -> (p: ActorProcessInfo)
    ensures
        p == (ActorProcessInfo {
            process: ActorProcessId { generation, pid: info.pid },
            command: info.command,
            args: info.args,
            running: info.running,
            exit: match info.exit_code {
                Some(code) => Some(ActorExitStatus { exit_code: code, signal: None }),
                None => None,
            },
            started_at_ms: info.started_at,
        }),
{
    ActorProcessInfo {
        process: ActorProcessId { generation, pid: info.pid },
        command: info.command,
        args: info.args,
        running: info.running,
        exit: exit_status(info.exit_code),
        started_at_ms: info.started_at,
    }
}

/// `out` carries the fields of the entry `info` of generation `generation`.
pub open spec fn entry_converts(out: ActorProcessTreeNode, info: ProcessInfo, generation: u64) -> bool {
    &&& out.process == match info.tracked_pid {
        Some(pid) => Some(ActorProcessId { generation, pid }),
        None => None,
    }
    &&& out.pid == info.pid
    &&& out.ppid == info.ppid
    &&& out.pgid == info.pgid
    &&& out.sid == info.sid
    &&& out.driver == info.driver
    &&& out.command == info.command
    &&& out.args == info.args
    &&& out.cwd == info.cwd
    &&& out.status == info.status
    &&& out.exit == match info.exit_code {
        Some(code) => Some(ActorExitStatus { exit_code: code, signal: None }),
        None => None,
    }
    &&& out.start_time_ms_bits == info.start_time_bits
    &&& out.exit_time_ms_bits == info.exit_time_bits
}

/// `out` is the public tree of `node` in generation `generation`: each node
/// carries its entry and the public trees of its children, in order.
pub open spec fn tree_converts(out: ActorProcessTreeNode, node: ProcessTreeNode, generation: u64) -> bool
    decreases node,
{
    &&& entry_converts(out, node.info, generation)
    &&& out.children@.len() == node.children@.len()
    &&& forall|i: int| 0 <= i < node.children@.len() ==> tree_converts(#[trigger] out.children@[i], node.children@[i], generation)
}

/// The public process tree of a reported one, in the given generation.
pub fn actor_process_tree_node(node: ProcessTreeNode, generation: u64) -> (out: ActorProcessTreeNode)
    ensures
        tree_converts(out, node, generation),
    decreases node,
{
    let ghost original = node;
    let ProcessTreeNode { info, children } = node;
    let ghost kids = children@;
    let n = children.len();
    let mut pending = children;
    let mut converted: Vec<ActorProcessTreeNode> = Vec::new();
    let mut i: usize = 0;
    while i < n
        invariant
            n == kids.len(),
            kids == original.children@,
            original == node,
            i <= n,
            pending@.len() == n - i,
            forall|k: int| 0 <= k < n - i ==> #[trigger] pending@[k] == kids[i + k],
            converted@.len() == i,
            forall|k: int| 0 <= k < i ==> tree_converts(#[trigger] converted@[k], kids[k], generation),
        decreases n - i,
    {
        assert(pending@[0] == kids[i as int + 0]);
        let child = pending.remove(0);
        assert(decreases_to!(original => child));
        converted.push(actor_process_tree_node(child, generation));
        i += 1;
    }
    ActorProcessTreeNode {
        process: match info.tracked_pid {
            Some(pid) => Some(ActorProcessId { generation, pid }),
            None => None,
        },
        pid: info.pid,
        ppid: info.ppid,
        pgid: info.pgid,
        sid: info.sid,
        driver: info.driver,
        command: info.command,
        args: info.args,
        cwd: info.cwd,
        status: info.status,
        exit: exit_status(info.exit_code),
        start_time_ms_bits: info.start_time_bits,
        exit_time_ms_bits: info.exit_time_bits,
        children: converted,
    }
}

/// The number of processes in a forest of process trees.
pub open spec fn forest_size(roots: Seq<ProcessTreeNode>) -> nat
    decreases roots,
{
    if roots.len() == 0 {
        0
    } else {
        forest_size(roots.drop_last()) + 1 + forest_size(roots.last().children@)
    }
}

/// A count capped at `usize::MAX`.
pub open spec fn capped(n: nat) -> nat {
    if n > usize::MAX { usize::MAX as nat } else { n }
}

/// Counts the processes in a forest of process trees, saturating at `usize::MAX`.
pub fn count_process_tree_nodes(roots: &[ProcessTreeNode]) -> (count: usize)
    ensures
        count == capped(forest_size(roots@)),
    decreases roots@,
{
    let n = roots.len();
    let mut count: usize = 0;
    let mut i: usize = 0;
    while i < n
        invariant
            n == roots@.len(),
            i <= n,
            count == capped(forest_size(roots@.subrange(0, i as int))),
        decreases n - i,
    {
        let node = &roots[i];
        assert(decreases_to!(roots@ => roots@[i as int].children@));
        let below = count_process_tree_nodes(node.children.as_slice());
        let ghost prefix = roots@.subrange(0, i as int);
        let ghost next = roots@.subrange(0, i as int + 1);
        assert(next.drop_last() =~= prefix);
        assert(next.last() == roots@[i as int]);
        count = count.saturating_add(1).saturating_add(below);
        i += 1;
    }
    assert(roots@.subrange(0, n as int) =~= roots@);
    count
}

/// `process.spawn` input.
#[derive(Debug, Clone, PartialEq, Eq)]
pub struct ProcessSpawn {
    pub command: String,
    pub args: Vec<String>,
    pub options: ActorSpawnOptions,
}

impl Default for ActorExecOptions {
    fn default() -> (o: ActorExecOptions)
        ensures
            o.env@.len() == 0,
            o.cwd is None,
            o.stdin is None,
            o.timeout_ms is None,
            o.capture_stdio is None,
    {
        ActorExecOptions { env: StringMap::new(), cwd: None, stdin: None, timeout_ms: None, capture_stdio: None }
    }
}

impl Default for ActorSpawnOptions {
    fn default() -> (o: ActorSpawnOptions)
        ensures
            o.env@.len() == 0,
            o.cwd is None,
            o.stdin_fd is None,
            o.stdout_fd is None,
            o.stderr_fd is None,
    {
        ActorSpawnOptions { env: StringMap::new(), cwd: None, stdin_fd: None, stdout_fd: None, stderr_fd: None }
    }
}

impl Default for ActorTerminalOptions {
    fn default() -> (o: ActorTerminalOptions)
        ensures
            o.command is None,
            o.args@.len() == 0,
            o.env@.len() == 0,
            o.cwd is None,
            o.cols is None,
            o.rows is None,
    {
        ActorTerminalOptions { command: None, args: Vec::new(), env: StringMap::new(), cwd: None, cols: None, rows: None }
    }
}

// ---------------------------------------------------------------------------
// Requests handed to the VM
// ---------------------------------------------------------------------------

/// Standard input as the VM receives it: text or bytes, as supplied.
#[derive(Debug, Clone, PartialEq, Eq)]
pub enum StdinInput {
    Text(String),
    Bytes(Vec<u8>),
}

/// The standard input of supplied content, in the same form.
pub open spec fn stdin_of(content: FileContentInput) -> StdinInput {
    match content {
        FileContentInput::Text(t) => StdinInput::Text(t),
        FileContentInput::Bytes(b) => StdinInput::Bytes(b),
    }
}

/// Hands supplied content to the VM as standard input, in the same form.
pub fn file_content_to_stdin(content: FileContentInput) -> (s: StdinInput)
    ensures
        s == stdin_of(content),
{
    match content {
        FileContentInput::Text(value) => StdinInput::Text(value),
        FileContentInput::Bytes(value) => StdinInput::Bytes(value),
    }
}

/// A captured command run as the VM receives it. It always carries a
/// timeout, in milliseconds.
#[derive(Debug, Clone, PartialEq, Eq)]
pub struct ExecRequest {
    pub env: StringMap,
    pub cwd: Option<String>,
    pub stdin: Option<StdinInput>,
    pub timeout_ms: u64,
    pub capture_stdio: Option<bool>,
}

/// The timeout a captured run runs under: the requested one, or the maximum.
pub open spec fn run_timeout(timeout_ms: Option<u64>) -> u64 {
    match timeout_ms {
        Some(t) => t,
        None => MAX_WAIT_MS,
    }
}

/// The run request of captured-run options; it runs under the requested
/// timeout or the maximum.
pub fn exec_options_into_core(options: ActorExecOptions) -> (r: ExecRequest)
    ensures
        r.env@ == options.env@,
        r.cwd == options.cwd,
        r.stdin == match options.stdin {
            Some(c) => Some(stdin_of(c)),
            None => None,
        },
        r.timeout_ms == run_timeout(options.timeout_ms),
        r.capture_stdio == options.capture_stdio,
{
    let stdin = match options.stdin {
        Some(c) => Some(file_content_to_stdin(c)),
        None => None,
    };
    ExecRequest {
        env: options.env,
        cwd: options.cwd,
        stdin,
        timeout_ms: match options.timeout_ms {
            Some(t) => t,
            None => MAX_WAIT_MS,
        },
        capture_stdio: options.capture_stdio,
    }
}

/// A spawned process as the VM receives it. Its standard input is always
/// streamed and its output always retained.
#[derive(Debug, Clone, PartialEq, Eq)]
pub struct SpawnRequest {
    pub env: StringMap,
    pub cwd: Option<String>,
    pub stdin_fd: Option<i32>,
    pub stdout_fd: Option<i32>,
    pub stderr_fd: Option<i32>,
    pub stream_stdin: bool,
    pub retain_output: bool,
}

/// The spawn request of spawn options; input is streamed and output retained.
pub fn spawn_options_into_core(options: ActorSpawnOptions) -> (r: SpawnRequest)
    ensures
        r.env@ == options.env@,
        r.cwd == options.cwd,
        r.stdin_fd == options.stdin_fd,
        r.stdout_fd == options.stdout_fd,
        r.stderr_fd == options.stderr_fd,
        r.stream_stdin,
        r.retain_output,
{
    SpawnRequest {
        env: options.env,
        cwd: options.cwd,
        stdin_fd: options.stdin_fd,
        stdout_fd: options.stdout_fd,
        stderr_fd: options.stderr_fd,
        stream_stdin: true,
        retain_output: true,
    }
}

/// An interactive shell as the VM receives it.
#[derive(Debug, Clone, PartialEq, Eq)]
pub struct OpenShellRequest {
    pub command: Option<String>,
    pub args: Vec<String>,
    pub env: StringMap,
    pub cwd: Option<String>,
    pub cols: Option<u16>,
    pub rows: Option<u16>,
}

/// The shell request of terminal options, every field carried over.
pub fn terminal_options_into_core(options: ActorTerminalOptions) -> (r: OpenShellRequest)
    ensures
        r.command == options.command,
        r.args == options.args,
        r.env@ == options.env@,
        r.cwd == options.cwd,
        r.cols == options.cols,
        r.rows == options.rows,
{
    OpenShellRequest {
        command: options.command,
        args: options.args,
        env: options.env,
        cwd: options.cwd,
        cols: options.cols,
        rows: options.rows,
    }
}

} // verus!
