//! The synchronous host-operation seam of the ACP core: spawning an agent
//! adapter process, driving its standard streams and touching the guest
//! filesystem. Everything else in the core is host-free logic.
use vstd::prelude::*;

use crate::protocol::AcpRuntimeKind;
use crate::strmap::StringMap;

verus! {

/// A failure of a host operation.
#[derive(Debug, Clone, PartialEq, Eq)]
pub struct AcpCoreError {
    pub message: String,
}

/// A request to launch an agent adapter process inside the VM.
#[derive(Debug, Clone)]
pub struct SpawnAgentRequest {
    pub process_id: String,
    pub runtime: AcpRuntimeKind,
    pub entrypoint: Option<String>,
    pub command: Option<String>,
    pub args: Vec<String>,
    pub env: StringMap,
    pub cwd: Option<String>,
}

/// A spawned agent adapter process.
#[derive(Debug, Clone)]
pub struct SpawnedAgent {
    pub process_id: String,
    pub pid: Option<u32>,
}

/// One piece of output drained from a running agent process.
#[derive(Debug, Clone, PartialEq, Eq)]
pub enum AgentOutput {
    Stdout(Vec<u8>),
    Stderr(Vec<u8>),
    Exited(Option<i32>),
}

/// The host operations the ACP core drives. Every operation goes through the
/// kernel, which enforces the applied permissions and limits.
pub trait AcpHost {
    fn spawn_agent(&mut self, request: SpawnAgentRequest) -> Result<SpawnedAgent, AcpCoreError>;

    /// Associates a spawned process with its ACP session id.
    fn bind_session(&mut self, session_id: &str, process_id: &str) -> Result<(), AcpCoreError>;

    fn write_stdin(&mut self, process_id: &str, chunk: &[u8]) -> Result<(), AcpCoreError>;

    fn close_stdin(&mut self, process_id: &str) -> Result<(), AcpCoreError>;

    /// The next available output event, or `None` when nothing is pending.
    fn poll_output(&mut self, process_id: &str) -> Result<Option<AgentOutput>, AcpCoreError>;

    fn kill_agent(&mut self, process_id: &str, signal: &str) -> Result<(), AcpCoreError>;

    /// Waits up to `timeout_ms` for the process to exit: its exit code when it
    /// exited in time, `None` otherwise.
    fn wait_for_exit(&mut self, process_id: &str, timeout_ms: u64) -> Result<Option<i32>, AcpCoreError>;

    fn write_file(&mut self, path: &str, contents: &[u8]) -> Result<(), AcpCoreError>;

    fn read_file(&mut self, path: &str) -> Result<Vec<u8>, AcpCoreError>;

    /// Milliseconds for JSON-RPC timeouts.
    fn now_ms(&self) -> u64;
}

} // verus!
