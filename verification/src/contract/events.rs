//! Bounded public actor event payloads.
use vstd::prelude::*;

use crate::actor::cron::CronLaunchError;
use crate::actor::filesystem::FileBytes;
use crate::contract::process::{ActorExitStatus, ActorProcessId, ActorTerminalId};

verus! {

/// The VM booted at a generation, running a configuration revision.
#[derive(Debug, Clone, PartialEq, Eq)]
pub struct VmBooted {
    pub generation: u64,
    pub config_revision: u64,
    pub booted_at_ms: i64,
}

/// The VM of a generation shut down.
#[derive(Debug, Clone, PartialEq, Eq)]
pub struct VmShutdown {
    pub generation: u64,
    pub reason: String,
    pub shutdown_at_ms: i64,
}

/// A runtime limit is close to its capacity.
#[derive(Debug, Clone, PartialEq, Eq)]
pub struct VmLimitWarning {
    pub limit: String,
    pub observed: u64,
    pub capacity: u64,
    pub message: String,
}

/// The stream a chunk of process output came from.
#[derive(Debug, Clone, Copy, PartialEq, Eq, Structural)]
pub enum ProcessStream {
    Stdout,
    Stderr,
}

/// A chunk of a process's output.
#[derive(Debug, Clone, PartialEq, Eq)]
pub struct ProcessOutputEvent {
    pub process: ActorProcessId,
    pub sequence: u64,
    pub stream: ProcessStream,
    pub data: FileBytes,
    pub timestamp_ms: i64,
}

/// A process exited.
#[derive(Debug, Clone, PartialEq, Eq)]
pub struct ProcessExitEvent {
    pub process: ActorProcessId,
    pub status: ActorExitStatus,
}

/// A chunk of a terminal's output.
#[derive(Debug, Clone, PartialEq, Eq)]
pub struct TerminalOutputEvent {
    pub terminal: ActorTerminalId,
    pub sequence: u64,
    pub stream: ProcessStream,
    pub data: FileBytes,
    pub timestamp_ms: i64,
}

/// A terminal exited.
#[derive(Debug, Clone, PartialEq, Eq)]
pub struct TerminalExitEvent {
    pub terminal: ActorTerminalId,
    pub status: ActorExitStatus,
}

/// A cron schedule fired: the process it launched, or why the launch failed.
#[derive(Debug, Clone, PartialEq, Eq)]
pub struct CronFiredEvent {
    pub schedule_name: String,
    pub process: Option<ActorProcessId>,
    pub error: Option<CronLaunchError>,
    pub fired_at_ms: i64,
}

} // verus!
