//! Plugin action DTOs and the cron event payload the plugin broadcasts.
use vstd::prelude::*;

use crate::contract::action_input::{model, entry_models, lemma_entry_models_upto, CborModel, CborValue};
use crate::strmap::StringMap;
use crate::text::owned;

verus! {

/// What a scheduled cron job runs: a command, or a prompt to an agent session.
#[derive(Debug, Clone, PartialEq, Eq)]
pub enum CronActionDto {
    Exec { command: String, args: Vec<String> },
    Session { agent_type: String, prompt: String },
}

/// What a cron job does when its previous run is still going.
#[derive(Debug, Clone, Copy, PartialEq, Eq, Structural)]
pub enum CronOverlap {
    Allow,
    Skip,
    Queue,
}

/// The options of `scheduleCron`.
#[derive(Debug, Clone, PartialEq, Eq)]
pub struct CronJobOptionsDto {
    pub id: Option<String>,
    pub schedule: String,
    pub action: CronActionDto,
    pub overlap: Option<CronOverlap>,
}

/// The reply of `scheduleCron`.
#[derive(Debug, Clone, PartialEq, Eq)]
pub struct ScheduledCronDto {
    pub id: String,
}

/// One entry of `listCronJobs`. Run times are epoch milliseconds; the wire
/// carries them as JavaScript numbers.
#[derive(Debug, Clone, PartialEq, Eq)]
pub struct CronJobInfoDto {
    pub id: String,
    pub schedule: String,
    pub overlap: CronOverlap,
    pub last_run: Option<i64>,
    pub next_run: Option<i64>,
}

/// The options of `exec`.
#[derive(Debug, Clone)]
pub struct ExecActionOptions {
    pub env: StringMap,
    pub cwd: Option<String>,
}

/// The options of `spawn`.
#[derive(Debug, Clone)]
pub struct SpawnActionOptions {
    pub env: StringMap,
    pub cwd: Option<String>,
    pub stream_stdin: Option<bool>,
}

/// The reply of `exec`.
#[derive(Debug, Clone, PartialEq, Eq)]
pub struct ExecResultDto {
    pub exit_code: i32,
    pub stdout: String,
    pub stderr: String,
}

/// The options of `openShell`.
#[derive(Debug, Clone)]
pub struct OpenShellActionOptions {
    pub command: Option<String>,
    pub args: Vec<String>,
    pub env: StringMap,
    pub cwd: Option<String>,
    pub cols: Option<u16>,
    pub rows: Option<u16>,
}

/// The reply of `openShell`.
#[derive(Debug, Clone, PartialEq, Eq)]
pub struct OpenShellDto {
    pub shell_id: String,
}

/// A cron job lifecycle event, with times in epoch milliseconds.
#[derive(Debug, Clone, PartialEq, Eq)]
pub enum CronEvent {
    Fire { job_id: String, time_ms: i64 },
    Complete { job_id: String, time_ms: i64, duration_ms: u64 },
    Error { job_id: String, time_ms: i64, error: String },
}

/// The `cronEvent` payload: `{ event: { type, jobId, time, ... } }`, each
/// object's keys in sorted order as the JSON encoder writes them.
pub open spec fn cron_payload(event: CronEvent) -> CborModel {
    let inner = match event {
        CronEvent::Fire { job_id, time_ms } => seq![
            (CborModel::Text("jobId"@), CborModel::Text(job_id@)),
            (CborModel::Text("time"@), CborModel::Integer(time_ms as int)),
            (CborModel::Text("type"@), CborModel::Text("cron:fire"@)),
        ],
        CronEvent::Complete { job_id, time_ms, duration_ms } => seq![
            (CborModel::Text("durationMs"@), CborModel::Integer(duration_ms as int)),
            (CborModel::Text("jobId"@), CborModel::Text(job_id@)),
            (CborModel::Text("time"@), CborModel::Integer(time_ms as int)),
            (CborModel::Text("type"@), CborModel::Text("cron:complete"@)),
        ],
        CronEvent::Error { job_id, time_ms, error } => seq![
            (CborModel::Text("error"@), CborModel::Text(error@)),
            (CborModel::Text("jobId"@), CborModel::Text(job_id@)),
            (CborModel::Text("time"@), CborModel::Integer(time_ms as int)),
            (CborModel::Text("type"@), CborModel::Text("cron:error"@)),
        ],
    };
    CborModel::Object(seq![(CborModel::Text("event"@), CborModel::Object(inner))])
}

fn text(s: &str) -> (v: CborValue)
    ensures
        model(v) == CborModel::Text(s@),
{
    CborValue::Text(owned(s))
}

/// The `cronEvent` broadcast payload of a cron lifecycle event.
pub fn cron_event_payload(event: &CronEvent) -> (v: CborValue)
    ensures
        model(v) == cron_payload(*event),
{
    let mut inner: Vec<(CborValue, CborValue)> = Vec::new();
    match event {
        CronEvent::Fire { job_id, time_ms } => {
            inner.push((text("jobId"), CborValue::Text(job_id.clone())));
            inner.push((text("time"), CborValue::Integer(*time_ms as i128)));
            inner.push((text("type"), text("cron:fire")));
        },
        CronEvent::Complete { job_id, time_ms, duration_ms } => {
            inner.push((text("durationMs"), CborValue::Integer(*duration_ms as i128)));
            inner.push((text("jobId"), CborValue::Text(job_id.clone())));
            inner.push((text("time"), CborValue::Integer(*time_ms as i128)));
            inner.push((text("type"), text("cron:complete")));
        },
        CronEvent::Error { job_id, time_ms, error } => {
            inner.push((text("error"), CborValue::Text(error.clone())));
            inner.push((text("jobId"), CborValue::Text(job_id.clone())));
            inner.push((text("time"), CborValue::Integer(*time_ms as i128)));
            inner.push((text("type"), text("cron:error")));
        },
    }
    proof {
        lemma_entry_models_upto(inner@, inner@.len() as int);
    }
    let ghost inner_model = entry_models(inner@);
    let mut outer: Vec<(CborValue, CborValue)> = Vec::new();
    outer.push((text("event"), CborValue::Object(inner)));
    proof {
        lemma_entry_models_upto(outer@, outer@.len() as int);
        assert(entry_models(outer@) =~= seq![(CborModel::Text("event"@), CborModel::Object(inner_model))]);
        match *event {
            CronEvent::Fire { .. } => {
                assert(inner_model =~= cron_payload(*event)->Object_0[0].1->Object_0);
            },
            CronEvent::Complete { .. } => {
                assert(inner_model =~= cron_payload(*event)->Object_0[0].1->Object_0);
            },
            CronEvent::Error { .. } => {
                assert(inner_model =~= cron_payload(*event)->Object_0[0].1->Object_0);
            },
        }
    }
    CborValue::Object(outer)
}

/// The `shellData` and `shellStderr` payload: `{ shellId, data }`, the data
/// as a byte string.
pub open spec fn shell_data_model(shell_id: Seq<char>, data: Seq<u8>) -> CborModel {
    CborModel::Object(seq![
        (CborModel::Text("shellId"@), CborModel::Text(shell_id)),
        (CborModel::Text("data"@), CborModel::Bytes(data)),
    ])
}

/// The `shellExit` payload: `{ shellId, exitCode }`.
pub open spec fn shell_exit_model(shell_id: Seq<char>, exit_code: i32) -> CborModel {
    CborModel::Object(seq![
        (CborModel::Text("shellId"@), CborModel::Text(shell_id)),
        (CborModel::Text("exitCode"@), CborModel::Integer(exit_code as int)),
    ])
}

/// The `processOutput` payload: `{ pid, stream, data }`, the data as a byte
/// string.
pub open spec fn process_output_model(pid: u32, stream: Seq<char>, data: Seq<u8>) -> CborModel {
    CborModel::Object(seq![
        (CborModel::Text("pid"@), CborModel::Integer(pid as int)),
        (CborModel::Text("stream"@), CborModel::Text(stream)),
        (CborModel::Text("data"@), CborModel::Bytes(data)),
    ])
}

/// The `processExit` payload: `{ pid, exitCode }`.
pub open spec fn process_exit_model(pid: u32, exit_code: i32) -> CborModel {
    CborModel::Object(seq![
        (CborModel::Text("pid"@), CborModel::Integer(pid as int)),
        (CborModel::Text("exitCode"@), CborModel::Integer(exit_code as int)),
    ])
}

fn object_of(entries: Vec<(CborValue, CborValue)>) -> (v: CborValue)
    ensures
        model(v) == CborModel::Object(entry_models(entries@)),
{
    proof {
        lemma_entry_models_upto(entries@, entries@.len() as int);
    }
    CborValue::Object(entries)
}

/// The `shellData` (and `shellStderr`) broadcast payload.
pub fn shell_data_payload(shell_id: &str, data: Vec<u8>) -> (v: CborValue)
    ensures
        model(v) == shell_data_model(shell_id@, data@),
{
    let ghost bytes = data@;
    let mut entries: Vec<(CborValue, CborValue)> = Vec::new();
    entries.push((text("shellId"), CborValue::Text(owned(shell_id))));
    entries.push((text("data"), CborValue::Bytes(data)));
    proof {
        lemma_entry_models_upto(entries@, entries@.len() as int);
        assert(entry_models(entries@) =~= shell_data_model(shell_id@, bytes)->Object_0);
    }
    object_of(entries)
}

/// The `shellExit` broadcast payload.
pub fn shell_exit_payload(shell_id: &str, exit_code: i32) -> (v: CborValue)
    ensures
        model(v) == shell_exit_model(shell_id@, exit_code),
{
    let mut entries: Vec<(CborValue, CborValue)> = Vec::new();
    entries.push((text("shellId"), CborValue::Text(owned(shell_id))));
    entries.push((text("exitCode"), CborValue::Integer(exit_code as i128)));
    proof {
        lemma_entry_models_upto(entries@, entries@.len() as int);
        assert(entry_models(entries@) =~= shell_exit_model(shell_id@, exit_code)->Object_0);
    }
    object_of(entries)
}

/// The `processOutput` broadcast payload.
pub fn process_output_payload(pid: u32, stream: &str, data: Vec<u8>) -> (v: CborValue)
    ensures
        model(v) == process_output_model(pid, stream@, data@),
{
    let ghost bytes = data@;
    let mut entries: Vec<(CborValue, CborValue)> = Vec::new();
    entries.push((text("pid"), CborValue::Integer(pid as i128)));
    entries.push((text("stream"), CborValue::Text(owned(stream))));
    entries.push((text("data"), CborValue::Bytes(data)));
    proof {
        lemma_entry_models_upto(entries@, entries@.len() as int);
        assert(entry_models(entries@) =~= process_output_model(pid, stream@, bytes)->Object_0);
    }
    object_of(entries)
}

/// The `processExit` broadcast payload.
pub fn process_exit_payload(pid: u32, exit_code: i32) -> (v: CborValue)
    ensures
        model(v) == process_exit_model(pid, exit_code),
{
    let mut entries: Vec<(CborValue, CborValue)> = Vec::new();
    entries.push((text("pid"), CborValue::Integer(pid as i128)));
    entries.push((text("exitCode"), CborValue::Integer(exit_code as i128)));
    proof {
        lemma_entry_models_upto(entries@, entries@.len() as int);
        assert(entry_models(entries@) =~= process_exit_model(pid, exit_code)->Object_0);
    }
    object_of(entries)
}

} // verus!
