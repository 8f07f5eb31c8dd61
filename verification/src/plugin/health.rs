//! Runtime health for the inspector's observe-only actions: bounded
//! post-mortem buffers and the live sessions under their client-facing ids.
use vstd::prelude::*;

use crate::plugin::sessions::Vars;
use crate::strmap::StringMap;
use crate::text::str_equals;

verus! {

/// Oldest entries are dropped past these caps.
pub const LIMIT_WARNINGS_CAP: usize = 50;
pub const AGENT_EXITS_CAP: usize = 50;

/// One buffered unexpected adapter exit, keyed by the client-facing session id.
#[derive(Debug, Clone)]
pub struct RuntimeAgentExitDto {
    /// Epoch milliseconds when the exit was observed.
    pub ts: u64,
    pub session_id: String,
    pub agent_type: String,
    pub exit_code: Option<i32>,
    pub restart: String,
    pub restart_count: u32,
}

/// One buffered adapter stderr line.
#[derive(Debug, Clone)]
pub struct RuntimeStderrLineDto {
    pub ts: u64,
    pub line: String,
}

/// The sidecar descriptor the inspector's status strip renders.
#[derive(Debug, Clone)]
pub struct RuntimeSidecarInfoDto {
    pub state: String,
    pub active_vm_count: u32,
}

/// A live session under its client-facing id.
#[derive(Debug, Clone)]
pub struct LiveSessionInfoDto {
    pub session_id: String,
    pub agent_type: String,
}

/// The last `cap` items of `s`.
pub open spec fn last_items<T>(s: Seq<T>, cap: nat) -> Seq<T> {
    if s.len() > cap {
        s.skip(s.len() - cap)
    } else {
        s
    }
}

/// Appends `item`, then drops the oldest items until at most `cap` remain.
pub fn push_capped<T>(buf: &mut Vec<T>, item: T, cap: usize)
    ensures
        final(buf)@ == last_items(old(buf)@.push(item), cap as nat),
{
    buf.push(item);
    let ghost full = buf@;
    while buf.len() > cap
        invariant
            full.len() >= buf@.len(),
            buf@.len() >= cap || buf@.len() == full.len(),
            buf@ == full.skip(full.len() - buf@.len()),
        decreases buf@.len(),
    {
        let ghost before = buf@;
        buf.remove(0);
        assert(buf@ =~= full.skip(full.len() - buf@.len()));
    }
    assert(buf@ =~= last_items(full, cap as nat));
}

/// The client-facing id of a live session: the first external id that the
/// resume map sends to it, or the live id itself when none does.
pub open spec fn external_id(remap: Seq<(Seq<char>, Seq<char>)>, live: Seq<char>, i: int) -> Seq<char>
    decreases remap.len() - i,
{
    if i < 0 || i >= remap.len() {
        live
    } else if remap[i].1 == live {
        remap[i].0
    } else {
        external_id(remap, live, i + 1)
    }
}

/// The client-facing id of one live session.
pub fn external_session_id(live_sessions: &StringMap, live: &str) -> (r: String)
    ensures
        r@ == external_id(live_sessions@, live@, 0),
{
    let n = live_sessions.len();
    let mut i: usize = 0;
    while i < n
        invariant
            n == live_sessions@.len(),
            i <= n,
            external_id(live_sessions@, live@, 0) == external_id(live_sessions@, live@, i as int),
        decreases n - i,
    {
        let (external, l) = live_sessions.entry(i);
        if str_equals(l.as_str(), live) {
            return external.clone();
        }
        i += 1;
    }
    crate::text::owned(live)
}

/// The live sessions `(live id, agent type)` under their client-facing ids,
/// through the map from external to live session ids in `vars`.
pub fn external_session_infos(live: Vec<(String, String)>, vars: &Vars) -> (r: Vec<LiveSessionInfoDto>)
    ensures
        r@.len() == live@.len(),
        forall|i: int| 0 <= i < live@.len() ==> (#[trigger] r@[i]).session_id@ == external_id(vars.live_sessions@, live@[i].0@, 0)
            && r@[i].agent_type@ == live@[i].1@,
{
    let live_sessions = &vars.live_sessions;
    let n = live.len();
    let mut out: Vec<LiveSessionInfoDto> = Vec::new();
    let mut i: usize = 0;
    while i < n
        invariant
            n == live@.len(),
            i <= n,
            out@.len() == i,
            forall|j: int| 0 <= j < i ==> (#[trigger] out@[j]).session_id@ == external_id(live_sessions@, live@[j].0@, 0)
                && out@[j].agent_type@ == live@[j].1@,
        decreases n - i,
    {
        let session_id = external_session_id(live_sessions, live[i].0.as_str());
        let agent_type = live[i].1.clone();
        out.push(LiveSessionInfoDto { session_id, agent_type });
        i += 1;
    }
    out
}


/// A capped buffer never holds more than its cap, always keeps the newest
/// item last (for a positive cap), and keeps the items it keeps in order.
pub proof fn lemma_push_capped_bounded<T>(s: Seq<T>, item: T, cap: nat)
    requires
        cap > 0,
    ensures
        last_items(s.push(item), cap).len() <= cap,
        last_items(s.push(item), cap).last() == item,
        last_items(s.push(item), cap).len() == if s.len() + 1 > cap { cap } else { s.len() + 1 },
{
}

// ---------------------------------------------------------------------------
// Post-mortem buffers
// ---------------------------------------------------------------------------

/// A runtime limit warning as the VM reports it. Its measurements are
/// floating point, carried as the bit patterns of their IEEE-754 values.
#[derive(Debug, Clone)]
pub struct LimitWarning {
    pub limit: String,
    pub category: String,
    pub observed: u64,
    pub capacity: u64,
    pub fill_percent: u64,
}

/// An adapter exit as the VM reports it, under the live session id.
#[derive(Debug, Clone)]
pub struct AgentExitEvent {
    pub session_id: String,
    pub agent_type: String,
    pub process_id: String,
    pub exit_code: Option<i32>,
    pub restart: String,
    pub restart_count: u32,
    pub max_restarts: u32,
}

/// One buffered limit warning, observed at `ts` epoch milliseconds. Its
/// measurements are carried as the bit patterns of their IEEE-754 values.
#[derive(Debug, Clone)]
pub struct RuntimeLimitWarningDto {
    pub ts: u64,
    pub limit: String,
    pub category: String,
    pub observed: u64,
    pub capacity: u64,
    pub fill_percent: u64,
}

/// What `getRuntimeHealth` reports.
#[derive(Debug)]
pub struct RuntimeHealthDto {
    pub booted: bool,
    /// Live session count; absent while the VM is asleep.
    pub sessions: Option<u64>,
    /// Sidecar descriptor; absent while the VM is asleep.
    pub sidecar: Option<RuntimeSidecarInfoDto>,
    pub warnings: Vec<RuntimeLimitWarningDto>,
    pub agent_exits: Vec<RuntimeAgentExitDto>,
    pub stderr_tail: Vec<RuntimeStderrLineDto>,
}

/// What a live VM tells the health report without being woken: its live
/// session count and its sidecar descriptor.
#[derive(Debug, Clone)]
pub struct LiveVmHealth {
    pub sessions: u64,
    pub sidecar: RuntimeSidecarInfoDto,
}

/// The content of a buffered warning.
pub open spec fn warning_view(d: RuntimeLimitWarningDto) -> (u64, Seq<char>, Seq<char>, u64, u64, u64) {
    (d.ts, d.limit@, d.category@, d.observed, d.capacity, d.fill_percent)
}

/// The content of a buffered exit.
pub open spec fn exit_view(d: RuntimeAgentExitDto) -> (u64, Seq<char>, Seq<char>, Option<i32>, Seq<char>, u32) {
    (d.ts, d.session_id@, d.agent_type@, d.exit_code, d.restart@, d.restart_count)
}

/// The warning buffered for `warning` observed at `ts`.
pub open spec fn warning_record(ts: u64, warning: LimitWarning) -> RuntimeLimitWarningDto {
    RuntimeLimitWarningDto {
        ts,
        limit: warning.limit,
        category: warning.category,
        observed: warning.observed,
        capacity: warning.capacity,
        fill_percent: warning.fill_percent,
    }
}

/// The exit buffered for `event` observed at `ts` under the client-facing
/// session id `session_id`.
pub open spec fn exit_record(ts: u64, session_id: String, event: AgentExitEvent) -> RuntimeAgentExitDto {
    RuntimeAgentExitDto {
        ts,
        session_id,
        agent_type: event.agent_type,
        exit_code: event.exit_code,
        restart: event.restart,
        restart_count: event.restart_count,
    }
}

/// The bounded post-mortem buffers of limit warnings and agent exits; they
/// outlive the VM they were fed from.
#[derive(Debug)]
pub struct HealthBuffers {
    warnings: Vec<RuntimeLimitWarningDto>,
    agent_exits: Vec<RuntimeAgentExitDto>,
}

impl Default for HealthBuffers {
    fn default() -> (b: Self)
        ensures
            b.warnings_view().len() == 0,
            b.exits_view().len() == 0,
    {
        HealthBuffers::new()
    }
}

fn copy_warning(d: &RuntimeLimitWarningDto) -> (r: RuntimeLimitWarningDto)
    ensures
        warning_view(r) == warning_view(*d),
{
    RuntimeLimitWarningDto {
        ts: d.ts,
        limit: d.limit.clone(),
        category: d.category.clone(),
        observed: d.observed,
        capacity: d.capacity,
        fill_percent: d.fill_percent,
    }
}

fn copy_exit(d: &RuntimeAgentExitDto) -> (r: RuntimeAgentExitDto)
    ensures
        exit_view(r) == exit_view(*d),
{
    RuntimeAgentExitDto {
        ts: d.ts,
        session_id: d.session_id.clone(),
        agent_type: d.agent_type.clone(),
        exit_code: d.exit_code,
        restart: d.restart.clone(),
        restart_count: d.restart_count,
    }
}

impl HealthBuffers {
    /// The buffered warnings, oldest first.
    pub closed spec fn warnings_view(&self) -> Seq<RuntimeLimitWarningDto> {
        self.warnings@
    }

    /// The buffered exits, oldest first.
    pub closed spec fn exits_view(&self) -> Seq<RuntimeAgentExitDto> {
        self.agent_exits@
    }

    /// Empty buffers.
    pub fn new() -> (b: Self)
        ensures
            b.warnings_view().len() == 0,
            b.exits_view().len() == 0,
    {
        HealthBuffers { warnings: Vec::new(), agent_exits: Vec::new() }
    }

    /// Records a limit warning observed at `ts`; the oldest is dropped past
    /// `LIMIT_WARNINGS_CAP`.
    pub fn push_limit_warning(&mut self, ts: u64, warning: LimitWarning)
        ensures
            final(self).warnings_view() == last_items(old(self).warnings_view().push(warning_record(ts, warning)), LIMIT_WARNINGS_CAP as nat),
            final(self).exits_view() == old(self).exits_view(),
    {
        let dto = RuntimeLimitWarningDto {
            ts,
            limit: warning.limit,
            category: warning.category,
            observed: warning.observed,
            capacity: warning.capacity,
            fill_percent: warning.fill_percent,
        };
        push_capped(&mut self.warnings, dto, LIMIT_WARNINGS_CAP);
    }

    /// Records an unexpected adapter exit observed at `ts` under the
    /// client-facing session id; the oldest is dropped past
    /// `AGENT_EXITS_CAP`.
    pub fn push_agent_exit(&mut self, ts: u64, external_session_id: String, event: AgentExitEvent)
        ensures
            final(self).exits_view() == last_items(old(self).exits_view().push(exit_record(ts, external_session_id, event)), AGENT_EXITS_CAP as nat),
            final(self).warnings_view() == old(self).warnings_view(),
    {
        let dto = RuntimeAgentExitDto {
            ts,
            session_id: external_session_id,
            agent_type: event.agent_type,
            exit_code: event.exit_code,
            restart: event.restart,
            restart_count: event.restart_count,
        };
        push_capped(&mut self.agent_exits, dto, AGENT_EXITS_CAP);
    }

    /// Copies of the buffered warnings and exits, oldest first.
    pub fn snapshot(&self) -> (r: (Vec<RuntimeLimitWarningDto>, Vec<RuntimeAgentExitDto>))
        ensures
            r.0@.len() == self.warnings_view().len(),
            forall|i: int| 0 <= i < r.0@.len() ==> #[trigger] warning_view(r.0@[i]) == warning_view(self.warnings_view()[i]),
            r.1@.len() == self.exits_view().len(),
            forall|i: int| 0 <= i < r.1@.len() ==> #[trigger] exit_view(r.1@[i]) == exit_view(self.exits_view()[i]),
    {
        let mut warnings: Vec<RuntimeLimitWarningDto> = Vec::new();
        let n = self.warnings.len();
        let mut i: usize = 0;
        while i < n
            invariant
                n == self.warnings@.len(),
                i <= n,
                warnings@.len() == i,
                forall|j: int| 0 <= j < i ==> #[trigger] warning_view(warnings@[j]) == warning_view(self.warnings@[j]),
            decreases n - i,
        {
            warnings.push(copy_warning(&self.warnings[i]));
            i += 1;
        }
        let mut exits: Vec<RuntimeAgentExitDto> = Vec::new();
        let m = self.agent_exits.len();
        let mut k: usize = 0;
        while k < m
            invariant
                m == self.agent_exits@.len(),
                k <= m,
                exits@.len() == k,
                forall|j: int| 0 <= j < k ==> #[trigger] exit_view(exits@[j]) == exit_view(self.agent_exits@[j]),
            decreases m - k,
        {
            exits.push(copy_exit(&self.agent_exits[k]));
            k += 1;
        }
        (warnings, exits)
    }
}

/// The runtime health: liveness from the live VM, when there is one, and the
/// post-mortem buffers either way; the stderr tail is always empty, as no
/// adapter stderr feed exists.
pub fn runtime_health(vm: Option<LiveVmHealth>, buffers: &HealthBuffers) -> (h: RuntimeHealthDto)
    ensures
        h.booted == vm is Some,
        h.sessions == match vm {
            Some(v) => Some(v.sessions),
            None => None::<u64>,
        },
        match (h.sidecar, vm) {
            (Some(s), Some(v)) => s == v.sidecar,
            (None, None) => true,
            _ => false,
        },
        h.warnings@.len() == buffers.warnings_view().len(),
        forall|i: int| 0 <= i < h.warnings@.len() ==> #[trigger] warning_view(h.warnings@[i]) == warning_view(buffers.warnings_view()[i]),
        h.agent_exits@.len() == buffers.exits_view().len(),
        forall|i: int| 0 <= i < h.agent_exits@.len() ==> #[trigger] exit_view(h.agent_exits@[i]) == exit_view(buffers.exits_view()[i]),
        h.stderr_tail@.len() == 0,
{
    let booted = vm.is_some();
    let (sessions, sidecar) = match vm {
        Some(v) => (Some(v.sessions), Some(v.sidecar)),
        None => (None, None),
    };
    let (warnings, agent_exits) = buffers.snapshot();
    RuntimeHealthDto { booted, sessions, sidecar, warnings, agent_exits, stderr_tail: Vec::new() }
}

} // verus!
