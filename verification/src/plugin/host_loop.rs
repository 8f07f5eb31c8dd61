//! The decisions of the plugin's actor loop: how each host lifecycle event is
//! answered or queued for the worker, when the bounded job queue warns or
//! refuses, and how shutdown requests share one join of the actor thread.
use vstd::prelude::*;

use crate::text::{decimal, owned, with_number};

verus! {

/// The bound of the worker's job queue.
pub const MAX_PENDING_ACTOR_JOBS: usize = 64;
/// At or below this many free queue slots, each enqueue logs a warning.
pub const PENDING_ACTOR_JOBS_WARN_REMAINING: usize = 13;

/// A host lifecycle event as the actor loop receives it; `token` names the
/// reply the host waits for.
#[derive(Debug, Clone, PartialEq, Eq)]
pub enum HostEvent {
    Action { token: u64, name: String, args: Vec<u8> },
    Http { token: u64, request: Vec<u8> },
    ConnPreflight { token: u64 },
    ConnOpen { token: u64 },
    Subscribe { token: u64 },
    SerializeState { token: u64 },
    Sleep { token: u64 },
    Destroy { token: u64 },
    QueueSend { token: u64 },
    WebSocketOpen { token: u64 },
    ConnClosed,
}

/// Stateful work the worker services in submission order.
#[derive(Debug, Clone, PartialEq, Eq)]
pub enum ActorJob {
    Action { token: u64, name: String, args: Vec<u8> },
    Http { token: u64, request: Vec<u8> },
    Sleep { token: u64 },
    Destroy { token: u64 },
}

/// The reply token of a job.
pub open spec fn job_token(job: ActorJob) -> u64 {
    match job {
        ActorJob::Action { token, .. } => token,
        ActorJob::Http { token, .. } => token,
        ActorJob::Sleep { token } => token,
        ActorJob::Destroy { token } => token,
    }
}

impl ActorJob {
    /// The reply token of the job.
    pub fn token(&self) -> (t: u64)
        ensures
            t == job_token(*self),
    {
        match self {
            ActorJob::Action { token, .. } => *token,
            ActorJob::Http { token, .. } => *token,
            ActorJob::Sleep { token } => *token,
            ActorJob::Destroy { token } => *token,
        }
    }
}

/// What the actor loop does with one event.
#[derive(Debug, Clone, PartialEq, Eq)]
pub enum LoopStep {
    /// Hand the job to the worker.
    Enqueue(ActorJob),
    /// Answer the reply with an empty success at once.
    ReplyOk(u64),
    /// Answer the reply with an error at once.
    ReplyErr(u64, String),
    /// Nothing to answer.
    Nothing,
}

/// The message an unsupported event is refused with.
pub open spec fn unsupported_event_message() -> Seq<char> {
    "event not supported by agent-os actor"@
}

/// How the actor loop answers an event: stateful work (actions, HTTP,
/// sleep, destroy) goes to the worker; connection lifecycle events and state
/// serialization succeed at once, as there is no opaque state to return;
/// queue messages and raw websockets are refused; a closed connection needs
/// no answer.
pub open spec fn routed(event: HostEvent, step: LoopStep) -> bool {
    match event {
        HostEvent::Action { token, name, args } => step == LoopStep::Enqueue(ActorJob::Action { token, name, args }),
        HostEvent::Http { token, request } => step == LoopStep::Enqueue(ActorJob::Http { token, request }),
        HostEvent::ConnPreflight { token } => step == LoopStep::ReplyOk(token),
        HostEvent::ConnOpen { token } => step == LoopStep::ReplyOk(token),
        HostEvent::Subscribe { token } => step == LoopStep::ReplyOk(token),
        HostEvent::SerializeState { token } => step == LoopStep::ReplyOk(token),
        HostEvent::Sleep { token } => step == LoopStep::Enqueue(ActorJob::Sleep { token }),
        HostEvent::Destroy { token } => step == LoopStep::Enqueue(ActorJob::Destroy { token }),
        HostEvent::QueueSend { token } | HostEvent::WebSocketOpen { token } =>
            step matches LoopStep::ReplyErr(t, m) && t == token && m@ == unsupported_event_message(),
        HostEvent::ConnClosed => step == LoopStep::Nothing,
    }
}

/// Decides how the actor loop answers one host event.
pub fn route_event(event: HostEvent) -> (step: LoopStep)
    ensures
        routed(event, step),
{
    match event {
        HostEvent::Action { token, name, args } => LoopStep::Enqueue(ActorJob::Action { token, name, args }),
        HostEvent::Http { token, request } => LoopStep::Enqueue(ActorJob::Http { token, request }),
        HostEvent::ConnPreflight { token } => LoopStep::ReplyOk(token),
        HostEvent::ConnOpen { token } => LoopStep::ReplyOk(token),
        HostEvent::Subscribe { token } => LoopStep::ReplyOk(token),
        HostEvent::SerializeState { token } => LoopStep::ReplyOk(token),
        HostEvent::Sleep { token } => LoopStep::Enqueue(ActorJob::Sleep { token }),
        HostEvent::Destroy { token } => LoopStep::Enqueue(ActorJob::Destroy { token }),
        HostEvent::QueueSend { token } => LoopStep::ReplyErr(token, owned("event not supported by agent-os actor")),
        HostEvent::WebSocketOpen { token } => LoopStep::ReplyErr(token, owned("event not supported by agent-os actor")),
        HostEvent::ConnClosed => LoopStep::Nothing,
    }
}

/// The warning logged before an enqueue that finds `remaining` free slots,
/// if the queue is that close to its bound.
pub fn queue_pressure_warning(remaining: usize) -> (w: Option<String>)
    ensures
        remaining <= PENDING_ACTOR_JOBS_WARN_REMAINING ==> (w matches Some(m) && m@
            == "agent-os actor job queue is near its limit: remaining="@ + decimal(remaining as nat) + " limit=64"@),
        remaining > PENDING_ACTOR_JOBS_WARN_REMAINING ==> w is None,
{
    if remaining <= PENDING_ACTOR_JOBS_WARN_REMAINING {
        Some(with_number(owned("agent-os actor job queue is near its limit: remaining="), remaining, " limit=64"))
    } else {
        None
    }
}

/// Why a job could not be queued.
#[derive(Debug, Clone, Copy, PartialEq, Eq, Structural)]
pub enum QueueRefusal {
    /// The queue holds `MAX_PENDING_ACTOR_JOBS` jobs.
    Full,
    /// The worker has stopped.
    Closed,
}

/// The error a refused job's reply carries.
pub fn refused_job_reply(refusal: QueueRefusal) -> (m: String)
    ensures
        refusal == QueueRefusal::Full ==> m@
            == "agent-os actor pending-job limit 64 exceeded; raise MAX_PENDING_ACTOR_JOBS in the plugin build"@,
        refusal == QueueRefusal::Closed ==> m@ == "agent-os actor worker unavailable"@,
{
    match refusal {
        QueueRefusal::Full => owned("agent-os actor pending-job limit 64 exceeded; raise MAX_PENDING_ACTOR_JOBS in the plugin build"),
        QueueRefusal::Closed => owned("agent-os actor worker unavailable"),
    }
}

/// The reason a job tears the VM down with, if it does: sleep and destroy
/// clear the session state and shut the VM down; actions and HTTP do not.
pub fn teardown_reason(job: &ActorJob) -> (r: Option<&'static str>)
    ensures
        match *job {
            ActorJob::Sleep { .. } => r matches Some(s) && s@ == "sleep"@,
            ActorJob::Destroy { .. } => r matches Some(s) && s@ == "destroy"@,
            _ => r is None,
        },
{
    match job {
        ActorJob::Sleep { .. } => Some("sleep"),
        ActorJob::Destroy { .. } => Some("destroy"),
        _ => None,
    }
}

// ---------------------------------------------------------------------------
// Shutdown
// ---------------------------------------------------------------------------

/// The outcome of joining the actor thread: success, or why it failed.
pub type ShutdownOutcome = Result<(), String>;

/// The view of an outcome.
pub open spec fn outcome_view(o: ShutdownOutcome) -> Result<(), Seq<char>> {
    match o {
        Ok(()) => Ok(()),
        Err(m) => Err(m@),
    }
}

/// What a shutdown request is answered with.
#[derive(Debug, PartialEq, Eq)]
pub enum ShutdownStep {
    /// The thread has already been joined: finish the request with this outcome.
    Finish(ShutdownOutcome),
    /// A join is under way: the request waits for it.
    Wait,
    /// No join has started: start the one join; the request waits for it.
    StartJoin,
}

/// The mathematical content of a shutdown answer.
pub enum StepView {
    Finish(Result<(), Seq<char>>),
    Wait,
    StartJoin,
}

/// The view of a shutdown answer.
pub open spec fn step_view(step: ShutdownStep) -> StepView {
    match step {
        ShutdownStep::Finish(o) => StepView::Finish(outcome_view(o)),
        ShutdownStep::Wait => StepView::Wait,
        ShutdownStep::StartJoin => StepView::StartJoin,
    }
}

/// The mathematical content of the shutdown bookkeeping: whether the join
/// of the actor thread has started, its outcome once known, and the requests
/// waiting for it in arrival order.
pub struct ShutdownView {
    pub started: bool,
    pub outcome: Option<Result<(), Seq<char>>>,
    pub waiters: Seq<u64>,
}

/// The answer to request `waiter` and the bookkeeping after it: finished at
/// once with a known outcome; otherwise it waits, and the first request
/// starts the join.
pub open spec fn requested(m: ShutdownView, waiter: u64) -> (StepView, ShutdownView) {
    match m.outcome {
        Some(o) => (StepView::Finish(o), m),
        None => (
            if m.started { StepView::Wait } else { StepView::StartJoin },
            ShutdownView { started: true, outcome: None, waiters: m.waiters.push(waiter) },
        ),
    }
}

/// The requests to finish once the join ends with `outcome`, and the
/// bookkeeping after: the outcome recorded and nobody left waiting.
pub open spec fn completed(m: ShutdownView, outcome: Result<(), Seq<char>>) -> (Seq<u64>, ShutdownView) {
    (m.waiters, ShutdownView { started: m.started, outcome: Some(outcome), waiters: Seq::empty() })
}

/// The bookkeeping is consistent: an outcome is only known after the join
/// started, and nobody waits once it is known.
pub open spec fn shutdown_wf(m: ShutdownView) -> bool {
    &&& (m.outcome is Some ==> m.started)
    &&& (m.outcome is Some ==> m.waiters.len() == 0)
}

/// Shutdown bookkeeping of an actor instance.
#[derive(Debug)]
pub struct ShutdownState {
    started: bool,
    outcome: Option<ShutdownOutcome>,
    waiters: Vec<u64>,
}

impl View for ShutdownState {
    type V = ShutdownView;

    closed spec fn view(&self) -> ShutdownView {
        ShutdownView {
            started: self.started,
            outcome: match self.outcome {
                Some(o) => Some(outcome_view(o)),
                None => None,
            },
            waiters: self.waiters@,
        }
    }
}

fn copy_outcome(o: &ShutdownOutcome) -> (r: ShutdownOutcome)
    ensures
        outcome_view(r) == outcome_view(*o),
{
    match o {
        Ok(()) => Ok(()),
        Err(m) => Err(m.clone()),
    }
}

impl ShutdownState {
    /// No join started, no outcome, no waiters.
    pub fn new() -> (s: Self)
        ensures
            s@ == (ShutdownView { started: false, outcome: None, waiters: Seq::empty() }),
    {
        let s = ShutdownState { started: false, outcome: None, waiters: Vec::new() };
        assert(s@.waiters =~= Seq::<u64>::empty());
        s
    }

    /// Answers the shutdown request `waiter`, as `requested` says.
    pub fn request(&mut self, waiter: u64) -> (step: ShutdownStep)
        ensures
            (step_view(step), final(self)@) == requested(old(self)@, waiter),
    {
        if let Some(o) = &self.outcome {
            return ShutdownStep::Finish(copy_outcome(o));
        }
        self.waiters.push(waiter);
        if self.started {
            return ShutdownStep::Wait;
        }
        self.started = true;
        ShutdownStep::StartJoin
    }

    /// Records the outcome of the join and hands back every waiting request,
    /// in arrival order, to be finished with it.
    pub fn complete(&mut self, outcome: ShutdownOutcome) -> (waiters: Vec<u64>)
        ensures
            (waiters@, final(self)@) == completed(old(self)@, outcome_view(outcome)),
    {
        let mut waiters: Vec<u64> = Vec::new();
        std::mem::swap(&mut waiters, &mut self.waiters);
        self.outcome = Some(outcome);
        assert(self@.waiters =~= Seq::<u64>::empty());
        waiters
    }
}

impl Default for ShutdownState {
    fn default() -> (s: Self)
        ensures
            s@ == (ShutdownView { started: false, outcome: None, waiters: Seq::empty() }),
    {
        ShutdownState::new()
    }
}

/// Requests and completions keep the bookkeeping consistent; after any
/// request the join has started, so only the first request of an instance
/// starts it.
pub proof fn lemma_only_the_first_request_joins(m: ShutdownView, first: u64, second: u64)
    requires
        shutdown_wf(m),
    ensures
        shutdown_wf(requested(m, first).1),
        requested(m, first).1.started,
        requested(requested(m, first).1, second).0 != StepView::StartJoin,
{
}

/// Once the join has ended, its outcome is recorded, every request that
/// waited is handed back to be finished with it, and every later request
/// is finished with that same outcome at once.
pub proof fn lemma_outcome_reaches_every_request(m: ShutdownView, outcome: Result<(), Seq<char>>, later: u64)
    requires
        shutdown_wf(m),
        m.started,
        m.outcome is None,
    ensures
        completed(m, outcome).0 == m.waiters,
        shutdown_wf(completed(m, outcome).1),
        requested(completed(m, outcome).1, later).0 == StepView::Finish(outcome),
        requested(completed(m, outcome).1, later).1 == completed(m, outcome).1,
{
}

} // verus!
