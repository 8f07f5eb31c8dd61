//! Hosted cron schedules: their bounds and the errors a launch reports.
use vstd::prelude::*;

use vstd::string::StringSliceAdditionalSpecFns;

use crate::contract::language::opt_view;
use crate::contract::process::{
    check_arguments, check_command, check_spawn_options, validate_arguments, validate_command,
    validate_spawn_options, ActorSpawnOptions,
};
use crate::error::{code_name, fault, outcome, outcome_of, then, ActorError, ErrorCode, Fault, Outcome};
use crate::strmap::StringMap;
use crate::text::{
    appended, byte_len, char_width, chars_of, debug_quoted, debug_text, decimal, lemma_utf8_len_push, owned,
    str_equals, u64_text, utf8_len, utf8_width, with_number, with_text,
};

verus! {

pub const PRIVATE_CRON_ACTION: &'static str = "__agentos.cron.invoke";
pub const MAX_CRON_JOBS: usize = 1_024;
pub const MAX_CRON_NAME_BYTES: usize = 256;
pub const MAX_CRON_EXPRESSION_BYTES: usize = 256;
pub const MAX_TIMEZONE_BYTES: usize = 128;
pub const MAX_CRON_ARGUMENT_BYTES: usize = 64 * 1024;
pub const DEFAULT_CRON_HISTORY: i64 = 32;
pub const MAX_CRON_HISTORY: i64 = 256;
pub const MAX_CRON_ERROR_BYTES: usize = 16 * 1024;

/// List the cron jobs; it takes no input.
#[derive(Debug, Clone, Copy, PartialEq, Eq, Structural)]
pub struct CronList {}

/// Cancel the cron job with the given name.
#[derive(Debug, Clone, PartialEq, Eq)]
pub struct CronCancel {
    pub name: String,
}

/// Why a scheduled launch failed, under a stable public error code.
#[derive(Debug, Clone, PartialEq, Eq)]
pub struct CronLaunchError {
    pub code: String,
    pub message: String,
}

/// The longest prefix of `s` from position `k` on, with `used` bytes before
/// it, whose UTF-8 length stays within `max`: the number of characters kept.
pub open spec fn fit_from(s: Seq<char>, k: int, used: nat, max: nat) -> int
    decreases s.len() - k,
{
    if k < 0 || k >= s.len() || used + char_width(s[k]) > max {
        k
    } else {
        fit_from(s, k + 1, used + char_width(s[k]), max)
    }
}

/// The text of an error bounded to 16 KiB: unchanged when it fits, otherwise
/// its longest character prefix within the bound followed by `…`.
pub open spec fn bounded_text(s: Seq<char>) -> Seq<char> {
    if byte_len(s) <= MAX_CRON_ERROR_BYTES {
        s
    } else {
        s.take(fit_from(s, 0, 0, MAX_CRON_ERROR_BYTES as nat)) + "…"@
    }
}

proof fn lemma_fit_from(s: Seq<char>, k: int, used: nat, max: nat)
    requires
        0 <= k <= s.len(),
        used == utf8_len(s.take(k)),
        used <= max,
    ensures
        k <= fit_from(s, k, used, max) <= s.len(),
        utf8_len(s.take(fit_from(s, k, used, max))) <= max,
    decreases s.len() - k,
{
    if k < s.len() && used + char_width(s[k]) <= max {
        assert(s.take(k + 1) =~= s.take(k).push(s[k]));
        lemma_utf8_len_push(s.take(k), s[k]);
        lemma_fit_from(s, k + 1, used + char_width(s[k]), max);
    }
}

/// Bounds an error's text to 16 KiB on a character boundary, marking a cut
/// with `…`.
pub fn bounded_error(error: &str) -> (r: String)
    ensures
        r@ == bounded_text(error@),
        byte_len(r@) <= MAX_CRON_ERROR_BYTES + 3,
{
    proof {
        reveal_strlit("…");
        assert(byte_len(error@) == error.len());
    }
    if error.len() <= MAX_CRON_ERROR_BYTES {
        return owned(error);
    }
    let chars = chars_of(error);
    let n = chars.len();
    let mut k: usize = 0;
    let mut used: usize = 0;
    proof {
        assert(error@.take(0) =~= Seq::<char>::empty());
        assert(vstd::utf8::encode_utf8(Seq::<char>::empty()) =~= Seq::<u8>::empty());
    }
    while k < n && used + utf8_width(chars[k]) <= MAX_CRON_ERROR_BYTES
        invariant
            n == chars@.len(),
            chars@ == error@,
            k <= n,
            used == utf8_len(error@.take(k as int)),
            used <= MAX_CRON_ERROR_BYTES,
            fit_from(error@, 0, 0, MAX_CRON_ERROR_BYTES as nat) == fit_from(error@, k as int, used as nat, MAX_CRON_ERROR_BYTES as nat),
        decreases n - k,
    {
        proof {
            assert(error@.take(k as int + 1) =~= error@.take(k as int).push(error@[k as int]));
            lemma_utf8_len_push(error@.take(k as int), error@[k as int]);
        }
        used = used + utf8_width(chars[k]);
        k += 1;
    }
    proof {
        lemma_fit_from(error@, k as int, used as nat, MAX_CRON_ERROR_BYTES as nat);
        crate::text::lemma_encode_concat(error@.take(k as int), "…"@);
        assert(vstd::utf8::encode_utf8("…"@).len() == 3) by {
            assert("…"@ =~= Seq::<char>::empty().push('…'));
            lemma_utf8_len_push(Seq::<char>::empty(), '…');
            assert(vstd::utf8::encode_utf8(Seq::<char>::empty()) =~= Seq::<u8>::empty());
        }
    }
    let prefix = error.substring_char(0, k);
    appended(owned(prefix), "…")
}

/// The launch error a failure reports: its public code and its message, both
/// bounded.
pub fn cron_launch_error(error: &ActorError) -> (e: CronLaunchError)
    ensures
        e.code@ == bounded_text(code_name(error.code)),
        e.message@ == bounded_text(error.message@),
{
    CronLaunchError {
        code: bounded_error(error.code.as_str()),
        message: bounded_error(error.message.as_str()),
    }
}

/// A value that is not empty and holds at most `max` bytes.
pub open spec fn check_nonempty_bytes(label: Seq<char>, value: Seq<char>, max: nat) -> Outcome {
    if value.len() == 0 {
        Err(fault(ErrorCode::InvalidInput, label + " cannot be empty"@))
    } else if byte_len(value) > max {
        Err(fault(ErrorCode::LimitExceeded, label + " is "@ + decimal(byte_len(value)) + " bytes; maximum is "@ + decimal(max) + " bytes"@))
    } else {
        Ok(())
    }
}

/// Rejects an empty value or one of more than `max` bytes.
pub fn validate_nonempty_bytes(label: &str, value: &str, max: usize) -> (r: Result<(), ActorError>)
    ensures
        outcome(r) == check_nonempty_bytes(label@, value@, max as nat),
{
    if value.unicode_len() == 0 {
        return Err(ActorError::new(ErrorCode::InvalidInput, appended(owned(label), " cannot be empty")));
    }
    if value.len() > max {
        let head = with_number(appended(owned(label), " is "), value.len(), " bytes; maximum is ");
        return Err(ActorError::new(ErrorCode::LimitExceeded, with_number(head, max, " bytes")));
    }
    Ok(())
}

/// Schedule a command: `cron.schedule` input.
#[derive(Debug, Clone, PartialEq, Eq)]
pub struct CronSchedule {
    pub name: Option<String>,
    pub expression: String,
    pub timezone: Option<String>,
    pub command: String,
    pub args: Vec<String>,
    pub options: ActorSpawnOptions,
    pub max_history: Option<i64>,
}

/// The private payload a durable schedule carries back to the actor.
#[derive(Debug, Clone, PartialEq, Eq)]
pub struct CronInvoke {
    pub schedule_name: String,
    pub invoke_token: String,
    pub command: String,
    pub args: Vec<String>,
    pub options: ActorSpawnOptions,
    pub config_revision: u64,
}

/// A scheduled agentOS command job as the actor reports it.
#[derive(Debug, Clone, PartialEq, Eq)]
pub struct ActorCronJob {
    pub name: String,
    pub expression: String,
    pub timezone: Option<String>,
    pub command: String,
    pub args: Vec<String>,
    pub options: ActorSpawnOptions,
    pub config_revision: u64,
    pub next_run_at_ms: i64,
    pub last_run_at_ms: Option<i64>,
    pub max_history: i64,
}

/// A job as the durable scheduler reports it; `invocation` is its payload
/// decoded, `None` when the payload does not decode.
#[derive(Debug, Clone, PartialEq, Eq)]
pub struct CronJobInfo {
    pub name: String,
    pub is_cron: bool,
    pub action: String,
    pub invocation: Option<CronInvoke>,
    pub expression: Option<String>,
    pub timezone: Option<String>,
    pub next_run_at: i64,
    pub last_run_at: Option<i64>,
    pub max_history: i64,
}

/// Whether another job may be scheduled next to the existing `names`: below
/// the limit, or when it replaces a job of the same name.
pub open spec fn check_cron_capacity(names: Seq<String>, requested: Option<Seq<char>>) -> Outcome {
    if names.len() >= MAX_CRON_JOBS && !(requested matches Some(r) && exists|j: int| 0 <= j < names.len() && #[trigger] names[j]@ == r) {
        Err(fault(ErrorCode::LimitExceeded, "actor has "@ + decimal(names.len()) + " cron jobs; maximum is 1024; cancel a job before scheduling another"@))
    } else {
        Ok(())
    }
}

/// Refuses a new job when the existing jobs (named `names`) reach the limit,
/// unless it replaces one of them.
pub fn cron_capacity(names: &Vec<String>, requested: &Option<String>) -> (r: Result<(), ActorError>)
    ensures
        outcome(r) == check_cron_capacity(names@, opt_view(*requested)),
{
    let n = names.len();
    if n < MAX_CRON_JOBS {
        return Ok(());
    }
    if let Some(name) = requested {
        let mut j: usize = 0;
        while j < n
            invariant
                n == names@.len(),
                opt_view(*requested) == Some(name@),
                j <= n,
                forall|k: int| 0 <= k < j ==> #[trigger] names@[k]@ != name@,
            decreases n - j,
        {
            if names[j] == *name {
                assert(names@[j as int]@ == name@);
                return Ok(());
            }
            j += 1;
        }
    }
    let body = with_number(owned("actor has "), n, " cron jobs; maximum is 1024; cancel a job before scheduling another");
    Err(ActorError::new(ErrorCode::LimitExceeded, body))
}

/// The bounds of a schedule under its resolved name; on success, the
/// history length it keeps.
pub open spec fn check_cron_schedule(name: Seq<char>, s: CronSchedule) -> Result<i64, Fault> {
    let history = match s.max_history { Some(h) => h, None => DEFAULT_CRON_HISTORY };
    match then(check_nonempty_bytes("cron name"@, name, MAX_CRON_NAME_BYTES as nat),
        then(check_nonempty_bytes("cron expression"@, s.expression@, MAX_CRON_EXPRESSION_BYTES as nat),
        then(match s.timezone {
            Some(t) => check_nonempty_bytes("cron timezone"@, t@, MAX_TIMEZONE_BYTES as nat),
            None => Ok(()),
        },
        then(check_command(s.command@),
        then(check_arguments(s.args@),
        check_spawn_options(s.options)))))) {
        Err(f) => Err(f),
        Ok(()) => if 0 <= history <= MAX_CRON_HISTORY {
            Ok(history)
        } else {
            Err(fault(ErrorCode::LimitExceeded, "cron maxHistory must be between 0 and 256"@))
        },
    }
}

/// Checks a schedule under its resolved name and returns the history length
/// it keeps.
pub fn validate_cron_schedule(name: &str, schedule: &CronSchedule) -> (r: Result<i64, ActorError>)
    ensures
        outcome_of(r, |h: i64| h) == check_cron_schedule(name@, *schedule),
{
    validate_nonempty_bytes("cron name", name, MAX_CRON_NAME_BYTES)?;
    validate_nonempty_bytes("cron expression", schedule.expression.as_str(), MAX_CRON_EXPRESSION_BYTES)?;
    if let Some(timezone) = &schedule.timezone {
        validate_nonempty_bytes("cron timezone", timezone.as_str(), MAX_TIMEZONE_BYTES)?;
    }
    validate_command(schedule.command.as_str())?;
    validate_arguments(schedule.args.as_slice())?;
    validate_spawn_options(&schedule.options)?;
    let history = match schedule.max_history {
        Some(h) => h,
        None => DEFAULT_CRON_HISTORY,
    };
    if !(0 <= history && history <= MAX_CRON_HISTORY) {
        return Err(ActorError::new(ErrorCode::LimitExceeded, owned("cron maxHistory must be between 0 and 256")));
    }
    Ok(history)
}

/// Refuses an encoded schedule payload of more than 64 KiB.
pub fn validate_cron_payload(len: usize) -> (r: Result<(), ActorError>)
    ensures
        len <= MAX_CRON_ARGUMENT_BYTES ==> r is Ok,
        len > MAX_CRON_ARGUMENT_BYTES ==> (r matches Err(e) && e@ == fault(ErrorCode::LimitExceeded,
            "encoded cron action is "@ + decimal(len as nat) + " bytes; maximum is 65536"@)),
{
    if len > MAX_CRON_ARGUMENT_BYTES {
        let body = with_number(owned("encoded cron action is "), len, " bytes; maximum is 65536");
        return Err(ActorError::new(ErrorCode::LimitExceeded, body));
    }
    Ok(())
}

/// The bounds of a scheduled invocation's own fields.
pub open spec fn check_cron_invoke(c: CronInvoke) -> Outcome {
    then(check_nonempty_bytes("cron schedule name"@, c.schedule_name@, MAX_CRON_NAME_BYTES as nat),
    then(check_command(c.command@),
    then(check_arguments(c.args@),
    check_spawn_options(c.options))))
}

/// Checks a scheduled invocation's own fields.
pub fn validate_cron_invoke(invocation: &CronInvoke) -> (r: Result<(), ActorError>)
    ensures
        outcome(r) == check_cron_invoke(*invocation),
{
    validate_nonempty_bytes("cron schedule name", invocation.schedule_name.as_str(), MAX_CRON_NAME_BYTES)?;
    validate_command(invocation.command.as_str())?;
    validate_arguments(invocation.args.as_slice())?;
    validate_spawn_options(&invocation.options)
}

/// Two string lists with the same contents.
pub open spec fn same_strings(a: Seq<String>, b: Seq<String>) -> bool {
    a.len() == b.len() && forall|i: int| 0 <= i < a.len() ==> #[trigger] a[i]@ == b[i]@
}

/// Two spawn options with the same contents.
pub open spec fn same_options(a: ActorSpawnOptions, b: ActorSpawnOptions) -> bool {
    &&& a.env@ == b.env@
    &&& opt_view(a.cwd) == opt_view(b.cwd)
    &&& a.stdin_fd == b.stdin_fd
    &&& a.stdout_fd == b.stdout_fd
    &&& a.stderr_fd == b.stderr_fd
}

/// Two invocations with the same contents.
pub open spec fn same_invocation(a: CronInvoke, b: CronInvoke) -> bool {
    &&& a.schedule_name@ == b.schedule_name@
    &&& a.invoke_token@ == b.invoke_token@
    &&& a.command@ == b.command@
    &&& same_strings(a.args@, b.args@)
    &&& same_options(a.options, b.options)
    &&& a.config_revision == b.config_revision
}

fn strings_equal(a: &Vec<String>, b: &Vec<String>) -> (r: bool)
    ensures
        r == same_strings(a@, b@),
{
    if a.len() != b.len() {
        return false;
    }
    let n = a.len();
    let mut i: usize = 0;
    while i < n
        invariant
            n == a@.len(),
            n == b@.len(),
            i <= n,
            forall|k: int| 0 <= k < i ==> #[trigger] a@[k]@ == b@[k]@,
        decreases n - i,
    {
        if a[i] != b[i] {
            return false;
        }
        i += 1;
    }
    true
}

fn maps_equal(a: &StringMap, b: &StringMap) -> (r: bool)
    ensures
        r == (a@ == b@),
{
    let n = a.len();
    if n != b.len() {
        return false;
    }
    let mut i: usize = 0;
    while i < n
        invariant
            n == a@.len(),
            n == b@.len(),
            i <= n,
            forall|k: int| 0 <= k < i ==> #[trigger] a@[k] == b@[k],
        decreases n - i,
    {
        let (ka, va) = a.entry(i);
        let (kb, vb) = b.entry(i);
        if *ka != *kb || *va != *vb {
            return false;
        }
        i += 1;
    }
    assert(a@ =~= b@);
    true
}

fn optional_strings_equal(a: &Option<String>, b: &Option<String>) -> (r: bool)
    ensures
        r == (opt_view(*a) == opt_view(*b)),
{
    match (a, b) {
        (Some(x), Some(y)) => *x == *y,
        (None, None) => true,
        _ => false,
    }
}

fn invocations_equal(a: &CronInvoke, b: &CronInvoke) -> (r: bool)
    ensures
        r == same_invocation(*a, *b),
{
    a.schedule_name == b.schedule_name
        && a.invoke_token == b.invoke_token
        && a.command == b.command
        && strings_equal(&a.args, &b.args)
        && maps_equal(&a.options.env, &b.options.env)
        && optional_strings_equal(&a.options.cwd, &b.options.cwd)
        && a.options.stdin_fd == b.options.stdin_fd
        && a.options.stdout_fd == b.options.stdout_fd
        && a.options.stderr_fd == b.options.stderr_fd
        && a.config_revision == b.config_revision
}

/// Whether a scheduled invocation is still the one the scheduler holds: the
/// job exists, is a cron job for the private action under the same name,
/// and its payload decodes to exactly this invocation.
pub open spec fn check_durable_invocation(invocation: CronInvoke, scheduled: Option<CronJobInfo>) -> Outcome {
    match scheduled {
        None => Err(fault(ErrorCode::NotFound, "cron job "@ + debug_text(invocation.schedule_name@) + " was cancelled before invocation"@)),
        Some(job) => if job.name@ != invocation.schedule_name@ || !job.is_cron || job.action@ != PRIVATE_CRON_ACTION@ {
            Err(fault(ErrorCode::RevisionConflict, "cron job "@ + debug_text(invocation.schedule_name@) + " no longer targets the agentOS command action"@))
        } else {
            match job.invocation {
                None => Err(fault(ErrorCode::Internal, "decode cron job "@ + debug_text(job.name@) + " invocation"@)),
                Some(current) => if !same_invocation(current, invocation) {
                    Err(fault(ErrorCode::RevisionConflict, "cron job "@ + debug_text(invocation.schedule_name@) + " was replaced before invocation"@))
                } else {
                    Ok(())
                },
            }
        },
    }
}

/// Checks that a scheduled invocation is still the one the scheduler holds.
pub fn validate_durable_invocation(invocation: &CronInvoke, scheduled: Option<&CronJobInfo>) -> (r: Result<(), ActorError>)
    ensures
        outcome(r) == check_durable_invocation(*invocation, match scheduled { Some(j) => Some(*j), None => None }),
{
    let job = match scheduled {
        None => {
            let body = with_text(owned("cron job "), debug_quoted(invocation.schedule_name.as_str()).as_str(), " was cancelled before invocation");
            return Err(ActorError::new(ErrorCode::NotFound, body));
        },
        Some(j) => j,
    };
    if job.name != invocation.schedule_name || !job.is_cron || !str_equals(job.action.as_str(), PRIVATE_CRON_ACTION) {
        let body = with_text(owned("cron job "), debug_quoted(invocation.schedule_name.as_str()).as_str(), " no longer targets the agentOS command action");
        return Err(ActorError::new(ErrorCode::RevisionConflict, body));
    }
    match &job.invocation {
        None => {
            let body = with_text(owned("decode cron job "), debug_quoted(job.name.as_str()).as_str(), " invocation");
            Err(ActorError::new(ErrorCode::Internal, body))
        },
        Some(current) => if !invocations_equal(current, invocation) {
            let body = with_text(owned("cron job "), debug_quoted(invocation.schedule_name.as_str()).as_str(), " was replaced before invocation");
            Err(ActorError::new(ErrorCode::RevisionConflict, body))
        } else {
            Ok(())
        },
    }
}

/// Refuses to launch a job validated under another configuration revision.
pub fn check_cron_revision(validated: u64, current: u64) -> (r: Result<(), ActorError>)
    ensures
        validated == current ==> r is Ok,
        validated != current ==> (r matches Err(e) && e@ == fault(ErrorCode::RevisionConflict,
            "cron job was validated at revision "@ + decimal(validated as nat) + " but current revision is "@ + decimal(current as nat))),
{
    if validated != current {
        let head = with_text(owned("cron job was validated at revision "), u64_text(validated).as_str(), " but current revision is ");
        let body = appended(head, u64_text(current).as_str());
        return Err(ActorError::new(ErrorCode::RevisionConflict, body));
    }
    Ok(())
}

/// The public job of a scheduled one, or why it is not an agentOS command job.
pub open spec fn cron_job_spec(info: CronJobInfo) -> Result<(), Fault> {
    if info.action@ != PRIVATE_CRON_ACTION@ {
        Err(fault(ErrorCode::InvalidInput, "cron job "@ + debug_text(info.name@) + " is not an agentOS command job"@))
    } else if info.invocation is None {
        Err(fault(ErrorCode::Internal, "decode cron job "@ + debug_text(info.name@) + " invocation"@))
    } else if info.expression is None {
        Err(fault(ErrorCode::Internal, "cron job "@ + debug_text(info.name@) + " has no expression"@))
    } else {
        Ok(())
    }
}

/// `job` is the public form of the scheduled `info`.
pub open spec fn describes_job(job: ActorCronJob, info: CronJobInfo) -> bool {
    &&& info.invocation matches Some(inv)
    &&& info.expression matches Some(expr)
    &&& job == (ActorCronJob {
        name: info.name,
        expression: expr,
        timezone: info.timezone,
        command: inv.command,
        args: inv.args,
        options: inv.options,
        config_revision: inv.config_revision,
        next_run_at_ms: info.next_run_at,
        last_run_at_ms: info.last_run_at,
        max_history: info.max_history,
    })
}

/// The public form of a scheduled agentOS command job.
pub fn actor_cron_job(info: CronJobInfo) -> (r: Result<ActorCronJob, ActorError>)
    ensures
        outcome_of(r, |j: ActorCronJob| ()) == cron_job_spec(info),
        r matches Ok(job) ==> describes_job(job, info),
{
    if !str_equals(info.action.as_str(), PRIVATE_CRON_ACTION) {
        let body = with_text(owned("cron job "), debug_quoted(info.name.as_str()).as_str(), " is not an agentOS command job");
        return Err(ActorError::new(ErrorCode::InvalidInput, body));
    }
    let invocation = match info.invocation {
        None => {
            let body = with_text(owned("decode cron job "), debug_quoted(info.name.as_str()).as_str(), " invocation");
            return Err(ActorError::new(ErrorCode::Internal, body));
        },
        Some(i) => i,
    };
    let expression = match info.expression {
        None => {
            let body = with_text(owned("cron job "), debug_quoted(info.name.as_str()).as_str(), " has no expression");
            return Err(ActorError::new(ErrorCode::Internal, body));
        },
        Some(e) => e,
    };
    Ok(ActorCronJob {
        name: info.name,
        expression,
        timezone: info.timezone,
        command: invocation.command,
        args: invocation.args,
        options: invocation.options,
        config_revision: invocation.config_revision,
        next_run_at_ms: info.next_run_at,
        last_run_at_ms: info.last_run_at,
        max_history: info.max_history,
    })
}

/// Whether a scheduled job carries the private agentOS action.
pub open spec fn is_agentos_job(info: CronJobInfo) -> bool {
    info.action@ == PRIVATE_CRON_ACTION@
}

/// The test `is_agentos_job` as a value.
pub open spec fn agentos_test() -> spec_fn(CronJobInfo) -> bool {
    |j: CronJobInfo| is_agentos_job(j)
}

/// The agentOS jobs among `jobs`, in order.
pub open spec fn agentos_jobs(jobs: Seq<CronJobInfo>) -> Seq<CronJobInfo> {
    jobs.filter(agentos_test())
}

/// Lists the agentOS command jobs among the scheduler's jobs, in order; the
/// first one that cannot be described fails the listing.
pub fn list_cron_jobs(jobs: Vec<CronJobInfo>) -> (r: Result<Vec<ActorCronJob>, ActorError>)
    ensures
        jobs@.len() > MAX_CRON_JOBS ==> (r matches Err(e) && e@ == fault(ErrorCode::LimitExceeded,
            "RivetKit returned "@ + decimal(jobs@.len()) + " cron jobs; maximum is 1024"@)),
        jobs@.len() <= MAX_CRON_JOBS ==> match r {
            Ok(listed) => listed@.len() == agentos_jobs(jobs@).len()
                && forall|i: int| 0 <= i < listed@.len() ==> describes_job(#[trigger] listed@[i], agentos_jobs(jobs@)[i]),
            Err(e) => exists|i: int| 0 <= i < agentos_jobs(jobs@).len()
                && cron_job_spec(#[trigger] agentos_jobs(jobs@)[i]) == Err::<(), Fault>(e@)
                && forall|k: int| 0 <= k < i ==> cron_job_spec(#[trigger] agentos_jobs(jobs@)[k]) is Ok,
        },
{
    let n = jobs.len();
    if n > MAX_CRON_JOBS {
        let body = with_number(owned("RivetKit returned "), n, " cron jobs; maximum is 1024");
        return Err(ActorError::new(ErrorCode::LimitExceeded, body));
    }
    let ghost all = jobs@;
    let mut pending = jobs;
    let mut listed: Vec<ActorCronJob> = Vec::new();
    let mut i: usize = 0;
    while i < n
        invariant
            n == all.len(),
            all == jobs@,
            n <= MAX_CRON_JOBS,
            i <= n,
            pending@.len() == n - i,
            forall|k: int| 0 <= k < n - i ==> #[trigger] pending@[k] == all[i + k],
            listed@.len() == agentos_jobs(all.take(i as int)).len(),
            forall|k: int| 0 <= k < listed@.len() ==> describes_job(#[trigger] listed@[k], agentos_jobs(all.take(i as int))[k]),
            forall|k: int| 0 <= k < agentos_jobs(all.take(i as int)).len() ==> cron_job_spec(#[trigger] agentos_jobs(all.take(i as int))[k]) is Ok,
        decreases n - i,
    {
        assert(pending@[0] == all[i as int + 0]);
        let job = pending.remove(0);
        let ghost before = all.take(i as int);
        assert(all.take(i as int + 1) =~= before.push(job));
        proof {
            before.lemma_filter_push(job, agentos_test());
        }
        if str_equals(job.action.as_str(), PRIVATE_CRON_ACTION) {
            let ghost info = job;
            match actor_cron_job(job) {
                Ok(public) => {
                    listed.push(public);
                },
                Err(e) => {
                    proof {
                        let m = agentos_jobs(before).len() as int;
                        assert(all.take(n as int) =~= all);
                        lemma_filter_prefix(all, i as int, n as int);
                        lemma_filter_prefix(all, i as int + 1, n as int);
                        assert(agentos_jobs(all.take(i as int + 1)) == agentos_jobs(before).push(info));
                        assert(agentos_jobs(all)[m] == info);
                        assert forall|k: int| 0 <= k < m implies cron_job_spec(#[trigger] agentos_jobs(all)[k]) is Ok by {
                            assert(agentos_jobs(all)[k] == agentos_jobs(before)[k]);
                        }
                    }
                    return Err(e);
                },
            }
        }
        i += 1;
    }
    assert(all.take(n as int) =~= all);
    Ok(listed)
}

proof fn lemma_filter_prefix(all: Seq<CronJobInfo>, m: int, n: int)
    requires
        0 <= m <= n <= all.len(),
    ensures
        agentos_jobs(all.take(m)).len() <= agentos_jobs(all.take(n)).len(),
        forall|k: int| 0 <= k < agentos_jobs(all.take(m)).len() ==> #[trigger] agentos_jobs(all.take(n))[k] == agentos_jobs(all.take(m))[k],
    decreases n - m,
{
    if m < n {
        lemma_filter_prefix(all, m, n - 1);
        assert(all.take(n) =~= all.take(n - 1).push(all[n - 1]));
        all.take(n - 1).lemma_filter_push(all[n - 1], agentos_test());
    }
}

} // verus!
