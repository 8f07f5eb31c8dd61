//! The library's error type: a stable public code and a human-readable message.
use vstd::prelude::*;
use vstd::string::*;

verus! {

/// Stable public error codes, shared by every action.
#[derive(Debug, Clone, Copy, PartialEq, Eq, Structural)]
pub enum ErrorCode {
    InvalidInput,
    LimitExceeded,
    RevisionConflict,
    NotFound,
    NotReady,
    Timeout,
    Expired,
    TerminationFailed,
    StaleGeneration,
    Internal,
}

/// The message prefix that names the code; unclassified errors carry none.
pub open spec fn code_prefix(code: ErrorCode) -> Seq<char> {
    match code {
        ErrorCode::InvalidInput => "invalid_input: "@,
        ErrorCode::LimitExceeded => "limit_exceeded: "@,
        ErrorCode::RevisionConflict => "revision_conflict: "@,
        ErrorCode::NotFound => "not_found: "@,
        ErrorCode::NotReady => "not_ready: "@,
        ErrorCode::Timeout => "timeout: "@,
        ErrorCode::Expired => "expired: "@,
        ErrorCode::TerminationFailed => "termination_failed: "@,
        ErrorCode::StaleGeneration => "stale_generation: "@,
        ErrorCode::Internal => ""@,
    }
}

/// The public code string of each error code.
pub open spec fn code_name(code: ErrorCode) -> Seq<char> {
    match code {
        ErrorCode::InvalidInput => "invalid_input"@,
        ErrorCode::LimitExceeded => "limit_exceeded"@,
        ErrorCode::RevisionConflict => "revision_conflict"@,
        ErrorCode::NotFound => "not_found"@,
        ErrorCode::NotReady => "not_ready"@,
        ErrorCode::Timeout => "timeout"@,
        ErrorCode::Expired => "expired"@,
        ErrorCode::TerminationFailed => "termination_failed"@,
        ErrorCode::StaleGeneration => "stale_generation"@,
        ErrorCode::Internal => "internal"@,
    }
}

impl ErrorCode {
    /// The public code string.
    pub fn as_str(&self) -> (s: &'static str)
        ensures
            s@ == code_name(*self),
    {
        match self {
            ErrorCode::InvalidInput => "invalid_input",
            ErrorCode::LimitExceeded => "limit_exceeded",
            ErrorCode::RevisionConflict => "revision_conflict",
            ErrorCode::NotFound => "not_found",
            ErrorCode::NotReady => "not_ready",
            ErrorCode::Timeout => "timeout",
            ErrorCode::Expired => "expired",
            ErrorCode::TerminationFailed => "termination_failed",
            ErrorCode::StaleGeneration => "stale_generation",
            ErrorCode::Internal => "internal",
        }
    }

    /// The message prefix that names this code.
    pub fn prefix(&self) -> (s: &'static str)
        ensures
            s@ == code_prefix(*self),
    {
        match self {
            ErrorCode::InvalidInput => "invalid_input: ",
            ErrorCode::LimitExceeded => "limit_exceeded: ",
            ErrorCode::RevisionConflict => "revision_conflict: ",
            ErrorCode::NotFound => "not_found: ",
            ErrorCode::NotReady => "not_ready: ",
            ErrorCode::Timeout => "timeout: ",
            ErrorCode::Expired => "expired: ",
            ErrorCode::TerminationFailed => "termination_failed: ",
            ErrorCode::StaleGeneration => "stale_generation: ",
            ErrorCode::Internal => "",
        }
    }
}

/// An action failure: its code and the full message, prefix included.
#[derive(Debug, Clone)]
pub struct ActorError {
    pub code: ErrorCode,
    pub message: String,
}

/// What a failure is, mathematically: the code and the message text.
pub type Fault = (ErrorCode, Seq<char>);

/// The outcome of a check that returns nothing on success.
pub type Outcome = Result<(), Fault>;

impl View for ActorError {
    type V = Fault;

    open spec fn view(&self) -> Fault {
        (self.code, self.message@)
    }
}

/// A failure with the given code whose message is the code's prefix then `body`.
pub open spec fn fault(code: ErrorCode, body: Seq<char>) -> Fault {
    (code, code_prefix(code) + body)
}

/// The mathematical outcome of a unit result.
pub open spec fn outcome(r: Result<(), ActorError>) -> Outcome {
    match r {
        Ok(()) => Ok(()),
        Err(e) => Err(e@),
    }
}

/// The mathematical outcome of a result, mapping the value through `f`.
pub open spec fn outcome_of<T, U>(r: Result<T, ActorError>, f: spec_fn(T) -> U) -> Result<U, Fault> {
    match r {
        Ok(v) => Ok(f(v)),
        Err(e) => Err(e@),
    }
}

/// The first outcome if it failed, otherwise the second.
pub open spec fn then(first: Outcome, second: Outcome) -> Outcome {
    match first {
        Err(f) => Err(f),
        Ok(()) => second,
    }
}

/// The first failure among `check(i)` for `start <= i < len`, in order.
pub open spec fn scan(len: int, check: spec_fn(int) -> Outcome, start: int) -> Outcome
    decreases len - start,
{
    if start >= len {
        Ok(())
    } else {
        match check(start) {
            Err(f) => Err(f),
            Ok(()) => scan(len, check, start + 1),
        }
    }
}

/// The first failure among `check(i)` for `0 <= i < len`.
pub open spec fn first_failure(len: int, check: spec_fn(int) -> Outcome) -> Outcome {
    scan(len, check, 0)
}

impl ActorError {
    /// A failure with `code` whose message is the code's prefix followed by `body`.
    pub fn new(code: ErrorCode, body: String) -> (e: ActorError)
        ensures
            e@ == fault(code, body@),
    {
        let mut message = String::new();
        message.append(code.prefix());
        message.append(body.as_str());
        ActorError { code, message }
    }

    /// The full message, prefix included.
    pub fn message(&self) -> (s: String)
        ensures
            s@ == self.message@,
    {
        self.message.clone()
    }

    /// The public code string.
    pub fn code_str(&self) -> (s: &'static str)
        ensures
            s@ == code_name(self.code),
    {
        self.code.as_str()
    }
}

} // verus!
