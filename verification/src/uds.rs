//! The actor SQLite client over a Unix domain socket: its failures and the
//! bounds of its frames.
use vstd::prelude::*;

use crate::text::{decimal, owned, signed_decimal, u64_text, with_text, i64_text};

verus! {

pub const PROTOCOL_VERSION: u16 = 1;
pub const MAX_FRAME_BYTES: u32 = 32 * 1024 * 1024;

/// A failure of the actor SQLite client.
#[derive(Debug, Clone, PartialEq, Eq)]
pub enum ActorUdsError {
    /// The socket failed; the I/O error's message.
    Io(String),
    Protocol(String),
    VersionMismatch,
    EndpointClosed,
    QueueFull { limit: String, capacity: u32 },
    InvalidLeaseKey { message: String },
    LeaseExpired { timeout_ms: u64, message: String },
    ResponseTooLarge,
    Sql { code: i32, statement_index: u32, message: String },
    Timeout { operation: &'static str, timeout_ms: u64 },
}

/// A SQLite value; a real number is carried as its IEEE-754 bit pattern.
#[derive(Debug, Clone, PartialEq, Eq)]
pub enum SqlValue {
    Null,
    Integer(i64),
    Real(u64),
    Text(String),
    Blob(Vec<u8>),
}

/// The result of a query.
#[derive(Debug, Clone)]
pub struct QueryResult {
    pub columns: Vec<String>,
    pub rows: Vec<Vec<SqlValue>>,
    pub changes: i64,
    pub last_insert_row_id: Option<i64>,
}

/// The message each failure reports.
pub open spec fn error_message(e: ActorUdsError) -> Seq<char> {
    match e {
        ActorUdsError::Io(m) => "actor SQLite UDS I/O failed: "@ + m@,
        ActorUdsError::Protocol(m) => "actor SQLite UDS protocol failed: "@ + m@,
        ActorUdsError::VersionMismatch => "actor SQLite UDS protocol version is unsupported"@,
        ActorUdsError::EndpointClosed => "actor SQLite UDS endpoint closed"@,
        ActorUdsError::QueueFull { limit, capacity } =>
            "actor SQLite UDS queue limit "@ + limit@ + " reached (capacity "@ + decimal(capacity as nat) + ")"@,
        ActorUdsError::InvalidLeaseKey { message } => "actor SQLite UDS transaction lease is invalid: "@ + message@,
        ActorUdsError::LeaseExpired { timeout_ms, message } =>
            "actor SQLite UDS transaction lease expired after "@ + decimal(timeout_ms as nat) + "ms: "@ + message@,
        ActorUdsError::ResponseTooLarge => "actor SQLite UDS response exceeded the negotiated frame limit"@,
        ActorUdsError::Sql { code, statement_index, message } =>
            "actor SQLite error "@ + signed_decimal(code as int) + " at statement "@ + decimal(statement_index as nat) + ": "@ + message@,
        ActorUdsError::Timeout { operation, timeout_ms } =>
            "actor SQLite UDS "@ + operation@ + " timed out after "@ + decimal(timeout_ms as nat) + "ms"@,
    }
}

impl ActorUdsError {
    /// The message the failure reports.
    pub fn message(&self) -> (m: String)
        ensures
            m@ == error_message(*self),
    {
        proof {
            reveal_strlit("");
        }
        match self {
            ActorUdsError::Io(m) => with_text(owned("actor SQLite UDS I/O failed: "), m.as_str(), ""),
            ActorUdsError::Protocol(m) => with_text(owned("actor SQLite UDS protocol failed: "), m.as_str(), ""),
            ActorUdsError::VersionMismatch => owned("actor SQLite UDS protocol version is unsupported"),
            ActorUdsError::EndpointClosed => owned("actor SQLite UDS endpoint closed"),
            ActorUdsError::QueueFull { limit, capacity } => {
                let head = with_text(owned("actor SQLite UDS queue limit "), limit.as_str(), " reached (capacity ");
                with_text(head, u64_text(*capacity as u64).as_str(), ")")
            },
            ActorUdsError::InvalidLeaseKey { message } =>
                with_text(owned("actor SQLite UDS transaction lease is invalid: "), message.as_str(), ""),
            ActorUdsError::LeaseExpired { timeout_ms, message } => {
                let head = with_text(owned("actor SQLite UDS transaction lease expired after "), u64_text(*timeout_ms).as_str(), "ms: ");
                with_text(head, message.as_str(), "")
            },
            ActorUdsError::ResponseTooLarge => owned("actor SQLite UDS response exceeded the negotiated frame limit"),
            ActorUdsError::Sql { code, statement_index, message } => {
                let head = with_text(owned("actor SQLite error "), i64_text(*code as i64).as_str(), " at statement ");
                let head = with_text(head, u64_text(*statement_index as u64).as_str(), ": ");
                with_text(head, message.as_str(), "")
            },
            ActorUdsError::Timeout { operation, timeout_ms } => {
                let head = with_text(owned("actor SQLite UDS "), operation, " timed out after ");
                with_text(head, u64_text(*timeout_ms).as_str(), "ms")
            },
        }
    }
}

/// The frame limit of a connection: the server's, capped at 32 MiB.
pub fn negotiated_frame_limit(server_max_frame_bytes: u32) -> (n: u32)
    ensures
        n == if server_max_frame_bytes < MAX_FRAME_BYTES { server_max_frame_bytes } else { MAX_FRAME_BYTES },
{
    if server_max_frame_bytes < MAX_FRAME_BYTES { server_max_frame_bytes } else { MAX_FRAME_BYTES }
}

/// Rejects a response frame longer than the connection's limit.
pub fn check_response_frame(length: u32, max_frame_bytes: u32) -> (r: Result<(), ActorUdsError>)
    ensures
        length > max_frame_bytes ==> (r matches Err(ActorUdsError::Protocol(m)) && m@ == "response frame is "@
            + decimal(length as nat) + " bytes, limit is "@ + decimal(max_frame_bytes as nat) + " bytes"@),
        length <= max_frame_bytes ==> r is Ok,
{
    if length > max_frame_bytes {
        let head = with_text(owned("response frame is "), u64_text(length as u64).as_str(), " bytes, limit is ");
        return Err(ActorUdsError::Protocol(with_text(head, u64_text(max_frame_bytes as u64).as_str(), " bytes")));
    }
    Ok(())
}

/// Rejects a request frame longer than the connection's limit.
pub fn check_request_frame(length: usize, max_frame_bytes: u32) -> (r: Result<(), ActorUdsError>)
    ensures
        length > max_frame_bytes ==> (r matches Err(ActorUdsError::Protocol(m)) && m@ == "request frame is "@
            + decimal(length as nat) + " bytes, limit is "@ + decimal(max_frame_bytes as nat) + " bytes"@),
        length <= max_frame_bytes ==> r is Ok,
{
    if length > max_frame_bytes as usize {
        let head = with_text(owned("request frame is "), crate::text::usize_text(length).as_str(), " bytes, limit is ");
        return Err(ActorUdsError::Protocol(with_text(head, u64_text(max_frame_bytes as u64).as_str(), " bytes")));
    }
    Ok(())
}

/// Rejects a response that answers another request; the connection is then
/// out of step and is dropped.
pub fn check_response_id(response_id: u32, request_id: u32) -> (r: Result<(), ActorUdsError>)
    ensures
        response_id != request_id ==> (r matches Err(ActorUdsError::Protocol(m)) && m@ == "response id "@
            + decimal(response_id as nat) + " did not match request id "@ + decimal(request_id as nat)),
        response_id == request_id ==> r is Ok,
{
    if response_id != request_id {
        let head = with_text(owned("response id "), u64_text(response_id as u64).as_str(), " did not match request id ");
        let body = with_text(head, u64_text(request_id as u64).as_str(), "");
        proof {
            reveal_strlit("");
            assert(body@ =~= "response id "@ + decimal(response_id as nat) + " did not match request id "@ + decimal(request_id as nat));
        }
        return Err(ActorUdsError::Protocol(body));
    }
    Ok(())
}

/// What the server answers a request with.
#[derive(Debug, Clone)]
pub enum ResponsePayload {
    SqliteExecOk,
    SqliteQueryOk(QueryResult),
    SqliteBeginOk,
    SqliteCommitOk,
    SqliteRollbackOk,
    SqlError { code: i32, statement_index: u32, message: String },
    EndpointClosed,
    QueueFull { limit: String, capacity: u32 },
    InvalidLeaseKey { message: String },
    LeaseExpired { timeout_ms: u64, message: String },
    ResponseTooLarge,
}

/// The failure a response stands for, if it is one.
pub open spec fn response_failure(payload: ResponsePayload) -> Option<ActorUdsError> {
    match payload {
        ResponsePayload::SqlError { code, statement_index, message } =>
            Some(ActorUdsError::Sql { code, statement_index, message }),
        ResponsePayload::EndpointClosed => Some(ActorUdsError::EndpointClosed),
        ResponsePayload::QueueFull { limit, capacity } => Some(ActorUdsError::QueueFull { limit, capacity }),
        ResponsePayload::InvalidLeaseKey { message } => Some(ActorUdsError::InvalidLeaseKey { message }),
        ResponsePayload::LeaseExpired { timeout_ms, message } =>
            Some(ActorUdsError::LeaseExpired { timeout_ms, message }),
        ResponsePayload::ResponseTooLarge => Some(ActorUdsError::ResponseTooLarge),
        _ => None,
    }
}

/// Turns a failure response into its error and hands any other response back.
pub fn map_response(payload: ResponsePayload) -> (r: Result<ResponsePayload, ActorUdsError>)
    ensures
        match response_failure(payload) {
            Some(e) => r == Err::<ResponsePayload, ActorUdsError>(e),
            None => r == Ok::<ResponsePayload, ActorUdsError>(payload),
        },
{
    match payload {
        ResponsePayload::SqlError { code, statement_index, message } =>
            Err(ActorUdsError::Sql { code, statement_index, message }),
        ResponsePayload::EndpointClosed => Err(ActorUdsError::EndpointClosed),
        ResponsePayload::QueueFull { limit, capacity } => Err(ActorUdsError::QueueFull { limit, capacity }),
        ResponsePayload::InvalidLeaseKey { message } => Err(ActorUdsError::InvalidLeaseKey { message }),
        ResponsePayload::LeaseExpired { timeout_ms, message } =>
            Err(ActorUdsError::LeaseExpired { timeout_ms, message }),
        ResponsePayload::ResponseTooLarge => Err(ActorUdsError::ResponseTooLarge),
        other => Ok(other),
    }
}

/// The milliseconds a request timeout reports: its whole milliseconds,
/// saturated at `u64::MAX`.
pub fn timeout_millis(millis: u128) -> (ms: u64)
    ensures
        ms == if millis < u64::MAX as u128 { millis } else { u64::MAX as u128 },
{
    if millis < u64::MAX as u128 { millis as u64 } else { u64::MAX }
}

/// The error a request that ran past its timeout reports.
pub fn request_timeout_error(millis: u128) -> (e: ActorUdsError)
    ensures
        e matches ActorUdsError::Timeout { operation, timeout_ms } && operation@ == "request"@
            && timeout_ms == if millis < u64::MAX as u128 { millis } else { u64::MAX as u128 },
{
    ActorUdsError::Timeout { operation: "request", timeout_ms: timeout_millis(millis) }
}

/// The length prefix of a frame of `len` bytes; a frame must fit a `u32`.
pub fn frame_length(len: usize) -> (r: Result<u32, ActorUdsError>)
    ensures
        len <= u32::MAX ==> r == Ok::<u32, ActorUdsError>(len as u32),
        len > u32::MAX ==> (r matches Err(ActorUdsError::Protocol(m)) && m@ == "frame length exceeds u32"@),
{
    if len > u32::MAX as usize {
        return Err(ActorUdsError::Protocol(owned("frame length exceeds u32")));
    }
    Ok(len as u32)
}

} // verus!
