//! The actor's durable store: schema upgrades, column decoding, preview
//! capacity and the rules of the VM's SQLite callback.
use vstd::prelude::*;

use crate::contract::config::{failure_of, spec_failure, AgentOsActorConfig};
use crate::contract::lifecycle::{apply_state_name, parse_apply_state, ConfigApplyState, ConfigSnapshot, VmIssue};
use crate::error::{fault, outcome, outcome_of, then, ActorError, ErrorCode, Fault, Outcome};
use crate::text::{
    appended, debug_quoted, debug_text, decimal, i64_text, owned, signed_decimal, str_equals,
    with_number, with_text,
};

verus! {

/// The schema version this actor writes.
pub const SCHEMA_VERSION: i64 = 3;

/// One schema upgrade; each advances the version by one.
#[derive(Debug, Clone, Copy, PartialEq, Eq, Structural)]
pub enum SchemaMigration {
    /// Version 0 to 1: the configuration table.
    ConfigTable,
    /// Version 1 to 2: the preview lease table and its expiry index.
    PreviewTable,
    /// Version 2 to 3: the durable VM generation counter.
    VmGenerationTable,
}

/// Creates the schema version table.
pub const CREATE_SCHEMA_VERSION_TABLE: &'static str = "CREATE TABLE IF NOT EXISTS agentos_actor_schema_version (id INTEGER PRIMARY KEY CHECK (id = 1), version INTEGER NOT NULL) STRICT";
/// Gives a new store schema version 0.
pub const INIT_SCHEMA_VERSION: &'static str = "INSERT OR IGNORE INTO agentos_actor_schema_version (id, version) VALUES (1, 0)";
/// Reads the stored schema version.
pub const READ_SCHEMA_VERSION: &'static str = "SELECT version FROM agentos_actor_schema_version WHERE id = 1";
/// Creates the configuration table.
pub const CREATE_CONFIG_TABLE: &'static str = "CREATE TABLE agentos_actor_config (id INTEGER PRIMARY KEY CHECK (id = 1), desired_config TEXT NOT NULL, revision INTEGER NOT NULL CHECK (revision >= 1), applied_revision INTEGER, status TEXT NOT NULL, issues TEXT NOT NULL, created_at_ms INTEGER NOT NULL, updated_at_ms INTEGER NOT NULL) STRICT";
/// Creates the preview lease table.
pub const CREATE_PREVIEW_TABLE: &'static str = "CREATE TABLE agentos_actor_previews (token TEXT PRIMARY KEY, port INTEGER NOT NULL CHECK (port BETWEEN 1 AND 65535), expires_at_ms INTEGER NOT NULL, created_at_ms INTEGER NOT NULL) STRICT";
/// Indexes the preview leases by expiry.
pub const CREATE_PREVIEW_EXPIRY_INDEX: &'static str = "CREATE INDEX agentos_actor_previews_expiration ON agentos_actor_previews (expires_at_ms)";
/// Creates the VM generation counter table.
pub const CREATE_VM_GENERATION_TABLE: &'static str = "CREATE TABLE agentos_actor_vm_generation (id INTEGER PRIMARY KEY CHECK (id = 1), generation INTEGER NOT NULL CHECK (generation >= 0)) STRICT";
/// Starts the VM generation counter at zero.
pub const INIT_VM_GENERATION: &'static str = "INSERT INTO agentos_actor_vm_generation (id, generation) VALUES (1, 0)";
/// Records schema version 1.
pub const SET_SCHEMA_VERSION_1: &'static str = "UPDATE agentos_actor_schema_version SET version = 1 WHERE id = 1";
/// Records schema version 2.
pub const SET_SCHEMA_VERSION_2: &'static str = "UPDATE agentos_actor_schema_version SET version = 2 WHERE id = 1";
/// Records schema version 3.
pub const SET_SCHEMA_VERSION_3: &'static str = "UPDATE agentos_actor_schema_version SET version = 3 WHERE id = 1";

/// The statements that make sure a store has a schema version, run before
/// it is read with `READ_SCHEMA_VERSION`.
pub open spec fn bootstrap_sql() -> Seq<Seq<char>> {
    seq![CREATE_SCHEMA_VERSION_TABLE@, INIT_SCHEMA_VERSION@]
}

/// The statements of one upgrade, in order: its tables, then the statement
/// that records the version it reaches.
pub open spec fn migration_sql(m: SchemaMigration) -> Seq<Seq<char>> {
    match m {
        SchemaMigration::ConfigTable => seq![CREATE_CONFIG_TABLE@, SET_SCHEMA_VERSION_1@],
        SchemaMigration::PreviewTable => seq![CREATE_PREVIEW_TABLE@, CREATE_PREVIEW_EXPIRY_INDEX@, SET_SCHEMA_VERSION_2@],
        SchemaMigration::VmGenerationTable => seq![CREATE_VM_GENERATION_TABLE@, INIT_VM_GENERATION@, SET_SCHEMA_VERSION_3@],
    }
}

/// The views of a list of statements.
pub open spec fn statements_view(v: Seq<&'static str>) -> Seq<Seq<char>> {
    Seq::new(v.len(), |i: int| v[i]@)
}

/// The statements that make sure a store has a schema version.
pub fn schema_bootstrap_sql() -> (r: Vec<&'static str>)
    ensures
        statements_view(r@) == bootstrap_sql(),
{
    let mut r: Vec<&'static str> = Vec::new();
    r.push(CREATE_SCHEMA_VERSION_TABLE);
    r.push(INIT_SCHEMA_VERSION);
    assert(statements_view(r@) =~= bootstrap_sql());
    r
}

impl SchemaMigration {
    /// The statements this upgrade runs, in order.
    pub fn sql(&self) -> (r: Vec<&'static str>)
        ensures
            statements_view(r@) == migration_sql(*self),
    {
        let mut r: Vec<&'static str> = Vec::new();
        match self {
            SchemaMigration::ConfigTable => {
                r.push(CREATE_CONFIG_TABLE);
                r.push(SET_SCHEMA_VERSION_1);
            },
            SchemaMigration::PreviewTable => {
                r.push(CREATE_PREVIEW_TABLE);
                r.push(CREATE_PREVIEW_EXPIRY_INDEX);
                r.push(SET_SCHEMA_VERSION_2);
            },
            SchemaMigration::VmGenerationTable => {
                r.push(CREATE_VM_GENERATION_TABLE);
                r.push(INIT_VM_GENERATION);
                r.push(SET_SCHEMA_VERSION_3);
            },
        }
        assert(statements_view(r@) =~= migration_sql(*self));
        r
    }
}

/// The upgrade that leaves version `from`.
pub open spec fn migration_from(from: int) -> SchemaMigration {
    if from == 0 {
        SchemaMigration::ConfigTable
    } else if from == 1 {
        SchemaMigration::PreviewTable
    } else {
        SchemaMigration::VmGenerationTable
    }
}

/// The failure for a schema version this actor cannot upgrade.
pub open spec fn unsupported_version(version: int) -> Fault {
    fault(ErrorCode::Internal, "unsupported agentOS actor schema version "@ + signed_decimal(version) + "; expected 3"@)
}

/// The upgrades that bring a stored schema at `version` to `SCHEMA_VERSION`,
/// in order; a version outside `0..=SCHEMA_VERSION` is refused.
pub fn schema_migrations(version: i64) -> (r: Result<Vec<SchemaMigration>, ActorError>)
    ensures
        0 <= version <= SCHEMA_VERSION ==> (r matches Ok(steps)
            && steps@.len() == SCHEMA_VERSION - version
            && forall|i: int| 0 <= i < steps@.len() ==> #[trigger] steps@[i] == migration_from(version + i)),
        !(0 <= version <= SCHEMA_VERSION) ==> (r matches Err(e) && e@ == unsupported_version(version as int)),
{
    let mut steps: Vec<SchemaMigration> = Vec::new();
    let mut current = version;
    if current == 0 {
        steps.push(SchemaMigration::ConfigTable);
        current = 1;
    }
    if current == 1 {
        steps.push(SchemaMigration::PreviewTable);
        current = 2;
    }
    if current == 2 {
        steps.push(SchemaMigration::VmGenerationTable);
        current = 3;
    }
    if current != SCHEMA_VERSION {
        let body = with_text(owned("unsupported agentOS actor schema version "), i64_text(current).as_str(), "; expected 3");
        return Err(ActorError::new(ErrorCode::Internal, body));
    }
    Ok(steps)
}

/// A column value read back from the actor's SQLite database; a real number
/// is carried as its IEEE-754 bit pattern.
#[derive(Debug, Clone, PartialEq, Eq)]
pub enum ColumnValue {
    Null,
    Integer(i64),
    Float(u64),
    Text(String),
    Blob(Vec<u8>),
}

/// The integer a column holds, if it holds one.
pub open spec fn integer_of(value: ColumnValue) -> Option<i64> {
    match value {
        ColumnValue::Integer(v) => Some(v),
        _ => None,
    }
}

/// The integer a column holds, if it holds one.
pub fn column_integer(value: &ColumnValue) -> (r: Option<i64>)
    ensures
        r == integer_of(*value),
{
    match value {
        ColumnValue::Integer(v) => Some(*v),
        _ => None,
    }
}

/// The integer of a column that must hold one.
pub fn column_integer_required(value: Option<&ColumnValue>, name: &str) -> (r: Result<i64, ActorError>)
    ensures
        match value {
            Some(v) if integer_of(*v) is Some => r == Ok::<i64, ActorError>(integer_of(*v)->Some_0),
            _ => r matches Err(e) && e@ == fault(ErrorCode::Internal, "actor config column "@ + name@ + " is missing or not an integer"@),
        },
{
    match value {
        Some(ColumnValue::Integer(v)) => Ok(*v),
        _ => Err(ActorError::new(ErrorCode::Internal, with_text(owned("actor config column "), name, " is missing or not an integer"))),
    }
}

/// The text of a column that must hold text.
pub fn column_text<'a>(value: Option<&'a ColumnValue>, name: &str) -> (r: Result<&'a str, ActorError>)
    ensures
        match value {
            Some(ColumnValue::Text(t)) => r matches Ok(s) && s@ == t@,
            _ => r matches Err(e) && e@ == fault(ErrorCode::Internal, "actor config column "@ + name@ + " is missing or not text"@),
        },
{
    match value {
        Some(ColumnValue::Text(t)) => Ok(t.as_str()),
        _ => Err(ActorError::new(ErrorCode::Internal, with_text(owned("actor config column "), name, " is missing or not text"))),
    }
}

/// A stored integer that must not be negative.
pub fn integer_to_u64(value: i64, name: &str) -> (r: Result<u64, ActorError>)
    ensures
        value >= 0 ==> r == Ok::<u64, ActorError>(value as u64),
        value < 0 ==> (r matches Err(e) && e@ == fault(ErrorCode::Internal, "actor config column "@ + name@ + " is negative"@)),
{
    if value < 0 {
        return Err(ActorError::new(ErrorCode::Internal, with_text(owned("actor config column "), name, " is negative")));
    }
    Ok(value as u64)
}

/// The integer in the first column of the first row, if there is one.
pub open spec fn first_integer(rows: Seq<Vec<ColumnValue>>) -> Option<i64> {
    if rows.len() > 0 && rows[0]@.len() > 0 {
        integer_of(rows[0]@[0])
    } else {
        None
    }
}

fn first_column_integer(rows: &Vec<Vec<ColumnValue>>) -> (r: Option<i64>)
    ensures
        r == first_integer(rows@),
{
    if rows.len() == 0 || rows[0].len() == 0 {
        return None;
    }
    column_integer(&rows[0][0])
}

/// The VM generation a counter increment returned: the integer in its first
/// row and column, which must be present and not negative.
pub fn vm_generation_from_rows(rows: &Vec<Vec<ColumnValue>>) -> (r: Result<u64, ActorError>)
    ensures
        match first_integer(rows@) {
            None => r matches Err(e) && e@ == fault(ErrorCode::Internal, "VM generation row is missing or exhausted"@),
            Some(g) => if g < 0 {
                r matches Err(e) && e@ == fault(ErrorCode::Internal, "VM generation is negative"@)
            } else {
                r == Ok::<u64, ActorError>(g as u64)
            },
        },
{
    match first_column_integer(rows) {
        None => Err(ActorError::new(ErrorCode::Internal, owned("VM generation row is missing or exhausted"))),
        Some(g) => if g < 0 {
            Err(ActorError::new(ErrorCode::Internal, owned("VM generation is negative")))
        } else {
            Ok(g as u64)
        },
    }
}

/// The number of live previews a count query returned.
pub fn preview_count_from_rows(rows: &Vec<Vec<ColumnValue>>) -> (r: Result<i64, ActorError>)
    ensures
        match first_integer(rows@) {
            None => r matches Err(e) && e@ == fault(ErrorCode::Internal, "preview lease count is missing or invalid"@),
            Some(c) => r == Ok::<i64, ActorError>(c),
        },
{
    match first_column_integer(rows) {
        None => Err(ActorError::new(ErrorCode::Internal, owned("preview lease count is missing or invalid"))),
        Some(c) => Ok(c),
    }
}

/// Whether another preview may be created while `count` are live.
pub open spec fn check_preview_capacity(count: int, max_previews: nat) -> Outcome {
    if max_previews > i64::MAX {
        Err(fault(ErrorCode::Internal, "preview limit exceeds sqlite integer"@))
    } else if count >= max_previews {
        Err(fault(ErrorCode::LimitExceeded, "actor has "@ + signed_decimal(count) + " active previews; maximum is "@
            + decimal(max_previews) + "; expire a preview before creating another"@))
    } else {
        Ok(())
    }
}

/// Refuses a new preview when `count` live previews already reach the limit.
pub fn preview_capacity(count: i64, max_previews: usize) -> (r: Result<(), ActorError>)
    ensures
        outcome(r) == check_preview_capacity(count as int, max_previews as nat),
{
    if max_previews as u128 > i64::MAX as u128 {
        return Err(ActorError::new(ErrorCode::Internal, owned("preview limit exceeds sqlite integer")));
    }
    if count as i128 >= max_previews as i128 {
        let head = with_text(owned("actor has "), i64_text(count).as_str(), " active previews; maximum is ");
        let body = with_number(head, max_previews, "; expire a preview before creating another");
        return Err(ActorError::new(ErrorCode::LimitExceeded, body));
    }
    Ok(())
}

/// A preview lease: the token a URL carries, the guest port it reaches and
/// its expiry in milliseconds.
#[derive(Debug, Clone, PartialEq, Eq)]
pub struct PreviewLease {
    pub token: String,
    pub port: u16,
    pub expires_at_ms: i64,
}

/// The column at `i`, if the row has one.
pub open spec fn column_at(row: Seq<ColumnValue>, i: int) -> Option<ColumnValue> {
    if 0 <= i < row.len() { Some(row[i]) } else { None }
}

/// A required integer column, or the failure naming it.
pub open spec fn required_integer(value: Option<ColumnValue>, name: Seq<char>) -> Result<i64, Fault> {
    match value {
        Some(ColumnValue::Integer(v)) => Ok(v),
        _ => Err(fault(ErrorCode::Internal, "actor config column "@ + name + " is missing or not an integer"@)),
    }
}

/// A stored preview lease `(token, port, expires_at_ms)`, decoded in the
/// order port, token, expiry; or why it cannot be.
pub open spec fn lease_from_row(row: Seq<ColumnValue>) -> Result<(Seq<char>, u16, i64), Fault> {
    match required_integer(column_at(row, 1), "preview port"@) {
        Err(f) => Err(f),
        Ok(port) => if port < 0 || port > u16::MAX {
            Err(fault(ErrorCode::Internal, "preview port is outside the u16 range"@))
        } else {
            match column_at(row, 0) {
                Some(ColumnValue::Text(t)) => match required_integer(column_at(row, 2), "preview expiration"@) {
                    Err(f) => Err(f),
                    Ok(expires) => Ok((t@, port as u16, expires)),
                },
                _ => Err(fault(ErrorCode::Internal, "actor config column "@ + "preview token"@ + " is missing or not text"@)),
            }
        },
    }
}

/// Decodes a stored preview lease `(token, port, expires_at_ms)`.
pub fn preview_lease_from_row(row: &Vec<ColumnValue>) -> (r: Result<PreviewLease, ActorError>)
    ensures
        match lease_from_row(row@) {
            Ok((token, port, expires)) => r matches Ok(lease) && lease.token@ == token && lease.port == port
                && lease.expires_at_ms == expires,
            Err(f) => r matches Err(e) && e@ == f,
        },
{
    let port_value = if row.len() > 1 { Some(&row[1]) } else { None };
    let port = column_integer_required(port_value, "preview port")?;
    if port < 0 || port > u16::MAX as i64 {
        return Err(ActorError::new(ErrorCode::Internal, owned("preview port is outside the u16 range")));
    }
    let token_value = if row.len() > 0 { Some(&row[0]) } else { None };
    let token = column_text(token_value, "preview token")?;
    let expires_value = if row.len() > 2 { Some(&row[2]) } else { None };
    let expires_at_ms = column_integer_required(expires_value, "preview expiration")?;
    Ok(PreviewLease { token: owned(token), port: port as u16, expires_at_ms })
}

/// Refuses a VM SQLite callback addressed to another database.
pub fn require_callback_database(expected: &str, actual: &str) -> (r: Result<(), ActorError>)
    ensures
        expected@ == actual@ ==> r is Ok,
        expected@ != actual@ ==> (r matches Err(e) && e@ == fault(ErrorCode::Internal,
            "invalid SQLite callback database "@ + debug_text(actual@) + "; expected "@ + debug_text(expected@))),
{
    if !str_equals(expected, actual) {
        let head = with_text(owned("invalid SQLite callback database "), debug_quoted(actual).as_str(), "; expected ");
        let body = appended(head, debug_quoted(expected).as_str());
        return Err(ActorError::new(ErrorCode::Internal, body));
    }
    Ok(())
}

/// Refuses a compare-and-set statement that changed another number of rows
/// than expected.
pub fn require_expected_changes(expected: Option<i64>, actual: i64) -> (r: Result<(), ActorError>)
    ensures
        match expected {
            Some(e) if e != actual => r matches Err(err) && err@ == fault(ErrorCode::Internal,
                "SQLite compare-and-set affected "@ + signed_decimal(actual as int) + " rows; expected "@ + signed_decimal(e as int)),
            _ => r is Ok,
        },
{
    match expected {
        Some(e) => if e != actual {
            let head = with_text(owned("SQLite compare-and-set affected "), i64_text(actual).as_str(), " rows; expected ");
            let body = appended(head, i64_text(e).as_str());
            Err(ActorError::new(ErrorCode::Internal, body))
        } else {
            Ok(())
        },
        None => Ok(()),
    }
}

/// The error of a failed VM transaction, with the rollback's failure, if
/// the rollback failed too, put in front of it.
pub fn preserve_rollback_error(error: ActorError, rollback: Result<(), ActorError>) -> (e: ActorError)
    ensures
        match rollback {
            Ok(()) => e == error,
            Err(rb) => e.code == error.code
                && e.message@ == "rollback Rivet SQLite VM transaction failed: "@ + rb.message@ + ": "@ + error.message@,
        },
{
    match rollback {
        Ok(()) => error,
        Err(rb) => {
            let head = with_text(owned("rollback Rivet SQLite VM transaction failed: "), rb.message.as_str(), ": ");
            ActorError { code: error.code, message: appended(head, error.message.as_str()) }
        },
    }
}

// ---------------------------------------------------------------------------
// The configuration snapshot row
// ---------------------------------------------------------------------------

fn row_column(row: &[ColumnValue], i: usize) -> (r: Option<&ColumnValue>)
    ensures
        match r {
            Some(v) => column_at(row@, i as int) == Some(*v),
            None => column_at(row@, i as int) is None,
        },
{
    if i < row.len() { Some(&row[i]) } else { None }
}

/// A column that must hold text.
pub open spec fn text_column(value: Option<ColumnValue>, name: Seq<char>) -> Outcome {
    match value {
        Some(ColumnValue::Text(_)) => Ok(()),
        _ => Err(fault(ErrorCode::Internal, "actor config column "@ + name + " is missing or not text"@)),
    }
}

/// A column that must hold a nonnegative integer.
pub open spec fn count_column(value: Option<ColumnValue>, name: Seq<char>) -> Outcome {
    match required_integer(value, name) {
        Err(f) => Err(f),
        Ok(v) => if v < 0 {
            Err(fault(ErrorCode::Internal, "actor config column "@ + name + " is negative"@))
        } else {
            Ok(())
        },
    }
}

/// The applied revision column: absent or null, or a nonnegative integer.
pub open spec fn applied_column(value: Option<ColumnValue>) -> Outcome {
    match value {
        None | Some(ColumnValue::Null) => Ok(()),
        _ => count_column(value, "applied_revision"@),
    }
}

/// The status column: text naming an apply state.
pub open spec fn status_column(value: Option<ColumnValue>) -> Outcome {
    match value {
        Some(ColumnValue::Text(t)) => spec_failure(parse_apply_state(t@)),
        _ => text_column(value, "status"@),
    }
}

/// Why a stored snapshot row cannot be decoded, checked column by column in
/// order; `desired` and `issues` are the outcomes of decoding the JSON texts
/// of the first and fifth columns.
pub open spec fn snapshot_row_outcome(row: Seq<ColumnValue>, desired: Outcome, issues: Outcome) -> Outcome {
    then(text_column(column_at(row, 0), "desired_config"@),
    then(desired,
    then(count_column(column_at(row, 1), "revision"@),
    then(applied_column(column_at(row, 2)),
    then(status_column(column_at(row, 3)),
    then(text_column(column_at(row, 4), "issues"@),
    then(issues,
    then(spec_failure(required_integer(column_at(row, 5), "created_at_ms"@)),
    spec_failure(required_integer(column_at(row, 6), "updated_at_ms"@))))))))))
}

/// Decodes the stored configuration snapshot row
/// `(desired_config, revision, applied_revision, status, issues,
/// created_at_ms, updated_at_ms)`; `desired` and `issues` are what the JSON
/// texts of the first and fifth columns decoded to.
pub fn decode_snapshot(row: &[ColumnValue], desired: Result<AgentOsActorConfig, ActorError>, issues: Result<Vec<VmIssue>, ActorError>) -> (r: Result<ConfigSnapshot, ActorError>)
    ensures
        outcome_of(r, |s: ConfigSnapshot| ()) == snapshot_row_outcome(row@, failure_of(desired), failure_of(issues)),
        r matches Ok(s) ==> {
            &&& desired matches Ok(d) && s.desired == d
            &&& issues matches Ok(i) && s.issues == i
            &&& required_integer(column_at(row@, 1), "revision"@) == Ok::<i64, Fault>(s.revision as i64)
            &&& s.applied_revision == match column_at(row@, 2) {
                Some(ColumnValue::Integer(v)) => Some(v as u64),
                _ => None::<u64>,
            }
            &&& column_at(row@, 3) matches Some(ColumnValue::Text(t)) && parse_apply_state(t@) == Ok::<ConfigApplyState, Fault>(s.status)
            &&& required_integer(column_at(row@, 5), "created_at_ms"@) == Ok::<i64, Fault>(s.created_at_ms)
            &&& required_integer(column_at(row@, 6), "updated_at_ms"@) == Ok::<i64, Fault>(s.updated_at_ms)
        },
{
    column_text(row_column(row, 0), "desired_config")?;
    let desired = desired?;
    let revision = integer_to_u64(column_integer_required(row_column(row, 1), "revision")?, "revision")?;
    let applied_value = row_column(row, 2);
    let applied_revision = match applied_value {
        None => None,
        Some(ColumnValue::Null) => None,
        Some(_) => Some(integer_to_u64(column_integer_required(applied_value, "applied_revision")?, "applied_revision")?),
    };
    let status = ConfigApplyState::from_str(column_text(row_column(row, 3), "status")?)?;
    column_text(row_column(row, 4), "issues")?;
    let issues = issues?;
    let created_at_ms = column_integer_required(row_column(row, 5), "created_at_ms")?;
    let updated_at_ms = column_integer_required(row_column(row, 6), "updated_at_ms")?;
    Ok(ConfigSnapshot { revision, desired, applied_revision, status, issues, created_at_ms, updated_at_ms })
}

/// A statement parameter bound for the actor's SQLite database; a real
/// number is carried as its IEEE-754 bit pattern.
#[derive(Debug, Clone, PartialEq, Eq)]
pub enum BindParam {
    Null,
    Integer(i64),
    Float(u64),
    Text(String),
    Blob(Vec<u8>),
}

/// `params` store snapshot `s`, its configuration and issues as the JSON
/// texts `desired_json` and `issues_json`.
pub open spec fn snapshot_params(params: Seq<BindParam>, s: ConfigSnapshot, desired_json: String, issues_json: String) -> bool {
    &&& s.revision <= i64::MAX
    &&& (s.applied_revision matches Some(a) ==> a <= i64::MAX)
    &&& params.len() == 7
    &&& params[0] == BindParam::Text(desired_json)
    &&& params[1] == BindParam::Integer(s.revision as i64)
    &&& params[2] == match s.applied_revision {
        Some(a) => BindParam::Integer(a as i64),
        None => BindParam::Null,
    }
    &&& params[3] matches BindParam::Text(t) && t@ == apply_state_name(s.status)
    &&& params[4] == BindParam::Text(issues_json)
    &&& params[5] == BindParam::Integer(s.created_at_ms)
    &&& params[6] == BindParam::Integer(s.updated_at_ms)
}

/// The database keeps parameter `p` as column value `c`: the same value.
pub open spec fn stored_as(p: BindParam, c: ColumnValue) -> bool {
    match (p, c) {
        (BindParam::Null, ColumnValue::Null) => true,
        (BindParam::Integer(a), ColumnValue::Integer(b)) => a == b,
        (BindParam::Float(a), ColumnValue::Float(b)) => a == b,
        (BindParam::Text(a), ColumnValue::Text(b)) => a@ == b@,
        (BindParam::Blob(a), ColumnValue::Blob(b)) => a@ == b@,
        _ => false,
    }
}

/// `row` is the row the database keeps for `params`.
pub open spec fn stores(params: Seq<BindParam>, row: Seq<ColumnValue>) -> bool {
    &&& params.len() == row.len()
    &&& forall|i: int| 0 <= i < params.len() ==> #[trigger] stored_as(params[i], row[i])
}

/// A snapshot stored through its bindings reads back as itself: its row
/// decodes without failure, given that its JSON texts decode, to the
/// revision, applied revision, status and times it was stored with.
pub proof fn lemma_stored_snapshot_reads_back(s: ConfigSnapshot, params: Seq<BindParam>, row: Seq<ColumnValue>, desired_json: String, issues_json: String)
    requires
        snapshot_params(params, s, desired_json, issues_json),
        stores(params, row),
    ensures
        snapshot_row_outcome(row, Ok(()), Ok(())) == Ok::<(), Fault>(()),
        required_integer(column_at(row, 1), "revision"@) == Ok::<i64, Fault>(s.revision as i64),
        (match column_at(row, 2) {
            Some(ColumnValue::Integer(v)) => Some(v as u64),
            _ => None::<u64>,
        }) == s.applied_revision,
        column_at(row, 3) matches Some(ColumnValue::Text(t)) && parse_apply_state(t@) == Ok::<ConfigApplyState, Fault>(s.status),
        required_integer(column_at(row, 5), "created_at_ms"@) == Ok::<i64, Fault>(s.created_at_ms),
        required_integer(column_at(row, 6), "updated_at_ms"@) == Ok::<i64, Fault>(s.updated_at_ms),
{
    assert(stored_as(params[0], row[0]));
    assert(stored_as(params[1], row[1]));
    assert(stored_as(params[2], row[2]));
    assert(stored_as(params[3], row[3]));
    assert(stored_as(params[4], row[4]));
    assert(stored_as(params[5], row[5]));
    assert(stored_as(params[6], row[6]));
    crate::contract::lifecycle::lemma_apply_state_round_trip(s.status);
}

/// The parameters that store a snapshot, in the order of its columns:
/// the desired configuration's JSON text, the revision, the applied
/// revision (null when none), the status name, the issues' JSON text and the
/// two times; a revision beyond the SQLite integer range is refused, the
/// applied one first.
pub fn snapshot_bindings(snapshot: &ConfigSnapshot, desired_json: String, issues_json: String) -> (r: Result<Vec<BindParam>, ActorError>)
    ensures
        match snapshot.applied_revision {
            Some(a) if a > i64::MAX => r matches Err(e) && e@ == fault(ErrorCode::Internal, "applied config revision exceeds sqlite integer range"@),
            _ => if snapshot.revision > i64::MAX {
                r matches Err(e) && e@ == fault(ErrorCode::Internal, "config revision exceeds sqlite integer range"@)
            } else {
                r matches Ok(params) && snapshot_params(params@, *snapshot, desired_json, issues_json)
            },
        },
{
    let applied = match snapshot.applied_revision {
        Some(a) => {
            if a > i64::MAX as u64 {
                return Err(ActorError::new(ErrorCode::Internal, owned("applied config revision exceeds sqlite integer range")));
            }
            BindParam::Integer(a as i64)
        },
        None => BindParam::Null,
    };
    if snapshot.revision > i64::MAX as u64 {
        return Err(ActorError::new(ErrorCode::Internal, owned("config revision exceeds sqlite integer range")));
    }
    let mut params: Vec<BindParam> = Vec::new();
    params.push(BindParam::Text(desired_json));
    params.push(BindParam::Integer(snapshot.revision as i64));
    params.push(applied);
    params.push(BindParam::Text(owned(snapshot.status.as_str())));
    params.push(BindParam::Text(issues_json));
    params.push(BindParam::Integer(snapshot.created_at_ms));
    params.push(BindParam::Integer(snapshot.updated_at_ms));
    Ok(params)
}

// ---------------------------------------------------------------------------
// Values crossing the VM's SQLite callback
// ---------------------------------------------------------------------------

/// A value of the VM's SQLite callback protocol; a real number is carried as
/// its IEEE-754 bit pattern.
#[derive(Debug, Clone, PartialEq, Eq)]
pub enum VmSqliteValue {
    Null,
    Integer(i64),
    Real(u64),
    Text(String),
    Blob(Vec<u8>),
}

/// A query result returned to the VM.
#[derive(Debug, Clone, PartialEq, Eq)]
pub struct VmSqliteQueryResult {
    pub columns: Vec<String>,
    pub rows: Vec<Vec<VmSqliteValue>>,
    pub changes: i64,
    pub last_insert_row_id: Option<i64>,
}

/// The statement parameter a VM value binds to: the same value.
pub open spec fn binding_of(value: VmSqliteValue) -> BindParam {
    match value {
        VmSqliteValue::Null => BindParam::Null,
        VmSqliteValue::Integer(v) => BindParam::Integer(v),
        VmSqliteValue::Real(v) => BindParam::Float(v),
        VmSqliteValue::Text(v) => BindParam::Text(v),
        VmSqliteValue::Blob(v) => BindParam::Blob(v),
    }
}

/// The VM value of a column read back: the same value.
pub open spec fn vm_value_of(value: ColumnValue) -> VmSqliteValue {
    match value {
        ColumnValue::Null => VmSqliteValue::Null,
        ColumnValue::Integer(v) => VmSqliteValue::Integer(v),
        ColumnValue::Float(v) => VmSqliteValue::Real(v),
        ColumnValue::Text(v) => VmSqliteValue::Text(v),
        ColumnValue::Blob(v) => VmSqliteValue::Blob(v),
    }
}

fn binding(value: VmSqliteValue) -> (r: BindParam)
    ensures
        r == binding_of(value),
{
    match value {
        VmSqliteValue::Null => BindParam::Null,
        VmSqliteValue::Integer(v) => BindParam::Integer(v),
        VmSqliteValue::Real(v) => BindParam::Float(v),
        VmSqliteValue::Text(v) => BindParam::Text(v),
        VmSqliteValue::Blob(v) => BindParam::Blob(v),
    }
}

fn vm_value(value: ColumnValue) -> (r: VmSqliteValue)
    ensures
        r == vm_value_of(value),
{
    match value {
        ColumnValue::Null => VmSqliteValue::Null,
        ColumnValue::Integer(v) => VmSqliteValue::Integer(v),
        ColumnValue::Float(v) => VmSqliteValue::Real(v),
        ColumnValue::Text(v) => VmSqliteValue::Text(v),
        ColumnValue::Blob(v) => VmSqliteValue::Blob(v),
    }
}

/// The statement parameters of the VM's values, one for one, in order.
pub fn sqlite_bindings(values: Vec<VmSqliteValue>) -> (r: Vec<BindParam>)
    ensures
        r@.len() == values@.len(),
        forall|i: int| 0 <= i < r@.len() ==> #[trigger] r@[i] == binding_of(values@[i]),
{
    let ghost all = values@;
    let n = values.len();
    let mut pending = values;
    let mut out: Vec<BindParam> = Vec::new();
    let mut j: usize = 0;
    while j < n
        invariant
            n == all.len(),
            j <= n,
            pending@.len() == n - j,
            forall|k: int| 0 <= k < n - j ==> #[trigger] pending@[k] == all[j + k],
            out@.len() == j,
            forall|k: int| 0 <= k < j ==> #[trigger] out@[k] == binding_of(all[k]),
        decreases n - j,
    {
        assert(pending@[0] == all[j as int + 0]);
        let v = pending.remove(0);
        out.push(binding(v));
        j += 1;
    }
    out
}

fn vm_row(row: Vec<ColumnValue>) -> (r: Vec<VmSqliteValue>)
    ensures
        r@.len() == row@.len(),
        forall|i: int| 0 <= i < r@.len() ==> #[trigger] r@[i] == vm_value_of(row@[i]),
{
    let ghost all = row@;
    let n = row.len();
    let mut pending = row;
    let mut out: Vec<VmSqliteValue> = Vec::new();
    let mut j: usize = 0;
    while j < n
        invariant
            n == all.len(),
            j <= n,
            pending@.len() == n - j,
            forall|k: int| 0 <= k < n - j ==> #[trigger] pending@[k] == all[j + k],
            out@.len() == j,
            forall|k: int| 0 <= k < j ==> #[trigger] out@[k] == vm_value_of(all[k]),
        decreases n - j,
    {
        assert(pending@[0] == all[j as int + 0]);
        let v = pending.remove(0);
        out.push(vm_value(v));
        j += 1;
    }
    out
}

/// The query result returned to the VM: the columns, each row's values one
/// for one, and the change metadata, all as read back.
pub fn sqlite_result(columns: Vec<String>, rows: Vec<Vec<ColumnValue>>, changes: i64, last_insert_row_id: Option<i64>) -> (r: VmSqliteQueryResult)
    ensures
        r.columns == columns,
        r.rows@.len() == rows@.len(),
        forall|i: int| 0 <= i < rows@.len() ==> (#[trigger] r.rows@[i])@.len() == rows@[i]@.len()
            && forall|k: int| 0 <= k < rows@[i]@.len() ==> #[trigger] r.rows@[i]@[k] == vm_value_of(rows@[i]@[k]),
        r.changes == changes,
        r.last_insert_row_id == last_insert_row_id,
{
    let ghost all = rows@;
    let n = rows.len();
    let mut pending = rows;
    let mut out: Vec<Vec<VmSqliteValue>> = Vec::new();
    let mut j: usize = 0;
    while j < n
        invariant
            n == all.len(),
            j <= n,
            pending@.len() == n - j,
            forall|k: int| 0 <= k < n - j ==> #[trigger] pending@[k] == all[j + k],
            out@.len() == j,
            forall|k: int| 0 <= k < j ==> (#[trigger] out@[k])@.len() == all[k]@.len()
                && forall|m: int| 0 <= m < all[k]@.len() ==> #[trigger] out@[k]@[m] == vm_value_of(all[k]@[m]),
        decreases n - j,
    {
        assert(pending@[0] == all[j as int + 0]);
        let row = pending.remove(0);
        out.push(vm_row(row));
        j += 1;
    }
    VmSqliteQueryResult { columns, rows: out, changes, last_insert_row_id }
}

} // verus!
