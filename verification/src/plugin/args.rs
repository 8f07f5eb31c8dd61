//! Decoding of the positional arguments of each actor action.
//!
//! Clients send an action's arguments as a CBOR array. Each action accepts one
//! or more argument lists (a trailing options object may be omitted); an
//! argument list is accepted when the array has exactly its length and every
//! element has the kind its position asks for.
use vstd::prelude::*;

use crate::contract::action_input::{
    entry_models, lemma_entry_models_upto, lemma_models_upto, model, models, parse_cbor,
    revive, revive_undefined_envelopes, text_of, CborModel, CborValue, cbor_decoded,
};
use crate::error::{fault, outcome, ActorError, ErrorCode, Fault, Outcome};
use crate::plugin::surface::action_names;
use crate::text::{appended, decimal, hex_digit, hex_text, owned, str_equals, with_number, with_text};

verus! {

/// The kind of one field of an options object.
#[derive(Debug, Clone, Copy, PartialEq, Eq)]
pub enum FieldKind {
    Text,
    Bool,
    Port,
    TextList,
    TextMap,
    Content,
    CronAction,
    Overlap,
}

/// One field of an options object: whether it must be present and whether
/// it may be null.
#[derive(Debug, Clone, Copy)]
pub struct FieldSpec {
    pub name: &'static str,
    pub kind: FieldKind,
    pub required: bool,
    pub nullable: bool,
}

/// The mathematical content of a field: name, kind, required, nullable.
pub type FieldView = (Seq<char>, FieldKind, bool, bool);

/// The options objects and entries that actions take.
#[derive(Debug, Clone, Copy, PartialEq, Eq, Structural)]
pub enum RecordKind {
    DeleteOptions,
    WriteEntry,
    ExecOptions,
    SpawnOptions,
    ShellOptions,
    FetchOptions,
    CronJob,
    SessionOptions,
}

/// The kind of one positional argument.
#[derive(Debug, Clone, Copy, PartialEq, Eq, Structural)]
pub enum ArgKind {
    Text,
    Port,
    Pid,
    Seconds,
    Content,
    TextList,
    Record(RecordKind),
    OptionalRecord(RecordKind),
    RecordList(RecordKind),
}

// ---------------------------------------------------------------------------
// Conformance, mathematically
// ---------------------------------------------------------------------------

/// An integer value within `0..=max`.
pub open spec fn integer_within(v: CborModel, max: int) -> bool {
    match v {
        CborModel::Integer(n) => 0 <= n <= max,
        _ => false,
    }
}

/// Text or bytes, or the client's `["$Uint8Array", base64]` envelope.
pub open spec fn is_content(v: CborModel) -> bool {
    match v {
        CborModel::Text(_) | CborModel::Bytes(_) => true,
        CborModel::Array(items) => items.len() == 2 && text_of(items[0]) == Some("$Uint8Array"@)
            && text_of(items[1]) is Some,
        _ => false,
    }
}

/// An array of text values.
pub open spec fn is_text_list(v: CborModel) -> bool {
    match v {
        CborModel::Array(items) => forall|i: int| 0 <= i < items.len() ==> (#[trigger] text_of(items[i])) is Some,
        _ => false,
    }
}

/// An object whose keys and values are all text.
pub open spec fn is_text_map(v: CborModel) -> bool {
    match v {
        CborModel::Object(entries) => text_pairs(entries),
        _ => false,
    }
}

/// Entries whose keys and values are all text.
pub open spec fn text_pairs(entries: Seq<(CborModel, CborModel)>) -> bool {
    forall|i: int| 0 <= i < entries.len() ==> #[trigger] text_pair(entries[i])
}

/// An entry whose key and value are text.
pub open spec fn text_pair(e: (CborModel, CborModel)) -> bool {
    text_of(e.0) is Some && text_of(e.1) is Some
}

/// The value of the first entry whose key is the text `name`, at or after `i`.
pub open spec fn lookup_from(entries: Seq<(CborModel, CborModel)>, name: Seq<char>, i: int) -> Option<CborModel>
    decreases entries.len() - i,
{
    if i < 0 || i >= entries.len() {
        None
    } else if text_of(entries[i].0) == Some(name) {
        Some(entries[i].1)
    } else {
        lookup_from(entries, name, i + 1)
    }
}

/// The value of the first entry whose key is the text `name`.
pub open spec fn lookup(entries: Seq<(CborModel, CborModel)>, name: Seq<char>) -> Option<CborModel> {
    lookup_from(entries, name, 0)
}

/// A scheduled cron job's action: `{ type: "exec", command, args? }` or
/// `{ type: "session", agentType, prompt }`.
pub open spec fn is_cron_action(v: CborModel) -> bool {
    match v {
        CborModel::Object(entries) => {
            let tag = lookup(entries, "type"@);
            if tag == Some(CborModel::Text("exec"@)) {
                &&& lookup(entries, "command"@) matches Some(c) && text_of(c) is Some
                &&& lookup(entries, "args"@) matches Some(a) ==> is_text_list(a)
            } else if tag == Some(CborModel::Text("session"@)) {
                &&& lookup(entries, "agentType"@) matches Some(a) && text_of(a) is Some
                &&& lookup(entries, "prompt"@) matches Some(p) && text_of(p) is Some
            } else {
                false
            }
        },
        _ => false,
    }
}

/// A cron overlap policy.
pub open spec fn is_overlap(v: CborModel) -> bool {
    v == CborModel::Text("allow"@) || v == CborModel::Text("skip"@) || v == CborModel::Text("queue"@)
}

/// The fields of each options object, as the serde derives of the action
/// DTOs read them: `Option` fields may be missing or null, `default` fields
/// may be missing, the others are required.
pub open spec fn record_fields(k: RecordKind) -> Seq<FieldView> {
    match k {
        RecordKind::DeleteOptions => seq![("recursive"@, FieldKind::Bool, false, false)],
        RecordKind::WriteEntry => seq![("path"@, FieldKind::Text, true, false), ("content"@, FieldKind::Content, true, false)],
        RecordKind::ExecOptions => seq![("env"@, FieldKind::TextMap, false, false), ("cwd"@, FieldKind::Text, false, true)],
        RecordKind::SpawnOptions => seq![("env"@, FieldKind::TextMap, false, false), ("cwd"@, FieldKind::Text, false, true), ("streamStdin"@, FieldKind::Bool, false, true)],
        RecordKind::ShellOptions => seq![("command"@, FieldKind::Text, false, true), ("args"@, FieldKind::TextList, false, false), ("env"@, FieldKind::TextMap, false, false), ("cwd"@, FieldKind::Text, false, true), ("cols"@, FieldKind::Port, false, true), ("rows"@, FieldKind::Port, false, true)],
        RecordKind::FetchOptions => seq![("method"@, FieldKind::Text, false, true), ("headers"@, FieldKind::TextMap, false, false), ("body"@, FieldKind::Content, false, true)],
        RecordKind::CronJob => seq![("id"@, FieldKind::Text, false, true), ("schedule"@, FieldKind::Text, true, false), ("action"@, FieldKind::CronAction, true, false), ("overlap"@, FieldKind::Overlap, false, true)],
        RecordKind::SessionOptions => seq![("cwd"@, FieldKind::Text, false, true), ("env"@, FieldKind::TextMap, false, false), ("skipOsInstructions"@, FieldKind::Bool, false, true), ("additionalInstructions"@, FieldKind::Text, false, true)],
    }
}

impl View for FieldSpec {
    type V = FieldView;

    open spec fn view(&self) -> FieldView {
        (self.name@, self.kind, self.required, self.nullable)
    }
}

/// The fields of an options object.
pub fn record_field_specs(k: RecordKind) -> (v: Vec<FieldSpec>)
    ensures
        v@.len() == record_fields(k).len(),
        forall|i: int| 0 <= i < v@.len() ==> (#[trigger] v@[i])@ == record_fields(k)[i],
{
    let mut v: Vec<FieldSpec> = Vec::new();
    match k {
        RecordKind::DeleteOptions => {
            v.push(FieldSpec { name: "recursive", kind: FieldKind::Bool, required: false, nullable: false });
        },
        RecordKind::WriteEntry => {
            v.push(FieldSpec { name: "path", kind: FieldKind::Text, required: true, nullable: false });
            v.push(FieldSpec { name: "content", kind: FieldKind::Content, required: true, nullable: false });
        },
        RecordKind::ExecOptions => {
            v.push(FieldSpec { name: "env", kind: FieldKind::TextMap, required: false, nullable: false });
            v.push(FieldSpec { name: "cwd", kind: FieldKind::Text, required: false, nullable: true });
        },
        RecordKind::SpawnOptions => {
            v.push(FieldSpec { name: "env", kind: FieldKind::TextMap, required: false, nullable: false });
            v.push(FieldSpec { name: "cwd", kind: FieldKind::Text, required: false, nullable: true });
            v.push(FieldSpec { name: "streamStdin", kind: FieldKind::Bool, required: false, nullable: true });
        },
        RecordKind::ShellOptions => {
            v.push(FieldSpec { name: "command", kind: FieldKind::Text, required: false, nullable: true });
            v.push(FieldSpec { name: "args", kind: FieldKind::TextList, required: false, nullable: false });
            v.push(FieldSpec { name: "env", kind: FieldKind::TextMap, required: false, nullable: false });
            v.push(FieldSpec { name: "cwd", kind: FieldKind::Text, required: false, nullable: true });
            v.push(FieldSpec { name: "cols", kind: FieldKind::Port, required: false, nullable: true });
            v.push(FieldSpec { name: "rows", kind: FieldKind::Port, required: false, nullable: true });
        },
        RecordKind::FetchOptions => {
            v.push(FieldSpec { name: "method", kind: FieldKind::Text, required: false, nullable: true });
            v.push(FieldSpec { name: "headers", kind: FieldKind::TextMap, required: false, nullable: false });
            v.push(FieldSpec { name: "body", kind: FieldKind::Content, required: false, nullable: true });
        },
        RecordKind::CronJob => {
            v.push(FieldSpec { name: "id", kind: FieldKind::Text, required: false, nullable: true });
            v.push(FieldSpec { name: "schedule", kind: FieldKind::Text, required: true, nullable: false });
            v.push(FieldSpec { name: "action", kind: FieldKind::CronAction, required: true, nullable: false });
            v.push(FieldSpec { name: "overlap", kind: FieldKind::Overlap, required: false, nullable: true });
        },
        RecordKind::SessionOptions => {
            v.push(FieldSpec { name: "cwd", kind: FieldKind::Text, required: false, nullable: true });
            v.push(FieldSpec { name: "env", kind: FieldKind::TextMap, required: false, nullable: false });
            v.push(FieldSpec { name: "skipOsInstructions", kind: FieldKind::Bool, required: false, nullable: true });
            v.push(FieldSpec { name: "additionalInstructions", kind: FieldKind::Text, required: false, nullable: true });
        },
    }
    v
}

/// A value of the given field kind.
pub open spec fn field_kind_ok(v: CborModel, kind: FieldKind) -> bool {
    match kind {
        FieldKind::Text => text_of(v) is Some,
        FieldKind::Bool => v is Bool,
        FieldKind::Port => integer_within(v, u16::MAX as int),
        FieldKind::TextList => is_text_list(v),
        FieldKind::TextMap => is_text_map(v),
        FieldKind::Content => is_content(v),
        FieldKind::CronAction => is_cron_action(v),
        FieldKind::Overlap => is_overlap(v),
    }
}

/// An object's entries satisfy one field: a missing field must not be
/// required, a null one must be nullable, any other must have the field's kind.
pub open spec fn field_ok(entries: Seq<(CborModel, CborModel)>, f: FieldView) -> bool {
    match lookup(entries, f.0) {
        None => !f.2,
        Some(v) => (v == CborModel::Null && f.3) || field_kind_ok(v, f.1),
    }
}

/// An object that satisfies every field.
pub open spec fn record_ok(v: CborModel, fields: Seq<FieldView>) -> bool {
    match v {
        CborModel::Object(entries) => forall|i: int| 0 <= i < fields.len() ==> field_ok(entries, #[trigger] fields[i]),
        _ => false,
    }
}

/// A value of the given argument kind.
pub open spec fn arg_ok(v: CborModel, kind: ArgKind) -> bool {
    match kind {
        ArgKind::Text => text_of(v) is Some,
        ArgKind::Port => integer_within(v, u16::MAX as int),
        ArgKind::Pid => integer_within(v, u32::MAX as int),
        ArgKind::Seconds => integer_within(v, u64::MAX as int),
        ArgKind::Content => is_content(v),
        ArgKind::TextList => is_text_list(v),
        ArgKind::Record(k) => record_ok(v, record_fields(k)),
        ArgKind::OptionalRecord(k) => v == CborModel::Null || record_ok(v, record_fields(k)),
        ArgKind::RecordList(k) => match v {
            CborModel::Array(items) => all_records(items, record_fields(k)),
            _ => false,
        },
    }
}

/// Items that are all objects satisfying the fields.
pub open spec fn all_records(items: Seq<CborModel>, fields: Seq<FieldView>) -> bool {
    forall|i: int| 0 <= i < items.len() ==> #[trigger] record_ok(items[i], fields)
}

/// An argument array that has exactly the given argument list.
pub open spec fn args_fit(v: CborModel, list: Seq<ArgKind>) -> bool {
    match v {
        CborModel::Array(items) => items.len() == list.len()
            && forall|i: int| 0 <= i < list.len() ==> arg_ok(#[trigger] items[i], list[i]),
        _ => false,
    }
}

/// An argument array that has one of the given argument lists.
pub open spec fn args_fit_any(v: CborModel, lists: Seq<Seq<ArgKind>>) -> bool {
    exists|i: int| 0 <= i < lists.len() && args_fit(v, #[trigger] lists[i])
}


// ---------------------------------------------------------------------------
// Conformance
// ---------------------------------------------------------------------------

fn integer_within_exec(v: &CborValue, max: u64) -> (b: bool)
    ensures
        b == integer_within(model(*v), max as int),
{
    match v {
        CborValue::Integer(n) => 0 <= *n && *n <= max as i128,
        _ => false,
    }
}

fn text_value(v: &CborValue) -> (r: Option<&String>)
    ensures
        match r {
            Some(t) => text_of(model(*v)) == Some(t@),
            None => text_of(model(*v)) is None,
        },
{
    match v {
        CborValue::Text(t) => Some(t),
        _ => None,
    }
}

fn text_is(v: &CborValue, lit: &str) -> (b: bool)
    ensures
        b == (text_of(model(*v)) == Some(lit@)),
{
    match text_value(v) {
        Some(t) => str_equals(t.as_str(), lit),
        None => false,
    }
}

fn is_content_exec(v: &CborValue) -> (b: bool)
    ensures
        b == is_content(model(*v)),
{
    match v {
        CborValue::Text(_) | CborValue::Bytes(_) => true,
        CborValue::Array(items) => {
            proof {
                lemma_models_upto(items@, items@.len() as int);
            }
            items.len() == 2 && text_is(&items[0], "$Uint8Array") && text_value(&items[1]).is_some()
        },
        _ => false,
    }
}

#[verifier::loop_isolation(false)]
fn is_text_list_exec(v: &CborValue) -> (b: bool)
    ensures
        b == is_text_list(model(*v)),
{
    match v {
        CborValue::Array(items) => {
            proof {
                lemma_models_upto(items@, items@.len() as int);
            }
            let ghost ms = models(items@);
            let n = items.len();
            let mut i: usize = 0;
            while i < n
                invariant
                    n == items@.len(),
                    ms == models(items@),
                    ms.len() == n,
                    forall|j: int| 0 <= j < n ==> #[trigger] ms[j] == model(items@[j]),
                    i <= n,
                    forall|j: int| 0 <= j < i ==> (#[trigger] text_of(ms[j])) is Some,
                decreases n - i,
            {
                if text_value(&items[i]).is_none() {
                    assert(text_of(ms[i as int]) is None);
                    return false;
                }
                i += 1;
            }
            true
        },
        _ => false,
    }
}

#[verifier::loop_isolation(false)]
fn is_text_map_exec(v: &CborValue) -> (b: bool)
    ensures
        b == is_text_map(model(*v)),
{
    match v {
        CborValue::Object(entries) => {
            proof {
                lemma_entry_models_upto(entries@, entries@.len() as int);
            }
            let ghost es = entry_models(entries@);
            let n = entries.len();
            let mut i: usize = 0;
            while i < n
                invariant
                    n == entries@.len(),
                    es == entry_models(entries@),
                    es.len() == n,
                    forall|j: int| 0 <= j < n ==> #[trigger] es[j] == (model(entries@[j].0), model(entries@[j].1)),
                    i <= n,
                    forall|j: int| 0 <= j < i ==> #[trigger] text_pair(es[j]),
                decreases n - i,
            {
                let entry = &entries[i];
                if text_value(&entry.0).is_none() || text_value(&entry.1).is_none() {
                    assert(!text_pair(es[i as int]));
                    return false;
                }
                i += 1;
            }
            true
        },
        _ => false,
    }
}

/// The value of the first entry whose key is the text `name`.
#[verifier::loop_isolation(false)]
fn lookup_exec<'a>(entries: &'a Vec<(CborValue, CborValue)>, name: &str) -> (r: Option<&'a CborValue>)
    ensures
        match r {
            Some(x) => lookup(entry_models(entries@), name@) == Some(model(*x)),
            None => lookup(entry_models(entries@), name@) is None,
        },
{
    proof {
        lemma_entry_models_upto(entries@, entries@.len() as int);
    }
    let ghost es = entry_models(entries@);
    let n = entries.len();
    let mut i: usize = 0;
    while i < n
        invariant
            n == entries@.len(),
            es == entry_models(entries@),
            es.len() == n,
            forall|j: int| 0 <= j < n ==> #[trigger] es[j] == (model(entries@[j].0), model(entries@[j].1)),
            i <= n,
            lookup(es, name@) == lookup_from(es, name@, i as int),
        decreases n - i,
    {
        if text_is(&entries[i].0, name) {
            return Some(&entries[i].1);
        }
        i += 1;
    }
    None
}

fn is_cron_action_exec(v: &CborValue) -> (b: bool)
    ensures
        b == is_cron_action(model(*v)),
{
    match v {
        CborValue::Object(entries) => {
            let tag = lookup_exec(entries, "type");
            let is_exec = match tag {
                Some(t) => text_is(t, "exec"),
                None => false,
            };
            let is_session = match tag {
                Some(t) => text_is(t, "session"),
                None => false,
            };
            proof {
                reveal_strlit("exec");
                reveal_strlit("session");
            }
            if is_exec {
                let command_ok = match lookup_exec(entries, "command") {
                    Some(c) => text_value(c).is_some(),
                    None => false,
                };
                let args_ok = match lookup_exec(entries, "args") {
                    Some(a) => is_text_list_exec(a),
                    None => true,
                };
                command_ok && args_ok
            } else if is_session {
                let agent_ok = match lookup_exec(entries, "agentType") {
                    Some(a) => text_value(a).is_some(),
                    None => false,
                };
                let prompt_ok = match lookup_exec(entries, "prompt") {
                    Some(p) => text_value(p).is_some(),
                    None => false,
                };
                agent_ok && prompt_ok
            } else {
                false
            }
        },
        _ => false,
    }
}

fn field_kind_ok_exec(v: &CborValue, kind: FieldKind) -> (b: bool)
    ensures
        b == field_kind_ok(model(*v), kind),
{
    match kind {
        FieldKind::Text => text_value(v).is_some(),
        FieldKind::Bool => match v {
            CborValue::Bool(_) => true,
            _ => false,
        },
        FieldKind::Port => integer_within_exec(v, 65535),
        FieldKind::TextList => is_text_list_exec(v),
        FieldKind::TextMap => is_text_map_exec(v),
        FieldKind::Content => is_content_exec(v),
        FieldKind::CronAction => is_cron_action_exec(v),
        FieldKind::Overlap => text_is(v, "allow") || text_is(v, "skip") || text_is(v, "queue"),
    }
}

fn is_null(v: &CborValue) -> (b: bool)
    ensures
        b == (model(*v) == CborModel::Null),
{
    match v {
        CborValue::Null => true,
        _ => false,
    }
}

#[verifier::loop_isolation(false)]
fn record_ok_exec(v: &CborValue, k: RecordKind) -> (b: bool)
    ensures
        b == record_ok(model(*v), record_fields(k)),
{
    match v {
        CborValue::Object(entries) => {
            let fields = record_field_specs(k);
            let ghost es = entry_models(entries@);
            let n = fields.len();
            let mut i: usize = 0;
            while i < n
                invariant
                    n == fields@.len(),
                    n == record_fields(k).len(),
                    forall|j: int| 0 <= j < n ==> (#[trigger] fields@[j])@ == record_fields(k)[j],
                    es == entry_models(entries@),
                    i <= n,
                    forall|j: int| 0 <= j < i ==> field_ok(es, #[trigger] record_fields(k)[j]),
                decreases n - i,
            {
                let f = fields[i];
                assert(f@ == record_fields(k)[i as int]);
                let ok = match lookup_exec(entries, f.name) {
                    None => !f.required,
                    Some(x) => (is_null(x) && f.nullable) || field_kind_ok_exec(x, f.kind),
                };
                if !ok {
                    assert(!field_ok(es, record_fields(k)[i as int]));
                    return false;
                }
                i += 1;
            }
            true
        },
        _ => false,
    }
}

#[verifier::loop_isolation(false)]
fn arg_ok_exec(v: &CborValue, kind: ArgKind) -> (b: bool)
    ensures
        b == arg_ok(model(*v), kind),
{
    match kind {
        ArgKind::Text => text_value(v).is_some(),
        ArgKind::Port => integer_within_exec(v, 65535),
        ArgKind::Pid => integer_within_exec(v, 4294967295),
        ArgKind::Seconds => integer_within_exec(v, 18446744073709551615),
        ArgKind::Content => is_content_exec(v),
        ArgKind::TextList => is_text_list_exec(v),
        ArgKind::Record(k) => record_ok_exec(v, k),
        ArgKind::OptionalRecord(k) => is_null(v) || record_ok_exec(v, k),
        ArgKind::RecordList(k) => all_records_exec(v, k),
    }
}

#[verifier::loop_isolation(false)]
fn all_records_exec(v: &CborValue, k: RecordKind) -> (b: bool)
    ensures
        b == match model(*v) {
            CborModel::Array(items) => all_records(items, record_fields(k)),
            _ => false,
        },
{
    match v {
        CborValue::Array(items) => {
            proof {
                lemma_models_upto(items@, items@.len() as int);
            }
            let ghost ms = models(items@);
            let n = items.len();
            let mut i: usize = 0;
            while i < n
                invariant
                    n == items@.len(),
                    ms == models(items@),
                    ms.len() == n,
                    forall|j: int| 0 <= j < n ==> #[trigger] ms[j] == model(items@[j]),
                    i <= n,
                    forall|j: int| 0 <= j < i ==> record_ok(#[trigger] ms[j], record_fields(k)),
                decreases n - i,
            {
                if !record_ok_exec(&items[i], k) {
                    assert(!record_ok(ms[i as int], record_fields(k)));
                    return false;
                }
                i += 1;
            }
            true
        },
        _ => false,
    }
}

#[verifier::loop_isolation(false)]
fn args_fit_exec(v: &CborValue, list: &Vec<ArgKind>) -> (b: bool)
    ensures
        b == args_fit(model(*v), list@),
{
    match v {
        CborValue::Array(items) => {
            proof {
                lemma_models_upto(items@, items@.len() as int);
            }
            let ghost ms = models(items@);
            if items.len() != list.len() {
                return false;
            }
            let n = list.len();
            let mut i: usize = 0;
            while i < n
                invariant
                    n == items@.len(),
                    n == list@.len(),
                    ms == models(items@),
                    ms.len() == n,
                    forall|j: int| 0 <= j < n ==> #[trigger] ms[j] == model(items@[j]),
                    i <= n,
                    forall|j: int| 0 <= j < i ==> arg_ok(#[trigger] ms[j], list@[j]),
                decreases n - i,
            {
                if !arg_ok_exec(&items[i], list[i]) {
                    assert(!arg_ok(ms[i as int], list@[i as int]));
                    return false;
                }
                i += 1;
            }
            true
        },
        _ => false,
    }
}



/// The views of a list of argument lists.
pub open spec fn lists_view(s: Seq<Vec<ArgKind>>) -> Seq<Seq<ArgKind>> {
    Seq::new(s.len(), |i: int| s[i]@)
}

/// The argument lists each decodable action accepts, in the order they are tried.
pub open spec fn arg_lists(name: Seq<char>) -> Option<Seq<Seq<ArgKind>>> {
    if name == "readFile"@ || name == "stat"@ || name == "mkdir"@ || name == "readdir"@ || name == "readdirEntries"@ || name == "exists"@ || name == "readdirRecursive"@ || name == "closeShell"@ || name == "waitShell"@ || name == "cancelCronJob"@ || name == "closeSession"@ || name == "getSessionEvents"@ || name == "expireSignedPreviewUrl"@ || name == "cancelPrompt"@ {
        Some(seq![seq![ArgKind::Text]])
    } else if name == "writeFile"@ || name == "writeShell"@ {
        Some(seq![seq![ArgKind::Text, ArgKind::Content]])
    } else if name == "move"@ || name == "sendPrompt"@ {
        Some(seq![seq![ArgKind::Text, ArgKind::Text]])
    } else if name == "deleteFile"@ {
        Some(seq![seq![ArgKind::Text, ArgKind::OptionalRecord(RecordKind::DeleteOptions)], seq![ArgKind::Text]])
    } else if name == "writeFiles"@ {
        Some(seq![seq![ArgKind::RecordList(RecordKind::WriteEntry)]])
    } else if name == "readFiles"@ {
        Some(seq![seq![ArgKind::TextList]])
    } else if name == "exec"@ {
        Some(seq![seq![ArgKind::Text, ArgKind::OptionalRecord(RecordKind::ExecOptions)], seq![ArgKind::Text]])
    } else if name == "spawn"@ {
        Some(seq![seq![ArgKind::Text, ArgKind::TextList, ArgKind::OptionalRecord(RecordKind::SpawnOptions)], seq![ArgKind::Text, ArgKind::TextList]])
    } else if name == "waitProcess"@ || name == "killProcess"@ || name == "stopProcess"@ || name == "getProcess"@ || name == "closeProcessStdin"@ {
        Some(seq![seq![ArgKind::Pid]])
    } else if name == "listProcesses"@ || name == "allProcesses"@ || name == "processTree"@ || name == "listCronJobs"@ || name == "listPersistedSessions"@ || name == "listMounts"@ || name == "listSoftware"@ || name == "getRuntimeHealth"@ || name == "listSessions"@ || name == "listPendingPermissions"@ {
        Some(seq![Seq::<ArgKind>::empty()])
    } else if name == "writeProcessStdin"@ {
        Some(seq![seq![ArgKind::Pid, ArgKind::Content]])
    } else if name == "openShell"@ {
        Some(seq![seq![ArgKind::OptionalRecord(RecordKind::ShellOptions)], Seq::<ArgKind>::empty()])
    } else if name == "resizeShell"@ {
        Some(seq![seq![ArgKind::Text, ArgKind::Port, ArgKind::Port]])
    } else if name == "vmFetch"@ {
        Some(seq![seq![ArgKind::Port, ArgKind::Text, ArgKind::OptionalRecord(RecordKind::FetchOptions)], seq![ArgKind::Port, ArgKind::Text]])
    } else if name == "scheduleCron"@ {
        Some(seq![seq![ArgKind::Record(RecordKind::CronJob)]])
    } else if name == "createSession"@ {
        Some(seq![seq![ArgKind::Text, ArgKind::OptionalRecord(RecordKind::SessionOptions)], seq![ArgKind::Text]])
    } else if name == "respondPermission"@ {
        Some(seq![seq![ArgKind::Text, ArgKind::Text, ArgKind::Text]])
    } else if name == "createSignedPreviewUrl"@ {
        Some(seq![seq![ArgKind::Port, ArgKind::Seconds]])
    } else {
        None
    }
}

/// Every action the plugin's contract surface lists has argument lists, so
/// none of them is refused as unknown.
pub proof fn lemma_every_listed_action_has_arguments()
    ensures
        forall|i: int| 0 <= i < action_names().len() ==> (#[trigger] arg_lists(action_names()[i])) is Some,
{
    let names = action_names();
    assert forall|i: int| 0 <= i < names.len() implies (#[trigger] arg_lists(names[i])) is Some by {
        assert(names.len() == 46);
        if i == 0 { } else if i == 1 { } else if i == 2 { } else if i == 3 { } else if i == 4 { }
        else if i == 5 { } else if i == 6 { } else if i == 7 { } else if i == 8 { } else if i == 9 { }
        else if i == 10 { } else if i == 11 { } else if i == 12 { } else if i == 13 { } else if i == 14 { }
        else if i == 15 { } else if i == 16 { } else if i == 17 { } else if i == 18 { } else if i == 19 { }
        else if i == 20 { } else if i == 21 { } else if i == 22 { } else if i == 23 { } else if i == 24 { }
        else if i == 25 { } else if i == 26 { } else if i == 27 { } else if i == 28 { } else if i == 29 { }
        else if i == 30 { } else if i == 31 { } else if i == 32 { } else if i == 33 { } else if i == 34 { }
        else if i == 35 { } else if i == 36 { } else if i == 37 { } else if i == 38 { } else if i == 39 { }
        else if i == 40 { } else if i == 41 { } else if i == 42 { } else if i == 43 { } else if i == 44 { }
        else if i == 45 { } else { }
    }
}

/// The argument lists the named action accepts, if it is decodable.
pub fn action_arg_lists(name: &str) -> (r: Option<Vec<Vec<ArgKind>>>)
    ensures
        match r {
            Some(v) => arg_lists(name@) matches Some(l) && lists_view(v@) == l,
            None => arg_lists(name@) is None,
        },
{
    if str_equals(name, "readFile") || str_equals(name, "stat") || str_equals(name, "mkdir") || str_equals(name, "readdir") || str_equals(name, "readdirEntries") || str_equals(name, "exists") || str_equals(name, "readdirRecursive") || str_equals(name, "closeShell") || str_equals(name, "waitShell") || str_equals(name, "cancelCronJob") || str_equals(name, "closeSession") || str_equals(name, "getSessionEvents") || str_equals(name, "expireSignedPreviewUrl") || str_equals(name, "cancelPrompt") {
        let mut lists: Vec<Vec<ArgKind>> = Vec::new();
        let mut l: Vec<ArgKind> = Vec::new();
        l.push(ArgKind::Text);
        lists.push(l);
        assert(lists_view(lists@) =~~= seq![seq![ArgKind::Text]]);
        Some(lists)
    } else if str_equals(name, "writeFile") || str_equals(name, "writeShell") {
        let mut lists: Vec<Vec<ArgKind>> = Vec::new();
        let mut l: Vec<ArgKind> = Vec::new();
        l.push(ArgKind::Text);
        l.push(ArgKind::Content);
        lists.push(l);
        assert(lists_view(lists@) =~~= seq![seq![ArgKind::Text, ArgKind::Content]]);
        Some(lists)
    } else if str_equals(name, "move") || str_equals(name, "sendPrompt") {
        let mut lists: Vec<Vec<ArgKind>> = Vec::new();
        let mut l: Vec<ArgKind> = Vec::new();
        l.push(ArgKind::Text);
        l.push(ArgKind::Text);
        lists.push(l);
        assert(lists_view(lists@) =~~= seq![seq![ArgKind::Text, ArgKind::Text]]);
        Some(lists)
    } else if str_equals(name, "deleteFile") {
        let mut lists: Vec<Vec<ArgKind>> = Vec::new();
        let mut l: Vec<ArgKind> = Vec::new();
        l.push(ArgKind::Text);
        l.push(ArgKind::OptionalRecord(RecordKind::DeleteOptions));
        lists.push(l);
        let mut l: Vec<ArgKind> = Vec::new();
        l.push(ArgKind::Text);
        lists.push(l);
        assert(lists_view(lists@) =~~= seq![seq![ArgKind::Text, ArgKind::OptionalRecord(RecordKind::DeleteOptions)], seq![ArgKind::Text]]);
        Some(lists)
    } else if str_equals(name, "writeFiles") {
        let mut lists: Vec<Vec<ArgKind>> = Vec::new();
        let mut l: Vec<ArgKind> = Vec::new();
        l.push(ArgKind::RecordList(RecordKind::WriteEntry));
        lists.push(l);
        assert(lists_view(lists@) =~~= seq![seq![ArgKind::RecordList(RecordKind::WriteEntry)]]);
        Some(lists)
    } else if str_equals(name, "readFiles") {
        let mut lists: Vec<Vec<ArgKind>> = Vec::new();
        let mut l: Vec<ArgKind> = Vec::new();
        l.push(ArgKind::TextList);
        lists.push(l);
        assert(lists_view(lists@) =~~= seq![seq![ArgKind::TextList]]);
        Some(lists)
    } else if str_equals(name, "exec") {
        let mut lists: Vec<Vec<ArgKind>> = Vec::new();
        let mut l: Vec<ArgKind> = Vec::new();
        l.push(ArgKind::Text);
        l.push(ArgKind::OptionalRecord(RecordKind::ExecOptions));
        lists.push(l);
        let mut l: Vec<ArgKind> = Vec::new();
        l.push(ArgKind::Text);
        lists.push(l);
        assert(lists_view(lists@) =~~= seq![seq![ArgKind::Text, ArgKind::OptionalRecord(RecordKind::ExecOptions)], seq![ArgKind::Text]]);
        Some(lists)
    } else if str_equals(name, "spawn") {
        let mut lists: Vec<Vec<ArgKind>> = Vec::new();
        let mut l: Vec<ArgKind> = Vec::new();
        l.push(ArgKind::Text);
        l.push(ArgKind::TextList);
        l.push(ArgKind::OptionalRecord(RecordKind::SpawnOptions));
        lists.push(l);
        let mut l: Vec<ArgKind> = Vec::new();
        l.push(ArgKind::Text);
        l.push(ArgKind::TextList);
        lists.push(l);
        assert(lists_view(lists@) =~~= seq![seq![ArgKind::Text, ArgKind::TextList, ArgKind::OptionalRecord(RecordKind::SpawnOptions)], seq![ArgKind::Text, ArgKind::TextList]]);
        Some(lists)
    } else if str_equals(name, "waitProcess") || str_equals(name, "killProcess") || str_equals(name, "stopProcess") || str_equals(name, "getProcess") || str_equals(name, "closeProcessStdin") {
        let mut lists: Vec<Vec<ArgKind>> = Vec::new();
        let mut l: Vec<ArgKind> = Vec::new();
        l.push(ArgKind::Pid);
        lists.push(l);
        assert(lists_view(lists@) =~~= seq![seq![ArgKind::Pid]]);
        Some(lists)
    } else if str_equals(name, "listProcesses") || str_equals(name, "allProcesses") || str_equals(name, "processTree") || str_equals(name, "listCronJobs") || str_equals(name, "listPersistedSessions") || str_equals(name, "listMounts") || str_equals(name, "listSoftware") || str_equals(name, "getRuntimeHealth") || str_equals(name, "listSessions") || str_equals(name, "listPendingPermissions") {
        let mut lists: Vec<Vec<ArgKind>> = Vec::new();
        let mut l: Vec<ArgKind> = Vec::new();
        lists.push(l);
        assert(lists_view(lists@) =~~= seq![Seq::<ArgKind>::empty()]);
        Some(lists)
    } else if str_equals(name, "writeProcessStdin") {
        let mut lists: Vec<Vec<ArgKind>> = Vec::new();
        let mut l: Vec<ArgKind> = Vec::new();
        l.push(ArgKind::Pid);
        l.push(ArgKind::Content);
        lists.push(l);
        assert(lists_view(lists@) =~~= seq![seq![ArgKind::Pid, ArgKind::Content]]);
        Some(lists)
    } else if str_equals(name, "openShell") {
        let mut lists: Vec<Vec<ArgKind>> = Vec::new();
        let mut l: Vec<ArgKind> = Vec::new();
        l.push(ArgKind::OptionalRecord(RecordKind::ShellOptions));
        lists.push(l);
        let mut l: Vec<ArgKind> = Vec::new();
        lists.push(l);
        assert(lists_view(lists@) =~~= seq![seq![ArgKind::OptionalRecord(RecordKind::ShellOptions)], Seq::<ArgKind>::empty()]);
        Some(lists)
    } else if str_equals(name, "resizeShell") {
        let mut lists: Vec<Vec<ArgKind>> = Vec::new();
        let mut l: Vec<ArgKind> = Vec::new();
        l.push(ArgKind::Text);
        l.push(ArgKind::Port);
        l.push(ArgKind::Port);
        lists.push(l);
        assert(lists_view(lists@) =~~= seq![seq![ArgKind::Text, ArgKind::Port, ArgKind::Port]]);
        Some(lists)
    } else if str_equals(name, "vmFetch") {
        let mut lists: Vec<Vec<ArgKind>> = Vec::new();
        let mut l: Vec<ArgKind> = Vec::new();
        l.push(ArgKind::Port);
        l.push(ArgKind::Text);
        l.push(ArgKind::OptionalRecord(RecordKind::FetchOptions));
        lists.push(l);
        let mut l: Vec<ArgKind> = Vec::new();
        l.push(ArgKind::Port);
        l.push(ArgKind::Text);
        lists.push(l);
        assert(lists_view(lists@) =~~= seq![seq![ArgKind::Port, ArgKind::Text, ArgKind::OptionalRecord(RecordKind::FetchOptions)], seq![ArgKind::Port, ArgKind::Text]]);
        Some(lists)
    } else if str_equals(name, "scheduleCron") {
        let mut lists: Vec<Vec<ArgKind>> = Vec::new();
        let mut l: Vec<ArgKind> = Vec::new();
        l.push(ArgKind::Record(RecordKind::CronJob));
        lists.push(l);
        assert(lists_view(lists@) =~~= seq![seq![ArgKind::Record(RecordKind::CronJob)]]);
        Some(lists)
    } else if str_equals(name, "createSession") {
        let mut lists: Vec<Vec<ArgKind>> = Vec::new();
        let mut l: Vec<ArgKind> = Vec::new();
        l.push(ArgKind::Text);
        l.push(ArgKind::OptionalRecord(RecordKind::SessionOptions));
        lists.push(l);
        let mut l: Vec<ArgKind> = Vec::new();
        l.push(ArgKind::Text);
        lists.push(l);
        assert(lists_view(lists@) =~~= seq![seq![ArgKind::Text, ArgKind::OptionalRecord(RecordKind::SessionOptions)], seq![ArgKind::Text]]);
        Some(lists)
    } else if str_equals(name, "respondPermission") {
        let mut lists: Vec<Vec<ArgKind>> = Vec::new();
        let mut l: Vec<ArgKind> = Vec::new();
        l.push(ArgKind::Text);
        l.push(ArgKind::Text);
        l.push(ArgKind::Text);
        lists.push(l);
        assert(lists_view(lists@) =~~= seq![seq![ArgKind::Text, ArgKind::Text, ArgKind::Text]]);
        Some(lists)
    } else if str_equals(name, "createSignedPreviewUrl") {
        let mut lists: Vec<Vec<ArgKind>> = Vec::new();
        let mut l: Vec<ArgKind> = Vec::new();
        l.push(ArgKind::Port);
        l.push(ArgKind::Seconds);
        lists.push(l);
        assert(lists_view(lists@) =~~= seq![seq![ArgKind::Port, ArgKind::Seconds]]);
        Some(lists)
    } else {
        None
    }
}


/// Whether a decoded argument array fits one of the argument lists.
#[verifier::loop_isolation(false)]
pub fn args_fit_any_exec(v: &CborValue, lists: &Vec<Vec<ArgKind>>) -> (b: bool)
    ensures
        b == args_fit_any(model(*v), lists_view(lists@)),
{
    let n = lists.len();
    let mut i: usize = 0;
    while i < n
        invariant
            n == lists@.len(),
            i <= n,
            forall|j: int| 0 <= j < i ==> !args_fit(model(*v), #[trigger] lists_view(lists@)[j]),
        decreases n - i,
    {
        if args_fit_exec(v, &lists[i]) {
            assert(args_fit(model(*v), lists_view(lists@)[i as int]));
            return true;
        }
        i += 1;
    }
    false
}

// ---------------------------------------------------------------------------
// Decoding
// ---------------------------------------------------------------------------

/// The bytes of the text `$Undefined`, which every undefined envelope holds.
pub open spec fn undefined_needle() -> Seq<u8> {
    seq![0x24u8, 0x55u8, 0x6eu8, 0x64u8, 0x65u8, 0x66u8, 0x69u8, 0x6eu8, 0x65u8, 0x64u8]
}

/// `needle` occurs in `bytes` at `start`.
pub open spec fn occurs_at(bytes: Seq<u8>, needle: Seq<u8>, start: int) -> bool {
    0 <= start && start + needle.len() <= bytes.len() && bytes.subrange(start, start + needle.len()) == needle
}

/// `needle` occurs somewhere in `bytes`.
pub open spec fn occurs_in(bytes: Seq<u8>, needle: Seq<u8>) -> bool {
    exists|start: int| #[trigger] occurs_at(bytes, needle, start)
}

/// How many leading bytes of an undecodable payload its error shows.
pub const MAX_ARGS_HEX_PREFIX: usize = 96;

/// The failure of a payload that does not decode: its size and a bounded hex
/// prefix of it, with an ellipsis when the prefix is shorter than the payload.
pub open spec fn args_fault(bytes: Seq<u8>) -> Fault {
    let shown = if bytes.len() > MAX_ARGS_HEX_PREFIX { bytes.take(MAX_ARGS_HEX_PREFIX as int) } else { bytes };
    fault(ErrorCode::Internal, "action args cbor ("@ + decimal(bytes.len()) + " bytes): "@ + hex_text(shown)
        + (if bytes.len() > MAX_ARGS_HEX_PREFIX { "…"@ } else { ""@ }))
}

/// The failure of an action name that no contract decodes.
pub open spec fn unknown_action_fault(name: Seq<char>) -> Fault {
    fault(ErrorCode::Internal, "unknown action "@ + name)
}

/// The outcome of decoding an action's argument payload: the payload must be
/// one CBOR item, and, once its undefined envelopes are revived (when the
/// payload holds the text `$Undefined` at all), one of the action's argument
/// lists.
pub open spec fn decode_outcome(name: Seq<char>, bytes: Seq<u8>) -> Outcome {
    match arg_lists(name) {
        None => Err(unknown_action_fault(name)),
        Some(lists) => match cbor_decoded(bytes) {
            None => Err(args_fault(bytes)),
            Some(v) => {
                let value = if occurs_in(bytes, undefined_needle()) { revive(v) } else { v };
                if args_fit_any(value, lists) {
                    Ok(())
                } else {
                    Err(args_fault(bytes))
                }
            },
        },
    }
}

fn contains_undefined(bytes: &[u8]) -> (b: bool)
    ensures
        b == occurs_in(bytes@, undefined_needle()),
{
    let needle: [u8; 10] = [0x24, 0x55, 0x6e, 0x64, 0x65, 0x66, 0x69, 0x6e, 0x65, 0x64];
    assert(needle@ =~= undefined_needle());
    let n = bytes.len();
    if n < 10 {
        assert forall|start: int| !occurs_at(bytes@, undefined_needle(), start) by {}
        return false;
    }
    let mut start: usize = 0;
    while start <= n - 10
        invariant
            n == bytes@.len(),
            n >= 10,
            start <= n - 9,
            needle@ == undefined_needle(),
            forall|t: int| 0 <= t < start ==> !#[trigger] occurs_at(bytes@, undefined_needle(), t),
        decreases n - start,
    {
        let mut k: usize = 0;
        let mut same = true;
        while k < 10
            invariant
                n == bytes@.len(),
                start + 10 <= n,
                k <= 10,
                needle@ == undefined_needle(),
                same == forall|j: int| 0 <= j < k ==> bytes@[start + j] == needle@[j],
            decreases 10 - k,
        {
            if bytes[start + k] != needle[k] {
                same = false;
            }
            k += 1;
        }
        if same {
            assert(bytes@.subrange(start as int, start + 10) =~= undefined_needle());
            assert(occurs_at(bytes@, undefined_needle(), start as int));
            return true;
        }
        assert(!occurs_at(bytes@, undefined_needle(), start as int)) by {
            if occurs_at(bytes@, undefined_needle(), start as int) {
                assert forall|j: int| 0 <= j < 10 implies bytes@[start + j] == needle@[j] by {
                    assert(bytes@.subrange(start as int, start + 10)[j] == bytes@[start + j]);
                }
            }
        }
        start += 1;
    }
    assert forall|t: int| !occurs_at(bytes@, undefined_needle(), t) by {
        if 0 <= t && t < start {
        } else if t >= start {
            assert(t + 10 > n);
        }
    }
    false
}

/// Two lower-case hexadecimal digits for each byte.
fn hex_of(bytes: &[u8], count: usize) -> (r: String)
    requires
        count <= bytes@.len(),
    ensures
        r@ == hex_text(bytes@.take(count as int)),
{
    let digits = "0123456789abcdef";
    proof {
        reveal_strlit("0123456789abcdef");
    }
    let mut r = String::new();
    let mut i: usize = 0;
    while i < count
        invariant
            count <= bytes@.len(),
            i <= count,
            digits@ == "0123456789abcdef"@,
            digits@.len() == 16,
            r@ == hex_text(bytes@.take(i as int)),
        decreases count - i,
    {
        let b = bytes[i];
        let hi = (b / 16) as usize;
        let lo = (b % 16) as usize;
        r.append(digits.substring_char(hi, hi + 1));
        r.append(digits.substring_char(lo, lo + 1));
        proof {
            assert(bytes@.take(i as int + 1).drop_last() =~= bytes@.take(i as int));
            assert(bytes@.take(i as int + 1).last() == b);
            assert(digits@.subrange(hi as int, hi + 1) =~= seq![hex_digit(b as int / 16)]);
            assert(digits@.subrange(lo as int, lo + 1) =~= seq![hex_digit(b as int % 16)]);
            assert(r@ =~= hex_text(bytes@.take(i as int + 1)));
        }
        i += 1;
    }
    r
}

fn args_error(args: &[u8]) -> (e: ActorError)
    ensures
        e@ == args_fault(args@),
{
    let n = args.len();
    let shown = if n > MAX_ARGS_HEX_PREFIX { MAX_ARGS_HEX_PREFIX } else { n };
    let hex = hex_of(args, shown);
    assert(n <= MAX_ARGS_HEX_PREFIX ==> args@.take(n as int) =~= args@);
    let head = with_number(owned("action args cbor ("), n, " bytes): ");
    let suffix = if n > MAX_ARGS_HEX_PREFIX { "…" } else { "" };
    let body = with_text(head, hex.as_str(), suffix);
    ActorError::new(ErrorCode::Internal, body)
}

/// Checks that `args` decodes as the positional arguments of the action
/// `name`: the name must be a decodable action and the payload one of the
/// action's argument lists.
pub fn decode_action_args(name: &str, args: &[u8]) -> (r: Result<(), ActorError>)
    ensures
        outcome(r) == decode_outcome(name@, args@),
{
    let lists = match action_arg_lists(name) {
        None => {
            return Err(ActorError::new(ErrorCode::Internal, appended(owned("unknown action "), name)));
        },
        Some(l) => l,
    };
    let parsed = match parse_cbor(args) {
        None => {
            return Err(args_error(args));
        },
        Some(v) => v,
    };
    let value = if contains_undefined(args) { revive_undefined_envelopes(parsed) } else { parsed };
    if args_fit_any_exec(&value, &lists) {
        Ok(())
    } else {
        Err(args_error(args))
    }
}

} // verus!
