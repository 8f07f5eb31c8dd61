//! Action input values and the normalization of the client's JSON-compatible
//! scalar tags.
//!
//! TypeScript clients wrap values that CBOR cannot carry in two-element arrays
//! whose first element is a tag string: `["$Undefined", 0]`,
//! `["$BigInt", "123"]`, `["$Uint8Array", base64]`, `["$ArrayBuffer", base64]`;
//! a literal array whose first string starts with `$` is escaped by doubling
//! the `$`. Normalization rewrites those envelopes into plain CBOR values,
//! bounded in nesting depth and in the number of values it visits.
use vstd::prelude::*;
use base64::Engine;
use ciborium::Value;

use crate::error::{fault, outcome, ActorError, ErrorCode, Fault, Outcome};
use crate::text::{byte_len, decimal, owned, str_equals, with_number, with_text};

verus! {

pub const MAX_ACTION_INPUT_DEPTH: usize = 64;
pub const MAX_ACTION_INPUT_NODES: usize = 128 * 1024;
pub const MAX_BINARY_BYTES: usize = 768 * 1024;
pub const MAX_BINARY_TEXT_BYTES: usize = 1024 * 1024;
pub const MAX_BIGINT_TEXT_BYTES: usize = 21;
pub const ACTION_ENVELOPE_RESERVE_BYTES: usize = 1024;

/// A CBOR value. Floats are carried as their IEEE-754 bit pattern.
#[derive(Debug, PartialEq, Eq)]
pub enum CborValue {
    Integer(i128),
    Bytes(Vec<u8>),
    Float(u64),
    Text(String),
    Bool(bool),
    Null,
    Tag(u64, Box<CborValue>),
    Array(Vec<CborValue>),
    Object(Vec<(CborValue, CborValue)>),
}

/// The mathematical content of a CBOR value.
pub enum CborModel {
    Integer(int),
    Bytes(Seq<u8>),
    Float(u64),
    Text(Seq<char>),
    Bool(bool),
    Null,
    Tag(u64, Box<CborModel>),
    Array(Seq<CborModel>),
    Object(Seq<(CborModel, CborModel)>),
}

// ---------------------------------------------------------------------------
// The model of a value
// ---------------------------------------------------------------------------

/// The mathematical content of a CBOR value.
pub open spec fn model(v: CborValue) -> CborModel
    decreases v, 0int,
{
    match v {
        CborValue::Integer(n) => CborModel::Integer(n as int),
        CborValue::Bytes(b) => CborModel::Bytes(b@),
        CborValue::Float(x) => CborModel::Float(x),
        CborValue::Text(t) => CborModel::Text(t@),
        CborValue::Bool(b) => CborModel::Bool(b),
        CborValue::Null => CborModel::Null,
        CborValue::Tag(t, inner) => CborModel::Tag(t, Box::new(model(*inner))),
        CborValue::Array(items) => CborModel::Array(models_upto(items@, items@.len() as int)),
        CborValue::Object(entries) => CborModel::Object(entry_models_upto(entries@, entries@.len() as int)),
    }
}

/// The models of the first `i` values.
pub open spec fn models_upto(s: Seq<CborValue>, i: int) -> Seq<CborModel>
    decreases s, i,
{
    if i <= 0 || i > s.len() {
        Seq::empty()
    } else {
        models_upto(s, i - 1).push(model(s[i - 1]))
    }
}

/// The models of the first `i` key-value entries.
pub open spec fn entry_models_upto(s: Seq<(CborValue, CborValue)>, i: int) -> Seq<(CborModel, CborModel)>
    decreases s, i,
{
    if i <= 0 || i > s.len() {
        Seq::empty()
    } else {
        entry_models_upto(s, i - 1).push((model(s[i - 1].0), model(s[i - 1].1)))
    }
}

/// The models of a sequence of values.
pub open spec fn models(s: Seq<CborValue>) -> Seq<CborModel> {
    models_upto(s, s.len() as int)
}

/// The models of a sequence of entries.
pub open spec fn entry_models(s: Seq<(CborValue, CborValue)>) -> Seq<(CborModel, CborModel)> {
    entry_models_upto(s, s.len() as int)
}

pub proof fn lemma_models_upto(s: Seq<CborValue>, i: int)
    requires
        0 <= i <= s.len(),
    ensures
        models_upto(s, i).len() == i,
        forall|j: int| 0 <= j < i ==> #[trigger] models_upto(s, i)[j] == model(s[j]),
    decreases i,
{
    if i > 0 {
        lemma_models_upto(s, i - 1);
    }
}

pub proof fn lemma_entry_models_upto(s: Seq<(CborValue, CborValue)>, i: int)
    requires
        0 <= i <= s.len(),
    ensures
        entry_models_upto(s, i).len() == i,
        forall|j: int| 0 <= j < i ==> #[trigger] entry_models_upto(s, i)[j] == (model(s[j].0), model(s[j].1)),
    decreases i,
{
    if i > 0 {
        lemma_entry_models_upto(s, i - 1);
    }
}

// ---------------------------------------------------------------------------
// Normalization, mathematically
// ---------------------------------------------------------------------------

pub open spec fn limit_fault() -> Fault {
    fault(ErrorCode::LimitExceeded, "action input exceeds nesting depth 64 or 131072 values; simplify the payload"@)
}

pub open spec fn undefined_fault() -> Fault {
    fault(ErrorCode::InvalidInput, "$Undefined requires the numeric sentinel 0"@)
}

pub open spec fn arity_fault(tag: Seq<char>) -> Fault {
    fault(ErrorCode::InvalidInput, tag + " requires exactly one string value"@)
}

pub open spec fn string_fault(tag: Seq<char>) -> Fault {
    fault(ErrorCode::InvalidInput, tag + " requires a string value"@)
}

pub open spec fn bigint_digits_fault() -> Fault {
    fault(ErrorCode::InvalidInput, "$BigInt must contain a decimal 64-bit integer"@)
}

pub open spec fn bigint_range_fault() -> Fault {
    fault(ErrorCode::InvalidInput, "$BigInt exceeds the CBOR 64-bit integer range"@)
}

pub open spec fn binary_limit_fault(tag: Seq<char>) -> Fault {
    fault(ErrorCode::LimitExceeded, tag + " exceeds the 768 KiB binary input limit; split the payload"@)
}

pub open spec fn base64_fault(tag: Seq<char>) -> Fault {
    fault(ErrorCode::InvalidInput, "invalid "@ + tag + " base64"@)
}

/// The text of a text value.
pub open spec fn text_of(m: CborModel) -> Option<Seq<char>> {
    match m {
        CborModel::Text(t) => Some(t),
        _ => None,
    }
}

/// The tag of an array: its first element, when that is text.
pub open spec fn first_tag(items: Seq<CborModel>) -> Option<Seq<char>> {
    if items.len() > 0 {
        text_of(items[0])
    } else {
        None
    }
}

/// A literal tag escaped by a doubled `$`.
pub open spec fn is_escaped(t: Seq<char>) -> bool {
    t.len() >= 2 && t[0] == '$' && t[1] == '$'
}

/// The tags that stand for a scalar.
pub open spec fn is_scalar_tag(t: Seq<char>) -> bool {
    t == "$BigInt"@ || t == "$Uint8Array"@ || t == "$ArrayBuffer"@
}

/// A value explicitly marked undefined, as a map value: it is dropped.
pub open spec fn undefined_envelope(m: CborModel) -> bool {
    match m {
        CborModel::Array(items) => first_tag(items) == Some("$Undefined"@),
        _ => false,
    }
}

/// Every character is an ASCII decimal digit.
pub open spec fn all_digits(s: Seq<char>) -> bool {
    forall|i: int| 0 <= i < s.len() ==> '0' <= #[trigger] s[i] <= '9'
}

/// The value of a string of decimal digits.
pub open spec fn digits_value(s: Seq<char>) -> int
    decreases s.len(),
{
    if s.len() == 0 {
        0
    } else {
        digits_value(s.drop_last()) * 10 + (s.last() as int - '0' as int)
    }
}

/// The digits of a `$BigInt` text: the text without one leading `-`.
pub open spec fn bigint_digits(raw: Seq<char>) -> Seq<char> {
    if raw.len() > 0 && raw[0] == '-' {
        raw.drop_first()
    } else {
        raw
    }
}

/// The integer a `$BigInt` text spells.
pub open spec fn bigint_value(raw: Seq<char>) -> int {
    if raw.len() > 0 && raw[0] == '-' {
        -digits_value(raw.drop_first())
    } else {
        digits_value(raw)
    }
}

/// The integers a CBOR integer value can carry without big-integer encoding.
pub open spec fn in_cbor_integer_range(n: int) -> bool {
    -0x1_0000_0000_0000_0000 <= n <= 0xffff_ffff_ffff_ffff
}

/// The bytes that standard, padded base64 decoding gives for a text, if the
/// text is valid base64.
pub uninterp spec fn base64_decoded(text: Seq<char>) -> Option<Seq<u8>>;

/// The value a binary envelope stands for, given what base64 decoding its
/// text gave: invalid base64 is refused, and so are more than 768 KiB.
pub open spec fn binary_from_decoded(tag: Seq<char>, decoded: Option<Seq<u8>>) -> Result<CborModel, Fault> {
    match decoded {
        None => Err(base64_fault(tag)),
        Some(bytes) => if bytes.len() > MAX_BINARY_BYTES {
            Err(binary_limit_fault(tag))
        } else {
            Ok(CborModel::Bytes(bytes))
        },
    }
}

/// The value a scalar envelope stands for.
pub open spec fn scalar_value(tag: Seq<char>, items: Seq<CborModel>) -> Result<CborModel, Fault> {
    if items.len() != 2 {
        Err(arity_fault(tag))
    } else {
        match text_of(items[1]) {
            None => Err(string_fault(tag)),
            Some(raw) => if tag == "$BigInt"@ {
                let digits = bigint_digits(raw);
                if byte_len(raw) > MAX_BIGINT_TEXT_BYTES || digits.len() == 0 || !all_digits(digits) {
                    Err(bigint_digits_fault())
                } else if !in_cbor_integer_range(bigint_value(raw)) {
                    Err(bigint_range_fault())
                } else {
                    Ok(CborModel::Integer(bigint_value(raw)))
                }
            } else if byte_len(raw) > MAX_BINARY_TEXT_BYTES {
                Err(binary_limit_fault(tag))
            } else {
                binary_from_decoded(tag, base64_decoded(raw))
            },
        }
    }
}

/// Visiting one value at `depth` with `rem` visits left.
pub open spec fn visit_allowed(depth: int, rem: int) -> bool {
    depth <= MAX_ACTION_INPUT_DEPTH && rem > 0
}

/// A value normalized at `depth` with `rem` visits left: the normalized value
/// or the failure, and the visits left afterwards.
pub open spec fn norm(v: CborModel, depth: int, rem: int) -> (Result<CborModel, Fault>, int)
    decreases v, 0int,
{
    if !visit_allowed(depth, rem) {
        (Err(limit_fault()), rem)
    } else {
        let rem = rem - 1;
        match v {
            CborModel::Array(items) => norm_array(items, depth, rem),
            CborModel::Object(entries) => {
                let (r, rem2) = norm_entries(entries, depth + 1, rem, entries.len() as int);
                match r {
                    Err(f) => (Err(f), rem2),
                    Ok(es) => (Ok(CborModel::Object(es)), rem2),
                }
            },
            CborModel::Tag(t, inner) => {
                let (r, rem2) = norm(*inner, depth + 1, rem);
                match r {
                    Err(f) => (Err(f), rem2),
                    Ok(m) => (Ok(CborModel::Tag(t, Box::new(m))), rem2),
                }
            },
            _ => (Ok(v), rem),
        }
    }
}

/// An array visited at `depth`, its own visit already counted: an escaped
/// tag loses one `$`, an undefined envelope becomes null, a scalar envelope
/// becomes its scalar, and any other array has its items normalized.
pub open spec fn norm_array(items: Seq<CborModel>, depth: int, rem: int) -> (Result<CborModel, Fault>, int)
    decreases items, items.len() + 1,
{
    let tag = first_tag(items);
    if items.len() == 2 && tag is Some && is_escaped(tag->0) {
        if !visit_allowed(depth + 1, rem) {
            (Err(limit_fault()), rem)
        } else {
            let head = CborModel::Text(tag->0.drop_first());
            let (tail, rem2) = norm(items[1], depth + 1, rem - 1);
            match tail {
                Err(f) => (Err(f), rem2),
                Ok(t) => (Ok(CborModel::Array(seq![head, t])), rem2),
            }
        }
    } else if tag == Some("$Undefined"@) {
        if items.len() != 2 || items[1] != CborModel::Integer(0) {
            (Err(undefined_fault()), rem)
        } else {
            (Ok(CborModel::Null), rem)
        }
    } else if tag is Some && is_scalar_tag(tag->0) {
        (scalar_value(tag->0, items), rem)
    } else {
        let (r, rem2) = norm_items(items, depth + 1, rem, items.len() as int);
        match r {
            Err(f) => (Err(f), rem2),
            Ok(ms) => (Ok(CborModel::Array(ms)), rem2),
        }
    }
}

/// The first `i` values normalized in order, stopping at the first failure.
pub open spec fn norm_items(s: Seq<CborModel>, depth: int, rem: int, i: int) -> (Result<Seq<CborModel>, Fault>, int)
    decreases s, i,
{
    if i <= 0 || i > s.len() {
        (Ok(Seq::empty()), rem)
    } else {
        let (prev, rem1) = norm_items(s, depth, rem, i - 1);
        match prev {
            Err(f) => (Err(f), rem1),
            Ok(ms) => {
                let (x, rem2) = norm(s[i - 1], depth, rem1);
                match x {
                    Err(f) => (Err(f), rem2),
                    Ok(m) => (Ok(ms.push(m)), rem2),
                }
            },
        }
    }
}

/// The first `i` entries normalized in order (key, then value), dropping the
/// entries whose value was marked undefined.
pub open spec fn norm_entries(s: Seq<(CborModel, CborModel)>, depth: int, rem: int, i: int) -> (Result<Seq<(CborModel, CborModel)>, Fault>, int)
    decreases s, i,
{
    if i <= 0 || i > s.len() {
        (Ok(Seq::empty()), rem)
    } else {
        let (prev, rem1) = norm_entries(s, depth, rem, i - 1);
        match prev {
            Err(f) => (Err(f), rem1),
            Ok(es) => {
                let e = s[i - 1];
                let (k, rem2) = norm(e.0, depth, rem1);
                match k {
                    Err(f) => (Err(f), rem2),
                    Ok(km) => {
                        let (x, rem3) = norm(e.1, depth, rem2);
                        match x {
                            Err(f) => (Err(f), rem3),
                            Ok(vm) => (Ok(if undefined_envelope(e.1) { es } else { es.push((km, vm)) }), rem3),
                        }
                    },
                }
            },
        }
    }
}

/// What a failed normalization leaves of a value at `depth` with `rem`
/// visits left. Normalization rewrites the value in place: the parts visited
/// before the failure stay normalized (an escaped tag keeps its shortened
/// head), the part that failed is left as its own failure leaves it, the rest
/// is untouched, and no map is compacted.
pub open spec fn left(v: CborModel, depth: int, rem: int) -> CborModel
    decreases v, 0int,
{
    if !visit_allowed(depth, rem) {
        v
    } else {
        let rem = rem - 1;
        match v {
            CborModel::Array(items) => left_array(items, depth, rem),
            CborModel::Object(entries) => CborModel::Object(left_entries(entries, depth + 1, rem, entries.len() as int)),
            CborModel::Tag(t, inner) => CborModel::Tag(t, Box::new(left(*inner, depth + 1, rem))),
            _ => v,
        }
    }
}

/// What a failed normalization leaves of an array visited at `depth`, its
/// own visit already counted: an envelope that fails is left as it was.
pub open spec fn left_array(items: Seq<CborModel>, depth: int, rem: int) -> CborModel
    decreases items, items.len() + 1,
{
    let tag = first_tag(items);
    if items.len() == 2 && tag is Some && is_escaped(tag->0) {
        let head = CborModel::Text(tag->0.drop_first());
        if !visit_allowed(depth + 1, rem) {
            CborModel::Array(seq![head, items[1]])
        } else {
            CborModel::Array(seq![head, left(items[1], depth + 1, rem - 1)])
        }
    } else if tag == Some("$Undefined"@) || (tag is Some && is_scalar_tag(tag->0)) {
        CborModel::Array(items)
    } else {
        CborModel::Array(left_items(items, depth + 1, rem, items.len() as int))
    }
}

/// The first `i` values as a normalization of the sequence leaves them:
/// normalized up to the one that failed, that one as its failure leaves it,
/// the later ones untouched.
pub open spec fn left_items(s: Seq<CborModel>, depth: int, rem: int, i: int) -> Seq<CborModel>
    decreases s, i,
{
    if i <= 0 || i > s.len() {
        Seq::empty()
    } else {
        let (prev, rem1) = norm_items(s, depth, rem, i - 1);
        match prev {
            Err(_) => left_items(s, depth, rem, i - 1).push(s[i - 1]),
            Ok(ms) => match norm(s[i - 1], depth, rem1).0 {
                Ok(m) => ms.push(m),
                Err(_) => ms.push(left(s[i - 1], depth, rem1)),
            },
        }
    }
}

/// The first `i` entries as a normalization of the map leaves them, in
/// place and none dropped: normalized up to the one that failed, that one
/// with its failing key or value as the failure leaves it, the later ones
/// untouched.
pub open spec fn left_entries(s: Seq<(CborModel, CborModel)>, depth: int, rem: int, i: int) -> Seq<(CborModel, CborModel)>
    decreases s, i,
{
    if i <= 0 || i > s.len() {
        Seq::empty()
    } else {
        let (prev, rem1) = norm_entries(s, depth, rem, i - 1);
        let before = left_entries(s, depth, rem, i - 1);
        let e = s[i - 1];
        match prev {
            Err(_) => before.push(e),
            Ok(_) => {
                let (k, rem2) = norm(e.0, depth, rem1);
                match k {
                    Err(_) => before.push((left(e.0, depth, rem1), e.1)),
                    Ok(km) => match norm(e.1, depth, rem2).0 {
                        Err(_) => before.push((km, left(e.1, depth, rem2))),
                        Ok(vm) => before.push((km, vm)),
                    },
                }
            },
        }
    }
}

/// The entries among the first `i` of `all` whose original value in `orig`
/// is not marked undefined, in order.
pub open spec fn kept_entries(all: Seq<(CborModel, CborModel)>, orig: Seq<(CborModel, CborModel)>, i: int) -> Seq<(CborModel, CborModel)>
    decreases i,
{
    if i <= 0 || i > all.len() || i > orig.len() {
        Seq::empty()
    } else if undefined_envelope(orig[i - 1].1) {
        kept_entries(all, orig, i - 1)
    } else {
        kept_entries(all, orig, i - 1).push(all[i - 1])
    }
}

proof fn lemma_kept_prefix(a: Seq<(CborModel, CborModel)>, b: Seq<(CborModel, CborModel)>, orig: Seq<(CborModel, CborModel)>, i: int)
    requires
        0 <= i <= a.len(),
        i <= b.len(),
        forall|j: int| 0 <= j < i ==> a[j] == b[j],
    ensures
        kept_entries(a, orig, i) == kept_entries(b, orig, i),
    decreases i,
{
    if i > 0 {
        lemma_kept_prefix(a, b, orig, i - 1);
    }
}

/// While no entry has failed, the normalized map is the kept entries of the
/// entries left in place.
proof fn lemma_norm_entries_kept(s: Seq<(CborModel, CborModel)>, depth: int, rem: int, i: int)
    requires
        0 <= i <= s.len(),
        norm_entries(s, depth, rem, i).0 is Ok,
    ensures
        left_entries(s, depth, rem, i).len() == i,
        norm_entries(s, depth, rem, i).0 == Ok::<Seq<(CborModel, CborModel)>, Fault>(kept_entries(left_entries(s, depth, rem, i), s, i)),
    decreases i,
{
    if i > 0 {
        let (prev, _) = norm_entries(s, depth, rem, i - 1);
        if prev is Err {
            lemma_norm_entries_sticks(s, depth, rem, i - 1, i);
        } else {
            lemma_norm_entries_kept(s, depth, rem, i - 1);
            let a = left_entries(s, depth, rem, i);
            let b = left_entries(s, depth, rem, i - 1);
            lemma_kept_prefix(a, b, s, i - 1);
        }
    }
}

/// A normalization step ended with this outcome and these visits left.
pub open spec fn ends_as<T>(outcome: T, rem: int, expected: (T, int)) -> bool {
    outcome == expected.0 && rem == expected.1
}

/// The mathematical outcome of a normalization step.
pub open spec fn value_outcome(r: Result<CborValue, ActorError>) -> Result<CborModel, Fault> {
    match r {
        Ok(v) => Ok(model(v)),
        Err(e) => Err(e@),
    }
}

// ---------------------------------------------------------------------------
// Normalization
// ---------------------------------------------------------------------------

/// Standard, padded base64 decoding, through the base64 crate's `STANDARD`
/// engine. Claimed: the result is `base64_decoded` of the text.
#[verifier::external_body]
fn decode_base64(text: &str) -> (r: Option<Vec<u8>>)
    ensures
        match r {
            Some(b) => base64_decoded(text@) == Some(b@),
            None => base64_decoded(text@) is None,
        },
{
    base64::engine::general_purpose::STANDARD.decode(text).ok()
}

fn limit_error() -> (e: ActorError)
    ensures
        e@ == limit_fault(),
{
    ActorError::new(ErrorCode::LimitExceeded, owned("action input exceeds nesting depth 64 or 131072 values; simplify the payload"))
}

/// The text of a value, if it is text.
fn text_ref(v: &CborValue) -> (r: Option<&String>)
    ensures
        match r {
            Some(t) => text_of(model(*v)) == Some(t@),
            None => text_of(model(*v)) is None,
        },
{
    match v {
        CborValue::Text(t) => Some(t),
        _ => None,
    }
}

/// Parses the digits of a `$BigInt`, or `None` when its value exceeds `u128`.
fn digits_to_u128(digits: &str) -> (r: Option<u128>)
    requires
        all_digits(digits@),
    ensures
        match r {
            Some(v) => v == digits_value(digits@),
            None => digits_value(digits@) > u128::MAX,
        },
{
    let n = digits.unicode_len();
    let mut acc: u128 = 0;
    let mut i: usize = 0;
    while i < n
        invariant
            n == digits@.len(),
            i <= n,
            all_digits(digits@),
            acc == digits_value(digits@.take(i as int)),
        decreases n - i,
    {
        let c = digits.get_char(i);
        assert(digits@.take(i as int + 1).drop_last() =~= digits@.take(i as int));
        assert(digits@.take(i as int + 1).last() == c);
        assert('0' <= c <= '9');
        let d = (c as u32 - '0' as u32) as u128;
        proof {
            lemma_digits_value_monotone(digits@, n as int);
            assert(digits@.take(n as int) =~= digits@);
            lemma_digits_value_nonneg(digits@.take(i as int));
            assert(digits_value(digits@.take(i as int + 1)) == acc * 10 + d);
            assert(digits_value(digits@.take(i as int + 1)) <= digits_value(digits@));
        }
        match acc.checked_mul(10) {
            None => {
                return None;
            },
            Some(t) => match t.checked_add(d) {
                None => {
                    return None;
                },
                Some(u) => {
                    acc = u;
                },
            },
        }
        i += 1;
    }
    assert(digits@.take(n as int) =~= digits@);
    Some(acc)
}

proof fn lemma_digits_value_nonneg(s: Seq<char>)
    requires
        all_digits(s),
    ensures
        digits_value(s) >= 0,
    decreases s.len(),
{
    if s.len() > 0 {
        lemma_digits_value_nonneg(s.drop_last());
    }
}

/// The value of a digit prefix never exceeds that of a longer prefix.
proof fn lemma_digits_value_monotone(s: Seq<char>, m: int)
    requires
        all_digits(s),
        0 <= m <= s.len(),
    ensures
        forall|k: int| 0 <= k <= m ==> #[trigger] digits_value(s.take(k)) <= digits_value(s.take(m)),
    decreases m,
{
    if m > 0 {
        lemma_digits_value_monotone(s, m - 1);
        assert(s.take(m).drop_last() =~= s.take(m - 1));
        lemma_digits_value_nonneg(s.take(m - 1));
        assert forall|k: int| 0 <= k <= m implies #[trigger] digits_value(s.take(k)) <= digits_value(s.take(m)) by {
            if k < m {
                assert(digits_value(s.take(k)) <= digits_value(s.take(m - 1)));
            }
        }
    }
}

/// The value a `$BigInt` envelope's text stands for.
fn bigint_scalar(raw: &str) -> (r: Result<CborValue, ActorError>)
    ensures
        value_outcome(r) == scalar_value("$BigInt"@, seq![CborModel::Text("$BigInt"@), CborModel::Text(raw@)]),
{
    proof {
        reveal_strlit("$BigInt");
    }
    let negative = raw.unicode_len() > 0 && raw.get_char(0) == '-';
    let digits = if negative { raw.substring_char(1, raw.unicode_len()) } else { raw };
    assert(digits@ == bigint_digits(raw@));
    if raw.len() > MAX_BIGINT_TEXT_BYTES || digits.unicode_len() == 0 || !all_ascii_digits(digits) {
        return Err(ActorError::new(ErrorCode::InvalidInput, owned("$BigInt must contain a decimal 64-bit integer")));
    }
    let magnitude = digits_to_u128(digits);
    proof {
        lemma_digits_value_nonneg(digits@);
    }
    let range_error = ActorError::new(ErrorCode::InvalidInput, owned("$BigInt exceeds the CBOR 64-bit integer range"));
    match magnitude {
        None => Err(range_error),
        Some(m) => {
            if negative {
                if m > 0x1_0000_0000_0000_0000u128 {
                    return Err(range_error);
                }
                let v: i128 = 0i128 - (m as i128);
                Ok(CborValue::Integer(v))
            } else {
                if m > 0xffff_ffff_ffff_ffffu128 {
                    return Err(range_error);
                }
                Ok(CborValue::Integer(m as i128))
            }
        },
    }
}

fn all_ascii_digits(s: &str) -> (b: bool)
    ensures
        b == all_digits(s@),
{
    let n = s.unicode_len();
    let mut i: usize = 0;
    while i < n
        invariant
            n == s@.len(),
            i <= n,
            forall|j: int| 0 <= j < i ==> '0' <= #[trigger] s@[j] <= '9',
        decreases n - i,
    {
        let c = s.get_char(i);
        if c < '0' || c > '9' {
            return false;
        }
        i += 1;
    }
    true
}

/// The value a `$Uint8Array` or `$ArrayBuffer` envelope's text stands for.
fn binary_scalar(tag: &str, raw: &str) -> (r: Result<CborValue, ActorError>)
    requires
        tag@ != "$BigInt"@,
    ensures
        value_outcome(r) == scalar_value(tag@, seq![CborModel::Text(tag@), CborModel::Text(raw@)]),
{
    if raw.len() > MAX_BINARY_TEXT_BYTES {
        let body = with_text(owned(tag), " exceeds the 768 KiB binary input limit; split the payload", "");
        proof {
            reveal_strlit("");
            assert(body@ =~= tag@ + " exceeds the 768 KiB binary input limit; split the payload"@);
        }
        return Err(ActorError::new(ErrorCode::LimitExceeded, body));
    }
    binary_value(tag, decode_base64(raw))
}

/// The value a binary envelope stands for, given what base64 decoding its
/// text gave.
pub fn binary_value(tag: &str, decoded: Option<Vec<u8>>) -> (r: Result<CborValue, ActorError>)
    ensures
        value_outcome(r) == binary_from_decoded(tag@, match decoded { Some(b) => Some(b@), None => None }),
{
    match decoded {
        None => {
            let body = with_text(owned("invalid "), tag, " base64");
            Err(ActorError::new(ErrorCode::InvalidInput, body))
        },
        Some(bytes) => {
            if bytes.len() > MAX_BINARY_BYTES {
                let body = with_text(owned(tag), " exceeds the 768 KiB binary input limit; split the payload", "");
                proof {
                    reveal_strlit("");
                    assert(body@ =~= tag@ + " exceeds the 768 KiB binary input limit; split the payload"@);
                }
                return Err(ActorError::new(ErrorCode::LimitExceeded, body));
            }
            Ok(CborValue::Bytes(bytes))
        },
    }
}


/// Once the first `i` items fail, the failure is the result for any longer prefix.
proof fn lemma_norm_items_sticks(s: Seq<CborModel>, depth: int, rem: int, i: int, k: int)
    requires
        0 <= i <= k <= s.len(),
        norm_items(s, depth, rem, i).0 is Err,
    ensures
        norm_items(s, depth, rem, k) == norm_items(s, depth, rem, i),
    decreases k - i,
{
    if i < k {
        lemma_norm_items_sticks(s, depth, rem, i, k - 1);
    }
}

/// Once the first `i` entries fail, the failure is the result for any longer prefix.
proof fn lemma_norm_entries_sticks(s: Seq<(CborModel, CborModel)>, depth: int, rem: int, i: int, k: int)
    requires
        0 <= i <= k <= s.len(),
        norm_entries(s, depth, rem, i).0 is Err,
    ensures
        norm_entries(s, depth, rem, k) == norm_entries(s, depth, rem, i),
    decreases k - i,
{
    if i < k {
        lemma_norm_entries_sticks(s, depth, rem, i, k - 1);
    }
}

/// The mathematical outcome of normalizing one value.
pub open spec fn node_outcome(r: Result<CborValue, (ActorError, CborValue)>) -> Result<CborModel, Fault> {
    match r {
        Ok(v) => Ok(model(v)),
        Err((e, _)) => Err(e@),
    }
}

/// The mathematical outcome of normalizing a list of values.
pub open spec fn items_outcome(r: Result<Vec<CborValue>, (ActorError, Vec<CborValue>)>) -> Result<Seq<CborModel>, Fault> {
    match r {
        Ok(v) => Ok(models(v@)),
        Err((e, _)) => Err(e@),
    }
}

/// The mathematical outcome of normalizing a list of entries.
pub open spec fn entries_outcome(r: Result<Vec<(CborValue, CborValue)>, (ActorError, Vec<(CborValue, CborValue)>)>) -> Result<Seq<(CborModel, CborModel)>, Fault> {
    match r {
        Ok(v) => Ok(entry_models(v@)),
        Err((e, _)) => Err(e@),
    }
}

/// Whether a value is marked undefined.
fn is_undefined_envelope(v: &CborValue) -> (b: bool)
    ensures
        b == undefined_envelope(model(*v)),
{
    match v {
        CborValue::Array(items) => {
            proof {
                lemma_models_upto(items@, items@.len() as int);
            }
            if items.len() > 0 {
                match text_ref(&items[0]) {
                    Some(t) => str_equals(t.as_str(), "$Undefined"),
                    None => false,
                }
            } else {
                false
            }
        },
        _ => false,
    }
}

fn is_zero_integer(v: &CborValue) -> (b: bool)
    ensures
        b == (model(*v) == CborModel::Integer(0)),
{
    match v {
        CborValue::Integer(n) => *n == 0,
        _ => false,
    }
}

fn is_escaped_tag(t: &str) -> (b: bool)
    ensures
        b == is_escaped(t@),
{
    t.unicode_len() >= 2 && t.get_char(0) == '$' && t.get_char(1) == '$'
}

/// Normalizes one value at `depth`; a failure also hands back what it left
/// of the value.
fn normalize_node(value: CborValue, depth: usize, remaining: &mut usize) -> (r: Result<CborValue, (ActorError, CborValue)>)
    ensures
        ends_as(node_outcome(r), *final(remaining) as int, norm(model(value), depth as int, *old(remaining) as int)),
        r matches Err((_, l)) ==> model(l) == left(model(value), depth as int, *old(remaining) as int),
    decreases value, 0int,
{
    if depth > MAX_ACTION_INPUT_DEPTH || *remaining == 0 {
        return Err((limit_error(), value));
    }
    *remaining = *remaining - 1;
    match value {
        CborValue::Array(items) => {
            normalize_array(items, depth, remaining)
        },
        CborValue::Object(entries) => {
            proof {
                lemma_entry_models_upto(entries@, entries@.len() as int);
            }
            match normalize_entries(entries, depth + 1, remaining) {
                Ok(es) => Ok(CborValue::Object(es)),
                Err((e, all)) => Err((e, CborValue::Object(all))),
            }
        },
        CborValue::Tag(t, inner) => {
            match normalize_node(*inner, depth + 1, remaining) {
                Ok(m) => Ok(CborValue::Tag(t, Box::new(m))),
                Err((e, l)) => Err((e, CborValue::Tag(t, Box::new(l)))),
            }
        },
        other => Ok(other),
    }
}

/// A two-item array.
fn pair_array(a: CborValue, b: CborValue) -> (r: CborValue)
    ensures
        model(r) == CborModel::Array(seq![model(a), model(b)]),
{
    let mut out: Vec<CborValue> = Vec::new();
    out.push(a);
    out.push(b);
    proof {
        lemma_models_upto(out@, 2);
        assert(models(out@) =~= seq![model(a), model(b)]);
    }
    CborValue::Array(out)
}

/// Normalizes an array visited at `depth`, its own visit already counted.
fn normalize_array(items: Vec<CborValue>, depth: usize, remaining: &mut usize) -> (r: Result<CborValue, (ActorError, CborValue)>)
    requires
        depth <= MAX_ACTION_INPUT_DEPTH,
    ensures
        ends_as(node_outcome(r), *final(remaining) as int, norm_array(models(items@), depth as int, *old(remaining) as int)),
        r matches Err((_, l)) ==> model(l) == left_array(models(items@), depth as int, *old(remaining) as int),
    decreases items, items@.len() + 2,
{
    let ghost orig = items;
    let ghost ms = models(items@);
    proof {
        lemma_models_upto(items@, items@.len() as int);
    }
    let n = items.len();
    let tag: Option<String> = if n > 0 {
        match text_ref(&items[0]) {
            Some(t) => Some(t.clone()),
            None => None,
        }
    } else {
        None
    };
    assert(first_tag(ms) == match tag { Some(t) => Some(t@), None => None::<Seq<char>> });
    let t = match tag {
        None => {
            return normalize_plain_array(items, depth, remaining);
        },
        Some(t) => t,
    };
    if n == 2 && is_escaped_tag(t.as_str()) {
        let head = String::from_str(t.as_str().substring_char(1, t.as_str().unicode_len()));
        assert(head@ =~= t@.drop_first());
        let mut items = items;
        let mut child = CborValue::Null;
        items.set_and_swap(1, &mut child);
        assert(child == orig@[1]);
        assert(decreases_to!(orig => orig[1]));
        if depth + 1 > MAX_ACTION_INPUT_DEPTH || *remaining == 0 {
            return Err((limit_error(), pair_array(CborValue::Text(head), child)));
        }
        *remaining = *remaining - 1;
        match normalize_node(child, depth + 1, remaining) {
            Err((e, l)) => Err((e, pair_array(CborValue::Text(head), l))),
            Ok(m) => Ok(pair_array(CborValue::Text(head), m)),
        }
    } else if str_equals(t.as_str(), "$Undefined") {
        if n != 2 || !is_zero_integer(&items[1]) {
            return Err((ActorError::new(ErrorCode::InvalidInput, owned("$Undefined requires the numeric sentinel 0")), CborValue::Array(items)));
        }
        Ok(CborValue::Null)
    } else if str_equals(t.as_str(), "$BigInt") || str_equals(t.as_str(), "$Uint8Array")
        || str_equals(t.as_str(), "$ArrayBuffer") {
        if n != 2 {
            let body = with_text(owned(t.as_str()), " requires exactly one string value", "");
            proof {
                reveal_strlit("");
                assert(body@ =~= t@ + " requires exactly one string value"@);
            }
            return Err((ActorError::new(ErrorCode::InvalidInput, body), CborValue::Array(items)));
        }
        let res = match text_ref(&items[1]) {
            None => {
                let body = with_text(owned(t.as_str()), " requires a string value", "");
                proof {
                    reveal_strlit("");
                    assert(body@ =~= t@ + " requires a string value"@);
                }
                Err(ActorError::new(ErrorCode::InvalidInput, body))
            },
            Some(raw) => {
                assert(ms =~= seq![CborModel::Text(t@), CborModel::Text(raw@)]);
                if str_equals(t.as_str(), "$BigInt") {
                    bigint_scalar(raw.as_str())
                } else {
                    binary_scalar(t.as_str(), raw.as_str())
                }
            },
        };
        match res {
            Ok(v) => Ok(v),
            Err(e) => Err((e, CborValue::Array(items))),
        }
    } else {
        normalize_plain_array(items, depth, remaining)
    }
}

/// An array that is no envelope: its items are normalized one level deeper.
fn normalize_plain_array(items: Vec<CborValue>, depth: usize, remaining: &mut usize) -> (r: Result<CborValue, (ActorError, CborValue)>)
    requires
        depth <= MAX_ACTION_INPUT_DEPTH,
    ensures
        ({
            let (res, rem2) = norm_items(models(items@), depth + 1, *old(remaining) as int, items@.len() as int);
            &&& *final(remaining) as int == rem2
            &&& node_outcome(r) == match res {
                Err(f) => Err(f),
                Ok(xs) => Ok(CborModel::Array(xs)),
            }
        }),
        r matches Err((_, l)) ==> model(l) == CborModel::Array(left_items(models(items@), depth + 1, *old(remaining) as int, items@.len() as int)),
    decreases items, items@.len() + 1,
{
    proof {
        lemma_models_upto(items@, items@.len() as int);
    }
    match normalize_items(items, depth + 1, remaining) {
        Ok(out) => Ok(CborValue::Array(out)),
        Err((e, l)) => Err((e, CborValue::Array(l))),
    }
}

/// Normalizes the items of an array at `depth`, in order; a failure also
/// hands back the items as it left them.
#[verifier::loop_isolation(false)]
fn normalize_items(items: Vec<CborValue>, depth: usize, remaining: &mut usize) -> (r: Result<Vec<CborValue>, (ActorError, Vec<CborValue>)>)
    ensures
        (items_outcome(r), *final(remaining) as int) == norm_items(models(items@), depth as int, *old(remaining) as int, items@.len() as int),
        r matches Err((_, l)) ==> models(l@) == left_items(models(items@), depth as int, *old(remaining) as int, items@.len() as int),
    decreases items, items@.len(),
{
    let ghost orig = items;
    let ghost ms = models(items@);
    let ghost rem0 = *old(remaining) as int;
    proof {
        lemma_models_upto(items@, items@.len() as int);
    }
    let mut items = items;
    let n = items.len();
    let mut out: Vec<CborValue> = Vec::new();
    let mut i: usize = 0;
    while i < n
        invariant
            n == orig@.len(),
            items@.len() == n,
            i <= n,
            forall|j: int| i <= j < n ==> items@[j] == orig@[j],
            ms == models(orig@),
            ms.len() == n,
            forall|j: int| 0 <= j < n ==> #[trigger] ms[j] == model(orig@[j]),
            out@.len() == i,
            (Ok::<Seq<CborModel>, Fault>(models(out@)), *remaining as int) == norm_items(ms, depth as int, rem0, i as int),
        decreases n - i,
    {
        let mut child = CborValue::Null;
        items.set_and_swap(i, &mut child);
        assert(child == orig@[i as int]);
        assert(decreases_to!(orig => orig[i as int]));
        let ghost rem1 = *remaining as int;
        match normalize_node(child, depth, remaining) {
            Err((e, l)) => {
                let ghost before = out@;
                let mut all = out;
                all.push(l);
                proof {
                    lemma_models_upto(before, before.len() as int);
                    lemma_models_upto(all@, all@.len() as int);
                    assert(models(all@) =~= models(before).push(model(l)));
                    assert(models(all@) == left_items(ms, depth as int, rem0, i as int + 1));
                    assert(norm_items(ms, depth as int, rem0, i as int + 1).0 is Err);
                }
                let mut j: usize = i + 1;
                while j < n
                    invariant
                        n == orig@.len(),
                        items@.len() == n,
                        i < j <= n,
                        forall|k: int| j <= k < n ==> items@[k] == orig@[k],
                        ms == models(orig@),
                        ms.len() == n,
                        forall|k: int| 0 <= k < n ==> #[trigger] ms[k] == model(orig@[k]),
                        all@.len() == j,
                        models(all@) == left_items(ms, depth as int, rem0, j as int),
                        norm_items(ms, depth as int, rem0, j as int).0 is Err,
                    decreases n - j,
                {
                    let mut c = CborValue::Null;
                    items.set_and_swap(j, &mut c);
                    assert(c == orig@[j as int]);
                    let ghost prev = all@;
                    all.push(c);
                    proof {
                        lemma_models_upto(prev, prev.len() as int);
                        lemma_models_upto(all@, all@.len() as int);
                        assert(models(all@) =~= models(prev).push(model(c)));
                    }
                    j += 1;
                }
                proof {
                    lemma_norm_items_sticks(ms, depth as int, rem0, i as int + 1, n as int);
                }
                return Err((e, all));
            },
            Ok(m) => {
                let ghost before = out@;
                out.push(m);
                proof {
                    lemma_models_upto(before, before.len() as int);
                    lemma_models_upto(out@, out@.len() as int);
                    assert(models(out@) =~= models(before).push(model(m)));
                }
            },
        }
        i += 1;
    }
    Ok(out)
}

/// Normalizes the entries of a map at `depth`, in order, dropping those whose
/// value is marked undefined; a failure also hands back the entries as it
/// left them, none dropped.
#[verifier::loop_isolation(false)]
#[verifier::rlimit(40)]
fn normalize_entries(entries: Vec<(CborValue, CborValue)>, depth: usize, remaining: &mut usize) -> (r: Result<Vec<(CborValue, CborValue)>, (ActorError, Vec<(CborValue, CborValue)>)>)
    ensures
        (entries_outcome(r), *final(remaining) as int) == norm_entries(entry_models(entries@), depth as int, *old(remaining) as int, entries@.len() as int),
        r matches Err((_, l)) ==> entry_models(l@) == left_entries(entry_models(entries@), depth as int, *old(remaining) as int, entries@.len() as int),
    decreases entries, entries@.len(),
{
    let ghost orig = entries;
    let ghost es = entry_models(entries@);
    let ghost rem0 = *old(remaining) as int;
    proof {
        lemma_entry_models_upto(entries@, entries@.len() as int);
    }
    let mut entries = entries;
    let n = entries.len();
    let mut all: Vec<(CborValue, CborValue)> = Vec::new();
    let mut omitted_flags: Vec<bool> = Vec::new();
    let mut i: usize = 0;
    while i < n
        invariant
            n == orig@.len(),
            entries@.len() == n,
            i <= n,
            forall|j: int| i <= j < n ==> entries@[j] == orig@[j],
            es == entry_models(orig@),
            es.len() == n,
            forall|j: int| 0 <= j < n ==> #[trigger] es[j] == (model(orig@[j].0), model(orig@[j].1)),
            all@.len() == i,
            omitted_flags@.len() == i,
            forall|j: int| 0 <= j < i ==> #[trigger] omitted_flags@[j] == undefined_envelope(es[j].1),
            entry_models(all@) == left_entries(es, depth as int, rem0, i as int),
            norm_entries(es, depth as int, rem0, i as int).0 is Ok,
            *remaining as int == norm_entries(es, depth as int, rem0, i as int).1,
        decreases n - i,
    {
        proof {
            lemma_norm_entries_kept(es, depth as int, rem0, i as int);
        }
        let mut entry = (CborValue::Null, CborValue::Null);
        entries.set_and_swap(i, &mut entry);
        assert(entry == orig@[i as int]);
        assert(decreases_to!(orig => orig[i as int]));
        assert(decreases_to!(orig[i as int] => orig[i as int].0));
        assert(decreases_to!(orig[i as int] => orig[i as int].1));
        let (key, value) = entry;
        let omitted = is_undefined_envelope(&value);
        let ghost prev = all@;
        let ghost rem1 = *remaining as int;
        proof {
            lemma_entry_models_upto(prev, prev.len() as int);
        }
        let failed: Option<ActorError>;
        match normalize_node(key, depth, remaining) {
            Err((e, lk)) => {
                all.push((lk, value));
                failed = Some(e);
            },
            Ok(km) => {
                let ghost rem2 = *remaining as int;
                match normalize_node(value, depth, remaining) {
                    Err((e, lv)) => {
                        all.push((km, lv));
                        failed = Some(e);
                    },
                    Ok(vm) => {
                        all.push((km, vm));
                        failed = None;
                    },
                }
            },
        }
        omitted_flags.push(omitted);
        proof {
            lemma_entry_models_upto(all@, all@.len() as int);
            assert(entry_models(all@) =~= entry_models(prev).push((model(all@[i as int].0), model(all@[i as int].1))));
            assert(entry_models(all@) == left_entries(es, depth as int, rem0, i as int + 1));
        }
        if let Some(e) = failed {
            proof {
                assert(norm_entries(es, depth as int, rem0, i as int + 1).0 is Err);
                assert(e@ == norm_entries(es, depth as int, rem0, i as int + 1).0->Err_0);
                assert(*remaining as int == norm_entries(es, depth as int, rem0, i as int + 1).1);
            }
            let mut j: usize = i + 1;
            while j < n
                invariant
                    n == orig@.len(),
                    entries@.len() == n,
                    i < j <= n,
                    forall|k: int| j <= k < n ==> entries@[k] == orig@[k],
                    es == entry_models(orig@),
                    es.len() == n,
                    forall|k: int| 0 <= k < n ==> #[trigger] es[k] == (model(orig@[k].0), model(orig@[k].1)),
                    all@.len() == j,
                    entry_models(all@) == left_entries(es, depth as int, rem0, j as int),
                    norm_entries(es, depth as int, rem0, j as int).0 is Err,
                decreases n - j,
            {
                let mut c = (CborValue::Null, CborValue::Null);
                entries.set_and_swap(j, &mut c);
                assert(c == orig@[j as int]);
                let ghost before = all@;
                all.push(c);
                proof {
                    lemma_entry_models_upto(before, before.len() as int);
                    lemma_entry_models_upto(all@, all@.len() as int);
                    assert(entry_models(all@) =~= entry_models(before).push((model(c.0), model(c.1))));
                }
                j += 1;
            }
            proof {
                lemma_norm_entries_sticks(es, depth as int, rem0, i as int + 1, n as int);
            }
            return Err((e, all));
        }
        i += 1;
    }
    proof {
        lemma_norm_entries_kept(es, depth as int, rem0, n as int);
        lemma_entry_models_upto(all@, n as int);
    }
    let ghost fin = entry_models(all@);
    let mut out: Vec<(CborValue, CborValue)> = Vec::new();
    let mut k: usize = 0;
    while k < n
        invariant
            n == es.len(),
            all@.len() == n,
            fin.len() == n,
            omitted_flags@.len() == n,
            forall|j: int| 0 <= j < n ==> #[trigger] omitted_flags@[j] == undefined_envelope(es[j].1),
            k <= n,
            forall|j: int| k <= j < n ==> (model(#[trigger] all@[j].0), model(all@[j].1)) == fin[j],
            entry_models(out@) == kept_entries(fin, es, k as int),
        decreases n - k,
    {
        let mut p = (CborValue::Null, CborValue::Null);
        all.set_and_swap(k, &mut p);
        if !omitted_flags[k] {
            let ghost before = out@;
            out.push(p);
            proof {
                lemma_entry_models_upto(before, before.len() as int);
                lemma_entry_models_upto(out@, out@.len() as int);
                assert(entry_models(out@) =~= entry_models(before).push(fin[k as int]));
            }
        }
        k += 1;
    }
    Ok(out)
}

/// Rewrites the client's scalar tags in `value` at `depth`, in place, counting
/// each visited value against `remaining_nodes`. On success the value is the
/// normalized value; on failure it is what the failure left of it (see
/// `left`). Either way `remaining_nodes` ends with the visits left when
/// normalization stopped.
pub fn normalize_client_tags(value: &mut CborValue, depth: usize, remaining_nodes: &mut usize) -> (r: Result<(), ActorError>)
    ensures
        *final(remaining_nodes) as int == norm(model(*old(value)), depth as int, *old(remaining_nodes) as int).1,
        match norm(model(*old(value)), depth as int, *old(remaining_nodes) as int).0 {
            Ok(m) => r is Ok && model(*final(value)) == m,
            Err(f) => r matches Err(e) && e@ == f
                && model(*final(value)) == left(model(*old(value)), depth as int, *old(remaining_nodes) as int),
        },
{
    let mut taken = CborValue::Null;
    std::mem::swap(value, &mut taken);
    match normalize_node(taken, depth, remaining_nodes) {
        Ok(v) => {
            *value = v;
            Ok(())
        },
        Err((e, l)) => {
            *value = l;
            Err(e)
        },
    }
}


// ---------------------------------------------------------------------------
// Reviving undefined envelopes
// ---------------------------------------------------------------------------

/// A two-element array whose first element is the text `$Undefined`.
pub open spec fn undefined_pair(items: Seq<CborModel>) -> bool {
    items.len() == 2 && text_of(items[0]) == Some("$Undefined"@)
}

/// A value that is an undefined envelope.
pub open spec fn is_undefined_pair(m: CborModel) -> bool {
    match m {
        CborModel::Array(items) => undefined_pair(items),
        _ => false,
    }
}

/// `["$Undefined", _]` envelopes revived as JavaScript sees them: in a
/// position they become null, as an object field they are dropped; keys are
/// left as they are.
pub open spec fn revive(v: CborModel) -> CborModel
    decreases v, 0int,
{
    match v {
        CborModel::Array(items) => if undefined_pair(items) {
            CborModel::Null
        } else {
            CborModel::Array(revive_items(items, items.len() as int))
        },
        CborModel::Object(entries) => CborModel::Object(revive_entries(entries, entries.len() as int)),
        CborModel::Tag(t, inner) => CborModel::Tag(t, Box::new(revive(*inner))),
        _ => v,
    }
}

/// The first `i` items revived.
pub open spec fn revive_items(s: Seq<CborModel>, i: int) -> Seq<CborModel>
    decreases s, i,
{
    if i <= 0 || i > s.len() {
        Seq::empty()
    } else {
        revive_items(s, i - 1).push(revive(s[i - 1]))
    }
}

/// The first `i` entries with undefined values dropped and the others' values revived.
pub open spec fn revive_entries(s: Seq<(CborModel, CborModel)>, i: int) -> Seq<(CborModel, CborModel)>
    decreases s, i,
{
    if i <= 0 || i > s.len() {
        Seq::empty()
    } else if is_undefined_pair(s[i - 1].1) {
        revive_entries(s, i - 1)
    } else {
        revive_entries(s, i - 1).push((s[i - 1].0, revive(s[i - 1].1)))
    }
}

fn is_undefined_pair_value(v: &CborValue) -> (b: bool)
    ensures
        b == is_undefined_pair(model(*v)),
{
    match v {
        CborValue::Array(items) => {
            proof {
                lemma_models_upto(items@, items@.len() as int);
            }
            if items.len() == 2 {
                match text_ref(&items[0]) {
                    Some(t) => str_equals(t.as_str(), "$Undefined"),
                    None => false,
                }
            } else {
                false
            }
        },
        _ => false,
    }
}

/// Revives the client's `["$Undefined", 0]` envelopes: positional and array
/// occurrences become null and object fields explicitly marked undefined are
/// dropped, so that defaults apply to them.
pub fn revive_undefined_envelopes(value: CborValue) -> (r: CborValue)
    ensures
        model(r) == revive(model(value)),
    decreases value, 0int,
{
    if is_undefined_pair_value(&value) {
        return CborValue::Null;
    }
    match value {
        CborValue::Array(items) => {
            proof {
                lemma_models_upto(items@, items@.len() as int);
            }
            CborValue::Array(revive_all_items(items))
        },
        CborValue::Object(entries) => {
            proof {
                lemma_entry_models_upto(entries@, entries@.len() as int);
            }
            CborValue::Object(revive_all_entries(entries))
        },
        CborValue::Tag(t, inner) => CborValue::Tag(t, Box::new(revive_undefined_envelopes(*inner))),
        other => other,
    }
}

#[verifier::loop_isolation(false)]
fn revive_all_items(items: Vec<CborValue>) -> (r: Vec<CborValue>)
    ensures
        models(r@) == revive_items(models(items@), items@.len() as int),
    decreases items, items@.len(),
{
    let ghost orig = items;
    let ghost ms = models(items@);
    proof {
        lemma_models_upto(items@, items@.len() as int);
    }
    let mut items = items;
    let n = items.len();
    let mut out: Vec<CborValue> = Vec::new();
    let mut i: usize = 0;
    while i < n
        invariant
            n == orig@.len(),
            items@.len() == n,
            i <= n,
            forall|j: int| i <= j < n ==> items@[j] == orig@[j],
            models(out@) == revive_items(ms, i as int),
        decreases n - i,
    {
        let mut child = CborValue::Null;
        items.set_and_swap(i, &mut child);
        assert(child == orig@[i as int]);
        assert(decreases_to!(orig => orig[i as int]));
        let m = revive_undefined_envelopes(child);
        let ghost before = out@;
        out.push(m);
        proof {
            lemma_models_upto(before, before.len() as int);
            lemma_models_upto(out@, out@.len() as int);
            assert(models(out@) =~= models(before).push(model(m)));
        }
        i += 1;
    }
    out
}

#[verifier::loop_isolation(false)]
fn revive_all_entries(entries: Vec<(CborValue, CborValue)>) -> (r: Vec<(CborValue, CborValue)>)
    ensures
        entry_models(r@) == revive_entries(entry_models(entries@), entries@.len() as int),
    decreases entries, entries@.len(),
{
    let ghost orig = entries;
    let ghost es = entry_models(entries@);
    proof {
        lemma_entry_models_upto(entries@, entries@.len() as int);
    }
    let mut entries = entries;
    let n = entries.len();
    let mut out: Vec<(CborValue, CborValue)> = Vec::new();
    let mut i: usize = 0;
    while i < n
        invariant
            n == orig@.len(),
            entries@.len() == n,
            i <= n,
            forall|j: int| i <= j < n ==> entries@[j] == orig@[j],
            entry_models(out@) == revive_entries(es, i as int),
        decreases n - i,
    {
        let mut entry = (CborValue::Null, CborValue::Null);
        entries.set_and_swap(i, &mut entry);
        assert(entry == orig@[i as int]);
        assert(decreases_to!(orig => orig[i as int]));
        assert(decreases_to!(orig[i as int] => orig[i as int].1));
        let (key, value) = entry;
        if !is_undefined_pair_value(&value) {
            let m = revive_undefined_envelopes(value);
            let ghost before = out@;
            out.push((key, m));
            proof {
                lemma_entry_models_upto(before, before.len() as int);
                lemma_entry_models_upto(out@, out@.len() as int);
                assert(entry_models(out@) =~= entry_models(before).push((model(key), model(m))));
            }
        }
        i += 1;
    }
    out
}


// ---------------------------------------------------------------------------
// Bounds of an action's input and output
// ---------------------------------------------------------------------------

/// The encoded input of an action fits the actor message limit.
pub open spec fn check_input_size(len: nat, limit: nat) -> Outcome {
    if len > limit {
        Err(fault(ErrorCode::LimitExceeded, "encoded action input exceeds the "@ + decimal(limit) + "-byte actor message limit"@))
    } else {
        Ok(())
    }
}

/// Rejects an encoded action input larger than the actor message limit.
pub fn check_action_input_size(len: usize, message_size_limit: usize) -> (r: Result<(), ActorError>)
    ensures
        outcome(r) == check_input_size(len as nat, message_size_limit as nat),
{
    if len > message_size_limit {
        let body = with_number(owned("encoded action input exceeds the "), message_size_limit, "-byte actor message limit");
        return Err(ActorError::new(ErrorCode::LimitExceeded, body));
    }
    Ok(())
}

/// Whether an input of `len` bytes is within a fifth of the message limit,
/// which is worth a warning.
pub fn action_input_near_limit(len: usize, message_size_limit: usize) -> (b: bool)
    ensures
        b == (len >= (if message_size_limit * 4 > usize::MAX { usize::MAX as int } else { message_size_limit * 4 }) / 5),
{
    let scaled = match message_size_limit.checked_mul(4) {
        Some(x) => x,
        None => usize::MAX,
    };
    len >= scaled / 5
}

/// Normalizes a decoded action input from the top level with the full visit
/// budget; on success also gives the visits left.
pub fn normalize_action_value(value: CborValue) -> (r: Result<(CborValue, usize), ActorError>)
    ensures
        match norm(model(value), 0, MAX_ACTION_INPUT_NODES as int).0 {
            Ok(m) => r matches Ok((v, left)) && model(v) == m
                && left as int == norm(model(value), 0, MAX_ACTION_INPUT_NODES as int).1,
            Err(f) => r matches Err(e) && e@ == f,
        },
{
    let mut v = value;
    let mut remaining = MAX_ACTION_INPUT_NODES;
    match normalize_client_tags(&mut v, 0, &mut remaining) {
        Ok(()) => Ok((v, remaining)),
        Err(e) => Err(e),
    }
}

/// Whether the visits left after normalization are within a fifth of the
/// budget, which is worth a warning.
pub fn action_values_near_limit(remaining: usize) -> (b: bool)
    ensures
        b == (remaining <= MAX_ACTION_INPUT_NODES / 5),
{
    remaining <= MAX_ACTION_INPUT_NODES / 5
}

/// The largest encoded action output that leaves room for the reply envelope.
pub fn output_size_limit(message_size_limit: usize) -> (n: usize)
    ensures
        n == if message_size_limit >= ACTION_ENVELOPE_RESERVE_BYTES { message_size_limit - ACTION_ENVELOPE_RESERVE_BYTES } else { 0 },
{
    message_size_limit.saturating_sub(ACTION_ENVELOPE_RESERVE_BYTES)
}

/// An output buffer that refuses to grow past its limit and remembers that it
/// had to.
pub struct BoundedActionOutput {
    pub bytes: Vec<u8>,
    pub limit: usize,
    pub exceeded: bool,
}

impl BoundedActionOutput {
    /// An empty buffer with the given limit.
    pub fn new(limit: usize) -> (o: BoundedActionOutput)
        ensures
            o.bytes@ == Seq::<u8>::empty(),
            o.limit == limit,
            !o.exceeded,
    {
        BoundedActionOutput { bytes: Vec::new(), limit, exceeded: false }
    }

    /// Appends `chunk` when the buffer stays within its limit; otherwise marks
    /// the buffer as exceeded and appends nothing.
    pub fn write_chunk(&mut self, chunk: &[u8]) -> (r: Result<usize, ()>)
        ensures
            final(self).limit == old(self).limit,
            old(self).bytes@.len() + chunk@.len() > old(self).limit ==> {
                &&& r is Err
                &&& final(self).exceeded
                &&& final(self).bytes@ == old(self).bytes@
            },
            old(self).bytes@.len() + chunk@.len() <= old(self).limit ==> {
                &&& r == Ok::<usize, ()>(chunk@.len() as usize)
                &&& final(self).exceeded == old(self).exceeded
                &&& final(self).bytes@ == old(self).bytes@ + chunk@
            },
    {
        let fits = match self.bytes.len().checked_add(chunk.len()) {
            Some(total) => total <= self.limit,
            None => false,
        };
        if !fits {
            self.exceeded = true;
            return Err(());
        }
        let mut i: usize = 0;
        let ghost start = self.bytes@;
        while i < chunk.len()
            invariant
                i <= chunk@.len(),
                self.bytes@ == start + chunk@.subrange(0, i as int),
                self.limit == old(self).limit,
                self.exceeded == old(self).exceeded,
                start == old(self).bytes@,
            decreases chunk@.len() - i,
        {
            self.bytes.push(chunk[i]);
            assert(chunk@.subrange(0, i as int + 1) =~= chunk@.subrange(0, i as int).push(chunk@[i as int]));
            i += 1;
        }
        assert(chunk@.subrange(0, chunk@.len() as int) =~= chunk@);
        Ok(chunk.len())
    }
}

/// The failure of an encoded response that outgrew the output limit.
pub open spec fn check_output_capacity(exceeded: bool, output_limit: nat, message_limit: nat) -> Outcome {
    if exceeded {
        Err(fault(ErrorCode::LimitExceeded, "encoded action response exceeds "@ + decimal(output_limit)
            + " bytes; reduce the requested batch or maxBytes to fit the "@ + decimal(message_limit)
            + "-byte actor message limit"@))
    } else {
        Ok(())
    }
}

/// Rejects an encoded response that outgrew the output limit.
pub fn require_output_capacity(output: &BoundedActionOutput, output_size_limit: usize, message_size_limit: usize) -> (r: Result<(), ActorError>)
    ensures
        outcome(r) == check_output_capacity(output.exceeded, output_size_limit as nat, message_size_limit as nat),
{
    if output.exceeded {
        let head = with_number(owned("encoded action response exceeds "), output_size_limit, " bytes; reduce the requested batch or maxBytes to fit the ");
        let body = with_number(head, message_size_limit, "-byte actor message limit");
        return Err(ActorError::new(ErrorCode::LimitExceeded, body));
    }
    Ok(())
}


// ---------------------------------------------------------------------------
// Decoding bytes
// ---------------------------------------------------------------------------

/// The CBOR value type of the ciborium crate.
#[verifier::external_type_specification]
#[verifier::external_body]
pub struct ExCiboriumValue(ciborium::Value);

/// The value that decoding `bytes` as one CBOR item gives, if they are one.
pub uninterp spec fn cbor_decoded(bytes: Seq<u8>) -> Option<CborModel>;

/// Converts a ciborium value into the library's value, variant for variant;
/// floats keep their bit pattern.
#[verifier::external_body]
fn from_ciborium(v: ciborium::Value) -> CborValue {
    match v {
        Value::Integer(n) => CborValue::Integer(i128::from(n)),
        Value::Bytes(b) => CborValue::Bytes(b),
        Value::Float(x) => CborValue::Float(x.to_bits()),
        Value::Text(t) => CborValue::Text(t),
        Value::Bool(b) => CborValue::Bool(b),
        Value::Tag(t, inner) => CborValue::Tag(t, Box::new(from_ciborium(*inner))),
        Value::Array(items) => CborValue::Array(items.into_iter().map(from_ciborium).collect()),
        Value::Map(entries) => CborValue::Object(entries.into_iter().map(|(k, x)| (from_ciborium(k), from_ciborium(x))).collect()),
        _ => CborValue::Null,
    }
}

/// Decodes one CBOR item from `bytes` with `ciborium::from_reader`. Claimed:
/// the result is `cbor_decoded` of the bytes.
#[verifier::external_body]
pub fn parse_cbor(bytes: &[u8]) -> (r: Option<CborValue>)
    ensures
        match r {
            Some(v) => cbor_decoded(bytes@) == Some(model(v)),
            None => cbor_decoded(bytes@) is None,
        },
{
    ciborium::from_reader::<ciborium::Value, _>(bytes).ok().map(from_ciborium)
}

} // verus!
