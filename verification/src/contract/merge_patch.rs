//! JSON merge patches (RFC 7386) over a JSON document, and the removals a
//! patch requests.
use vstd::prelude::*;

use crate::error::{fault, outcome, ActorError, ErrorCode, Outcome};
use crate::text::{chars_of, contains_text, matches_at, occurs_in, owned};

verus! {

/// A JSON value. A number is carried as its JSON text; object entries keep
/// their order.
#[derive(Debug, PartialEq, Eq)]
pub enum JsonValue {
    Null,
    Bool(bool),
    Number(String),
    Text(String),
    Array(Vec<JsonValue>),
    Object(Vec<(String, JsonValue)>),
}

/// The mathematical content of a JSON value.
pub enum JsonModel {
    Null,
    Bool(bool),
    Number(Seq<char>),
    Text(Seq<char>),
    Array(Seq<JsonModel>),
    Object(Seq<(Seq<char>, JsonModel)>),
}

/// The mathematical content of a JSON value.
pub open spec fn json_model(v: JsonValue) -> JsonModel
    decreases v, 0int,
{
    match v {
        JsonValue::Null => JsonModel::Null,
        JsonValue::Bool(b) => JsonModel::Bool(b),
        JsonValue::Number(n) => JsonModel::Number(n@),
        JsonValue::Text(t) => JsonModel::Text(t@),
        JsonValue::Array(items) => JsonModel::Array(json_models_upto(items@, items@.len() as int)),
        JsonValue::Object(entries) => JsonModel::Object(json_entries_upto(entries@, entries@.len() as int)),
    }
}

/// The models of the first `i` values.
pub open spec fn json_models_upto(s: Seq<JsonValue>, i: int) -> Seq<JsonModel>
    decreases s, i,
{
    if i <= 0 || i > s.len() {
        Seq::empty()
    } else {
        json_models_upto(s, i - 1).push(json_model(s[i - 1]))
    }
}

/// The models of the first `i` object entries.
pub open spec fn json_entries_upto(s: Seq<(String, JsonValue)>, i: int) -> Seq<(Seq<char>, JsonModel)>
    decreases s, i,
{
    if i <= 0 || i > s.len() {
        Seq::empty()
    } else {
        json_entries_upto(s, i - 1).push((s[i - 1].0@, json_model(s[i - 1].1)))
    }
}

/// The models of a sequence of object entries.
pub open spec fn json_entries(s: Seq<(String, JsonValue)>) -> Seq<(Seq<char>, JsonModel)> {
    json_entries_upto(s, s.len() as int)
}

proof fn lemma_json_entries_upto(s: Seq<(String, JsonValue)>, i: int)
    requires
        0 <= i <= s.len(),
    ensures
        json_entries_upto(s, i).len() == i,
        forall|j: int| 0 <= j < i ==> #[trigger] json_entries_upto(s, i)[j] == (s[j].0@, json_model(s[j].1)),
    decreases i,
{
    if i > 0 {
        lemma_json_entries_upto(s, i - 1);
    }
}

/// The index of the first entry with key `k`, searching from `i`.
pub open spec fn find_key(t: Seq<(Seq<char>, JsonModel)>, k: Seq<char>, i: int) -> Option<int>
    decreases t.len() - i,
{
    if i < 0 || i >= t.len() {
        None
    } else if t[i].0 == k {
        Some(i)
    } else {
        find_key(t, k, i + 1)
    }
}

/// The first `n` entries without those whose key is `k`.
pub open spec fn drop_key(t: Seq<(Seq<char>, JsonModel)>, k: Seq<char>, n: int) -> Seq<(Seq<char>, JsonModel)>
    decreases n,
{
    if n <= 0 || n > t.len() {
        Seq::empty()
    } else if t[n - 1].0 == k {
        drop_key(t, k, n - 1)
    } else {
        drop_key(t, k, n - 1).push(t[n - 1])
    }
}

/// The entries of an object; any other value has none.
pub open spec fn entries_of(m: JsonModel) -> Seq<(Seq<char>, JsonModel)> {
    match m {
        JsonModel::Object(e) => e,
        _ => Seq::empty(),
    }
}

/// RFC 7386: a patch that is not an object replaces the target; an object
/// patch is applied member by member to the target's members (a target that
/// is not an object counts as an empty object).
pub open spec fn merge_json(target: JsonModel, patch: JsonModel) -> JsonModel
    decreases patch, 0int,
{
    match patch {
        JsonModel::Object(pe) => JsonModel::Object(merge_json_entries(entries_of(target), pe, pe.len() as int)),
        _ => patch,
    }
}

/// The members `t` after the first `n` patch members, in order: a null
/// member removes the key; any other member merges into the key's current
/// value (null when absent), in place or appended.
pub open spec fn merge_json_entries(t: Seq<(Seq<char>, JsonModel)>, pe: Seq<(Seq<char>, JsonModel)>, n: int) -> Seq<(Seq<char>, JsonModel)>
    decreases pe, n,
{
    if n <= 0 || n > pe.len() {
        t
    } else {
        let acc = merge_json_entries(t, pe, n - 1);
        let k = pe[n - 1].0;
        let v = pe[n - 1].1;
        if v is Null {
            drop_key(acc, k, acc.len() as int)
        } else {
            match find_key(acc, k, 0) {
                Some(i) => acc.update(i, (k, merge_json(acc[i].1, v))),
                None => acc.push((k, merge_json(JsonModel::Null, v))),
            }
        }
    }
}

proof fn lemma_find_key_bounds(t: Seq<(Seq<char>, JsonModel)>, k: Seq<char>, i: int)
    requires
        0 <= i,
    ensures
        find_key(t, k, i) matches Some(j) ==> i <= j < t.len() && t[j].0 == k,
        find_key(t, k, i) is None ==> forall|j: int| i <= j < t.len() ==> #[trigger] t[j].0 != k,
    decreases t.len() - i,
{
    if i < t.len() && t[i].0 != k {
        lemma_find_key_bounds(t, k, i + 1);
    }
}

/// The index of the first entry with key `key`.
fn find_entry(entries: &Vec<(String, JsonValue)>, key: &String) -> (r: Option<usize>)
    ensures
        match r {
            Some(i) => find_key(json_entries(entries@), key@, 0) == Some(i as int),
            None => find_key(json_entries(entries@), key@, 0) is None,
        },
{
    let ghost t = json_entries(entries@);
    proof {
        lemma_json_entries_upto(entries@, entries@.len() as int);
    }
    let n = entries.len();
    let mut i: usize = 0;
    while i < n
        invariant
            n == entries@.len(),
            t == json_entries(entries@),
            t.len() == n,
            forall|j: int| 0 <= j < n ==> #[trigger] t[j] == (entries@[j].0@, json_model(entries@[j].1)),
            i <= n,
            find_key(t, key@, 0) == find_key(t, key@, i as int),
        decreases n - i,
    {
        if entries[i].0 == *key {
            return Some(i);
        }
        i += 1;
    }
    None
}

/// The entries without those whose key is `key`, in order.
fn drop_entries(entries: Vec<(String, JsonValue)>, key: &String) -> (r: Vec<(String, JsonValue)>)
    ensures
        json_entries(r@) == drop_key(json_entries(entries@), key@, entries@.len() as int),
{
    let ghost orig = entries@;
    let ghost t = json_entries(orig);
    proof {
        lemma_json_entries_upto(orig, orig.len() as int);
    }
    let n = entries.len();
    let mut pending = entries;
    let mut kept: Vec<(String, JsonValue)> = Vec::new();
    let mut i: usize = 0;
    while i < n
        invariant
            n == orig.len(),
            t == json_entries(orig),
            t.len() == n,
            forall|j: int| 0 <= j < n ==> #[trigger] t[j] == (orig[j].0@, json_model(orig[j].1)),
            i <= n,
            pending@.len() == n - i,
            forall|j: int| 0 <= j < n - i ==> #[trigger] pending@[j] == orig[i + j],
            json_entries(kept@) == drop_key(t, key@, i as int),
        decreases n - i,
    {
        assert(pending@[0] == orig[i as int + 0]);
        let entry = pending.remove(0);
        if entry.0 != *key {
            let ghost before = kept@;
            kept.push(entry);
            proof {
                lemma_json_entries_upto(before, before.len() as int);
                lemma_json_entries_upto(kept@, kept@.len() as int);
                assert(json_entries(kept@) =~= json_entries(before).push(t[i as int]));
            }
        }
        i += 1;
    }
    kept
}

/// Applies a JSON merge patch to a target document (RFC 7386).
pub fn merge_patch(target: JsonValue, patch: JsonValue) -> (r: JsonValue)
    ensures
        json_model(r) == merge_json(json_model(target), json_model(patch)),
    decreases patch, 0int,
{
    match patch {
        JsonValue::Object(patch_entries) => {
            let target_entries = match target {
                JsonValue::Object(e) => e,
                _ => Vec::new(),
            };
            proof {
                lemma_json_entries_upto(target_entries@, target_entries@.len() as int);
                lemma_json_entries_upto(patch_entries@, patch_entries@.len() as int);
                assert(json_entries(target_entries@) =~= entries_of(json_model(target)));
            }
            let merged = merge_members(target_entries, patch_entries);
            JsonValue::Object(merged)
        },
        other => other,
    }
}

/// Applies the members of an object patch, in order, to a target's members.
#[verifier::loop_isolation(false)]
fn merge_members(target: Vec<(String, JsonValue)>, patch: Vec<(String, JsonValue)>) -> (r: Vec<(String, JsonValue)>)
    ensures
        json_entries(r@) == merge_json_entries(json_entries(target@), json_entries(patch@), patch@.len() as int),
    decreases patch, patch@.len(),
{
    let ghost orig = patch;
    let ghost t0 = json_entries(target@);
    let ghost pe = json_entries(patch@);
    proof {
        lemma_json_entries_upto(patch@, patch@.len() as int);
    }
    let mut pending = patch;
    let mut acc = target;
    let n = pending.len();
    let mut i: usize = 0;
    while i < n
        invariant
            n == orig@.len(),
            pending@.len() == n,
            i <= n,
            forall|j: int| i <= j < n ==> pending@[j] == orig@[j],
            pe == json_entries(orig@),
            pe.len() == n,
            forall|j: int| 0 <= j < n ==> #[trigger] pe[j] == (orig@[j].0@, json_model(orig@[j].1)),
            json_entries(acc@) == merge_json_entries(t0, pe, i as int),
        decreases n - i,
    {
        let mut entry = (String::new(), JsonValue::Null);
        pending.set_and_swap(i, &mut entry);
        assert(entry == orig@[i as int]);
        assert(decreases_to!(orig => orig[i as int]));
        assert(decreases_to!(orig[i as int] => orig[i as int].1));
        let (key, value) = entry;
        let ghost k = key@;
        let ghost v = json_model(value);
        let ghost before = json_entries(acc@);
        assert(merge_json_entries(t0, pe, i as int + 1) == {
            let acc0 = merge_json_entries(t0, pe, i as int);
            if v is Null {
                drop_key(acc0, k, acc0.len() as int)
            } else {
                match find_key(acc0, k, 0) {
                    Some(j) => acc0.update(j, (k, merge_json(acc0[j].1, v))),
                    None => acc0.push((k, merge_json(JsonModel::Null, v))),
                }
            }
        });
        proof {
            lemma_json_entries_upto(acc@, acc@.len() as int);
        }
        match value {
            JsonValue::Null => {
                let len = acc.len();
                assert(before.len() == len);
                acc = drop_entries(acc, &key);
            },
            value => {
                match find_entry(&acc, &key) {
                    Some(j) => {
                        proof {
                            lemma_find_key_bounds(before, k, 0);
                        }
                        let mut slot = (String::new(), JsonValue::Null);
                        acc.set_and_swap(j, &mut slot);
                        let (slot_key, current) = slot;
                        assert(json_model(current) == before[j as int].1);
                        let merged = merge_patch(current, value);
                        let mut replacement = (slot_key, merged);
                        acc.set_and_swap(j, &mut replacement);
                        proof {
                            lemma_json_entries_upto(acc@, acc@.len() as int);
                            assert(json_entries(acc@) =~= before.update(j as int, (k, merge_json(before[j as int].1, v))));
                        }
                    },
                    None => {
                        let merged = merge_patch(JsonValue::Null, value);
                        acc.push((key, merged));
                        proof {
                            lemma_json_entries_upto(acc@, acc@.len() as int);
                            assert(json_entries(acc@) =~= before.push((k, merge_json(JsonModel::Null, v))));
                        }
                    },
                }
            },
        }
        i += 1;
    }
    acc
}

/// A config patch must be a JSON object.
pub open spec fn check_object_patch(patch: JsonModel) -> Outcome {
    if patch is Object {
        Ok(())
    } else {
        Err(fault(ErrorCode::InvalidInput, "config.patch patch must be a JSON object"@))
    }
}

/// Refuses a config patch that is not a JSON object.
pub fn require_object_patch(patch: &JsonValue) -> (r: Result<(), ActorError>)
    ensures
        outcome(r) == check_object_patch(json_model(*patch)),
{
    match patch {
        JsonValue::Object(_) => Ok(()),
        _ => Err(ActorError::new(ErrorCode::InvalidInput, owned("config.patch patch must be a JSON object"))),
    }
}

/// The paths, under `prefix`, of the members a patch removes: each null
/// member of an object, depth first, in member order.
pub open spec fn removal_paths(v: JsonModel, prefix: Seq<Seq<char>>) -> Seq<Seq<Seq<char>>>
    decreases v, 0int,
{
    match v {
        JsonModel::Object(es) => entry_removals(es, prefix, es.len() as int),
        _ => Seq::empty(),
    }
}

/// The removal paths of the first `n` members, under `prefix`.
pub open spec fn entry_removals(es: Seq<(Seq<char>, JsonModel)>, prefix: Seq<Seq<char>>, n: int) -> Seq<Seq<Seq<char>>>
    decreases es, n,
{
    if n <= 0 || n > es.len() {
        Seq::empty()
    } else {
        let path = prefix.push(es[n - 1].0);
        entry_removals(es, prefix, n - 1) + if es[n - 1].1 is Null {
            seq![path]
        } else {
            removal_paths(es[n - 1].1, path)
        }
    }
}

/// The contents of a list of keys.
pub open spec fn strings_view(s: Seq<String>) -> Seq<Seq<char>> {
    Seq::new(s.len(), |i: int| s[i]@)
}

/// The contents of a list of paths.
pub open spec fn paths_view(s: Seq<Vec<String>>) -> Seq<Seq<Seq<char>>> {
    Seq::new(s.len(), |i: int| strings_view(s[i]@))
}

fn copy_path(path: &Vec<String>) -> (r: Vec<String>)
    ensures
        strings_view(r@) == strings_view(path@),
{
    let n = path.len();
    let mut r: Vec<String> = Vec::new();
    let mut i: usize = 0;
    while i < n
        invariant
            n == path@.len(),
            i <= n,
            r@.len() == i,
            forall|j: int| 0 <= j < i ==> #[trigger] r@[j]@ == path@[j]@,
        decreases n - i,
    {
        r.push(path[i].clone());
        i += 1;
    }
    assert(strings_view(r@) =~= strings_view(path@));
    r
}

/// Appends to `out` the paths, under `path`, of the members `value` removes
/// as a patch; `path` is restored before returning.
pub fn collect_removals(value: &JsonValue, path: &mut Vec<String>, out: &mut Vec<Vec<String>>)
    ensures
        strings_view(final(path)@) == strings_view(old(path)@),
        paths_view(final(out)@) == paths_view(old(out)@) + removal_paths(json_model(*value), strings_view(old(path)@)),
    decreases value, 0int,
{
    let ghost prefix = strings_view(path@);
    let ghost out0 = paths_view(out@);
    match value {
        JsonValue::Object(entries) => {
            let ghost es = json_entries(entries@);
            proof {
                lemma_json_entries_upto(entries@, entries@.len() as int);
            }
            let n = entries.len();
            let mut i: usize = 0;
            while i < n
                invariant
                    n == entries@.len(),
                    es == json_entries(entries@),
                    es.len() == n,
                    forall|j: int| 0 <= j < n ==> #[trigger] es[j] == (entries@[j].0@, json_model(entries@[j].1)),
                    *value == JsonValue::Object(*entries),
                    i <= n,
                    strings_view(path@) == prefix,
                    paths_view(out@) == out0 + entry_removals(es, prefix, i as int),
                decreases n - i,
            {
                let (key, child) = &entries[i];
                let ghost before_path = path@;
                path.push(key.clone());
                assert(strings_view(path@) =~= prefix.push(es[i as int].0));
                let ghost before_out = paths_view(out@);
                match child {
                    JsonValue::Null => {
                        let copy = copy_path(path);
                        out.push(copy);
                        assert(paths_view(out@) =~= before_out.push(prefix.push(es[i as int].0)));
                    },
                    _ => {
                        proof {
                            let v0 = *value;
                            assert(v0->Object_0 == *entries);
                            assert(decreases_to!(v0 => v0->Object_0));
                            assert(decreases_to!(v0->Object_0 => v0->Object_0[i as int]));
                            assert(decreases_to!(v0->Object_0[i as int] => v0->Object_0[i as int].1));
                        }
                        collect_removals(child, path, out);
                    },
                }
                let ghost pre_pop = path@;
                assert(strings_view(pre_pop) == prefix.push(es[i as int].0));
                path.pop();
                assert(path@ == pre_pop.drop_last());
                assert forall|j: int| 0 <= j < prefix.len() implies #[trigger] strings_view(path@)[j] == prefix[j] by {
                    assert(strings_view(pre_pop)[j] == pre_pop[j]@);
                }
                assert(strings_view(path@) =~= prefix);
                assert(paths_view(out@) =~= out0 + entry_removals(es, prefix, i as int + 1));
                i += 1;
            }
        },
        _ => {
            assert(paths_view(out@) =~= out0 + removal_paths(json_model(*value), prefix));
        },
    }
}

/// The value of the first member named `k`, if there is one.
pub open spec fn member(t: Seq<(Seq<char>, JsonModel)>, k: Seq<char>) -> Option<JsonModel> {
    match find_key(t, k, 0) {
        Some(i) => Some(t[i].1),
        None => None,
    }
}

/// The value of the member named `k`, null when absent.
pub open spec fn member_or_null(t: Seq<(Seq<char>, JsonModel)>, k: Seq<char>) -> JsonModel {
    match member(t, k) {
        Some(v) => v,
        None => JsonModel::Null,
    }
}

/// No two members share a name.
pub open spec fn distinct_members(pe: Seq<(Seq<char>, JsonModel)>) -> bool {
    forall|a: int, b: int| 0 <= a < b < pe.len() ==> #[trigger] pe[a].0 != #[trigger] pe[b].0
}

proof fn lemma_find_key_push(t: Seq<(Seq<char>, JsonModel)>, e: (Seq<char>, JsonModel), k: Seq<char>, s: int)
    requires
        0 <= s <= t.len(),
    ensures
        find_key(t.push(e), k, s) == if find_key(t, k, s) is Some {
            find_key(t, k, s)
        } else if e.0 == k {
            Some(t.len() as int)
        } else {
            None::<int>
        },
    decreases t.len() - s,
{
    if s < t.len() {
        assert(t.push(e)[s] == t[s]);
        if t[s].0 != k {
            lemma_find_key_push(t, e, k, s + 1);
        }
    } else {
        assert(t.push(e)[s] == e);
        assert(find_key(t.push(e), k, s + 1) is None);
    }
}

proof fn lemma_member_push(t: Seq<(Seq<char>, JsonModel)>, e: (Seq<char>, JsonModel), k: Seq<char>)
    ensures
        member(t.push(e), k) == if member(t, k) is Some {
            member(t, k)
        } else if e.0 == k {
            Some(e.1)
        } else {
            None::<JsonModel>
        },
{
    lemma_find_key_push(t, e, k, 0);
    lemma_find_key_bounds(t, k, 0);
    if let Some(i) = find_key(t, k, 0) {
        assert(t.push(e)[i] == t[i]);
    } else if e.0 == k {
        assert(t.push(e)[t.len() as int] == e);
    }
}

proof fn lemma_find_key_same_keys(t: Seq<(Seq<char>, JsonModel)>, u: Seq<(Seq<char>, JsonModel)>, k: Seq<char>, s: int)
    requires
        0 <= s,
        t.len() == u.len(),
        forall|j: int| 0 <= j < t.len() ==> #[trigger] t[j].0 == u[j].0,
    ensures
        find_key(t, k, s) == find_key(u, k, s),
    decreases t.len() - s,
{
    if s < t.len() {
        lemma_find_key_same_keys(t, u, k, s + 1);
    }
}

proof fn lemma_member_update(t: Seq<(Seq<char>, JsonModel)>, i: int, k: Seq<char>, x: JsonModel, k2: Seq<char>)
    requires
        find_key(t, k, 0) == Some(i),
    ensures
        member(t.update(i, (k, x)), k2) == if k2 == k { Some(x) } else { member(t, k2) },
{
    lemma_find_key_bounds(t, k, 0);
    let u = t.update(i, (k, x));
    lemma_find_key_same_keys(t, u, k2, 0);
    lemma_find_key_bounds(t, k2, 0);
}

proof fn lemma_member_drop(t: Seq<(Seq<char>, JsonModel)>, k: Seq<char>, n: int, k2: Seq<char>)
    requires
        0 <= n <= t.len(),
    ensures
        member(drop_key(t, k, n), k2) == if k2 == k { None::<JsonModel> } else { member(t.take(n), k2) },
    decreases n,
{
    if n == 0 {
        assert(t.take(0) =~= Seq::<(Seq<char>, JsonModel)>::empty());
        assert(find_key(drop_key(t, k, 0), k2, 0) is None);
        assert(find_key(t.take(0), k2, 0) is None);
    } else {
        lemma_member_drop(t, k, n - 1, k2);
        assert(t.take(n) =~= t.take(n - 1).push(t[n - 1]));
        lemma_member_push(t.take(n - 1), t[n - 1], k2);
        if t[n - 1].0 != k {
            lemma_member_push(drop_key(t, k, n - 1), t[n - 1], k2);
        }
    }
}

/// The member `k` after one patch member `(k, v)` of a merge step, and any
/// other member, which the step leaves alone.
proof fn lemma_merge_step(acc: Seq<(Seq<char>, JsonModel)>, k: Seq<char>, v: JsonModel, k2: Seq<char>)
    ensures
        ({
            let next = if v is Null {
                drop_key(acc, k, acc.len() as int)
            } else {
                match find_key(acc, k, 0) {
                    Some(i) => acc.update(i, (k, merge_json(acc[i].1, v))),
                    None => acc.push((k, merge_json(JsonModel::Null, v))),
                }
            };
            &&& k2 != k ==> member(next, k2) == member(acc, k2)
            &&& k2 == k ==> member(next, k2) == if v is Null {
                None::<JsonModel>
            } else {
                Some(merge_json(member_or_null(acc, k), v))
            }
        }),
{
    if v is Null {
        lemma_member_drop(acc, k, acc.len() as int, k2);
        assert(acc.take(acc.len() as int) =~= acc);
    } else {
        match find_key(acc, k, 0) {
            Some(i) => {
                lemma_member_update(acc, i, k, merge_json(acc[i].1, v), k2);
            },
            None => {
                lemma_member_push(acc, (k, merge_json(JsonModel::Null, v)), k2);
            },
        }
    }
}

proof fn lemma_merge_members_upto(t: Seq<(Seq<char>, JsonModel)>, pe: Seq<(Seq<char>, JsonModel)>, n: int)
    requires
        0 <= n <= pe.len(),
        distinct_members(pe),
    ensures
        forall|k: Seq<char>| (forall|j: int| 0 <= j < n ==> #[trigger] pe[j].0 != k)
            ==> #[trigger] member(merge_json_entries(t, pe, n), k) == member(t, k),
        forall|j: int| 0 <= j < n ==> #[trigger] member(merge_json_entries(t, pe, n), pe[j].0) == if pe[j].1 is Null {
            None::<JsonModel>
        } else {
            Some(merge_json(member_or_null(t, pe[j].0), pe[j].1))
        },
    decreases n,
{
    if n > 0 {
        lemma_merge_members_upto(t, pe, n - 1);
        let acc = merge_json_entries(t, pe, n - 1);
        let k = pe[n - 1].0;
        let v = pe[n - 1].1;
        assert forall|k2: Seq<char>| (forall|j: int| 0 <= j < n ==> #[trigger] pe[j].0 != k2)
            implies #[trigger] member(merge_json_entries(t, pe, n), k2) == member(t, k2) by {
            lemma_merge_step(acc, k, v, k2);
            assert(pe[n - 1].0 != k2);
        }
        assert forall|j: int| 0 <= j < n implies #[trigger] member(merge_json_entries(t, pe, n), pe[j].0) == if pe[j].1 is Null {
            None::<JsonModel>
        } else {
            Some(merge_json(member_or_null(t, pe[j].0), pe[j].1))
        } by {
            lemma_merge_step(acc, k, v, pe[j].0);
            if j == n - 1 {
                assert(forall|i: int| 0 <= i < n - 1 ==> #[trigger] pe[i].0 != k);
                assert(member(acc, k) == member(t, k));
            } else {
                assert(pe[j].0 != pe[n - 1].0);
            }
        }
    }
}

/// RFC 7386 on an object patch whose members have distinct names: a member
/// the patch does not name keeps its value, a member the patch sets to null
/// is removed, and any other member the patch names becomes the patch's
/// value merged into the member's previous value (null when absent).
pub proof fn lemma_merge_patch_members(target: JsonModel, pe: Seq<(Seq<char>, JsonModel)>)
    requires
        distinct_members(pe),
    ensures
        forall|k: Seq<char>| (forall|j: int| 0 <= j < pe.len() ==> #[trigger] pe[j].0 != k)
            ==> #[trigger] member(entries_of(merge_json(target, JsonModel::Object(pe))), k) == member(entries_of(target), k),
        forall|j: int| 0 <= j < pe.len() && (#[trigger] pe[j]).1 is Null
            ==> member(entries_of(merge_json(target, JsonModel::Object(pe))), pe[j].0) is None,
        forall|j: int| 0 <= j < pe.len() && !((#[trigger] pe[j]).1 is Null)
            ==> member(entries_of(merge_json(target, JsonModel::Object(pe))), pe[j].0)
                == Some(merge_json(member_or_null(entries_of(target), pe[j].0), pe[j].1)),
{
    lemma_merge_members_upto(entries_of(target), pe, pe.len() as int);
}

/// A patch that is not an object replaces the document.
pub proof fn lemma_non_object_patch_replaces(target: JsonModel, patch: JsonModel)
    requires
        !(patch is Object),
    ensures
        merge_json(target, patch) == patch,
{
}

/// Whether a typed decoding failure, probed with one removal set to null,
/// refuses that removal: the message names an unknown field, or no variant
/// of an untagged enum matched.
pub open spec fn refuses_removal(message: Seq<char>) -> bool {
    ||| (message.len() >= "unknown field "@.len() && message.subrange(0, "unknown field "@.len() as int) == "unknown field "@)
    ||| occurs_in(message, "did not match any variant of untagged enum"@)
}

/// Whether a probe's decoding failure refuses the removal it probed.
pub fn removal_refused(message: &str) -> (b: bool)
    ensures
        b == refuses_removal(message@),
{
    let v = chars_of(message);
    matches_at(&v, 0, "unknown field ") || contains_text(message, "did not match any variant of untagged enum")
}

} // verus!
