//! The exported actor contract and its content hash. The hash covers the
//! public part of the contract, written as compact JSON in a fixed field
//! order, so that any change to a public action, event or type changes it.
use vstd::prelude::*;
use sha2::Digest;
use vstd::string::StringSliceAdditionalSpecFns;

use crate::text::{appended, decimal, hex_text, is_lower_hex, lemma_hex_text, owned, u64_text};

verus! {

/// A TypeScript type, as a value flows into and out of the actor.
#[derive(Debug, Clone, PartialEq, Eq)]
pub struct TypeScriptShape {
    pub input: String,
    pub output: String,
}

/// One action of the contract; only public actions enter the hash.
#[derive(Debug, Clone, PartialEq, Eq)]
pub struct ActionContract {
    pub name: &'static str,
    pub public: bool,
    pub input: String,
    pub output: String,
}

/// One event of the contract and its payload type.
#[derive(Debug, Clone, PartialEq, Eq)]
pub struct EventContract {
    pub name: &'static str,
    pub payload: String,
}

/// One named TypeScript declaration the contract refers to.
#[derive(Debug, Clone, PartialEq, Eq)]
pub struct TypeContract {
    pub name: String,
    pub declaration: String,
}

/// What identifies an actor's contract beyond its actions, events and types.
#[derive(Debug, Clone)]
pub struct ContractMetadata {
    pub schema_version: u32,
    pub api_version: &'static str,
    pub contract_major: u32,
    pub capabilities: Vec<&'static str>,
    pub actor_name: &'static str,
}

/// The exported contract.
#[derive(Debug, Clone)]
pub struct ActorContract {
    pub schema_version: u32,
    pub api_version: &'static str,
    pub contract_major: u32,
    pub contract_hash: String,
    pub capabilities: Vec<&'static str>,
    pub actor_name: &'static str,
    pub create_input: TypeScriptShape,
    pub actions: Vec<ActionContract>,
    pub events: Vec<EventContract>,
    pub types: Vec<TypeContract>,
    pub error: TypeScriptShape,
}

// ---------------------------------------------------------------------------
// Outside calls
// ---------------------------------------------------------------------------

/// The JSON string literal `serde_json` writes for a text: quoted, with its
/// escapes.
pub uninterp spec fn json_string(text: Seq<char>) -> Seq<char>;

/// The SHA-256 digest of some bytes.
pub uninterp spec fn sha256_digest(bytes: Seq<u8>) -> Seq<u8>;

/// Writes a text as a JSON string literal with `serde_json::to_string`.
/// Claimed: the result is `json_string` of the text (serialising a `str`
/// cannot fail).
#[verifier::external_body]
fn json_quote(text: &str) -> (r: String)
    ensures
        r@ == json_string(text@),
{
    serde_json::to_string(text).unwrap_or_default()
}

/// Hashes bytes with `sha2::Sha256::digest`. Claimed: the result is
/// `sha256_digest` of the bytes, 32 bytes long.
#[verifier::external_body]
fn sha256(bytes: &[u8]) -> (r: Vec<u8>)
    ensures
        r@ == sha256_digest(bytes@),
        r@.len() == 32,
{
    sha2::Sha256::digest(bytes).to_vec()
}

/// Writes bytes as lower-case hexadecimal with `hex::encode`. Claimed: two
/// lower-case digits per byte, in order.
#[verifier::external_body]
fn hex_encode(bytes: &[u8]) -> (r: String)
    ensures
        r@ == hex_text(bytes@),
{
    hex::encode(bytes)
}

// ---------------------------------------------------------------------------
// The canonical text
// ---------------------------------------------------------------------------

/// `"key":` followed by a value.
pub open spec fn member(key: Seq<char>, value: Seq<char>) -> Seq<char> {
    json_string(key) + ":"@ + value
}

/// A JSON boolean.
pub open spec fn json_bool(b: bool) -> Seq<char> {
    if b { "true"@ } else { "false"@ }
}

/// Items joined by commas.
pub open spec fn joined(items: Seq<Seq<char>>) -> Seq<char>
    decreases items.len(),
{
    if items.len() == 0 {
        Seq::empty()
    } else if items.len() == 1 {
        items[0]
    } else {
        joined(items.drop_last()) + ","@ + items.last()
    }
}

pub open spec fn shape_json(s: TypeScriptShape) -> Seq<char> {
    "{"@ + member("input"@, json_string(s.input@)) + ","@ + member("output"@, json_string(s.output@)) + "}"@
}

pub open spec fn action_json(a: ActionContract) -> Seq<char> {
    "{"@ + member("name"@, json_string(a.name@)) + ","@ + member("public"@, json_bool(a.public)) + ","@
        + member("input"@, json_string(a.input@)) + ","@ + member("output"@, json_string(a.output@)) + "}"@
}

pub open spec fn event_json(e: EventContract) -> Seq<char> {
    "{"@ + member("name"@, json_string(e.name@)) + ","@ + member("payload"@, json_string(e.payload@)) + "}"@
}

pub open spec fn type_json(t: TypeContract) -> Seq<char> {
    "{"@ + member("name"@, json_string(t.name@)) + ","@ + member("declaration"@, json_string(t.declaration@)) + "}"@
}

/// The public actions, in order.
pub open spec fn public_actions(actions: Seq<ActionContract>) -> Seq<ActionContract>
    decreases actions.len(),
{
    if actions.len() == 0 {
        actions
    } else if actions.last().public {
        public_actions(actions.drop_last()).push(actions.last())
    } else {
        public_actions(actions.drop_last())
    }
}

pub open spec fn capabilities_json(caps: Seq<&'static str>) -> Seq<char> {
    "["@ + joined(Seq::new(caps.len(), |i: int| json_string(caps[i]@))) + "]"@
}

pub open spec fn actions_json(actions: Seq<ActionContract>) -> Seq<char> {
    "["@ + joined(Seq::new(actions.len(), |i: int| action_json(actions[i]))) + "]"@
}

pub open spec fn events_json(events: Seq<EventContract>) -> Seq<char> {
    "["@ + joined(Seq::new(events.len(), |i: int| event_json(events[i]))) + "]"@
}

pub open spec fn types_json(types: Seq<TypeContract>) -> Seq<char> {
    "["@ + joined(Seq::new(types.len(), |i: int| type_json(types[i]))) + "]"@
}

/// The compact JSON of the public contract, field by field in the order the
/// contract declares them.
pub open spec fn public_contract_json(m: ContractMetadata, create_input: TypeScriptShape, actions: Seq<ActionContract>,
    events: Seq<EventContract>, types: Seq<TypeContract>, error: TypeScriptShape) -> Seq<char> {
    "{"@ + member("apiVersion"@, json_string(m.api_version@)) + ","@
        + member("contractMajor"@, decimal(m.contract_major as nat)) + ","@
        + member("capabilities"@, capabilities_json(m.capabilities@)) + ","@
        + member("actorName"@, json_string(m.actor_name@)) + ","@
        + member("createInput"@, shape_json(create_input)) + ","@
        + member("actions"@, actions_json(public_actions(actions))) + ","@
        + member("events"@, events_json(events)) + ","@
        + member("types"@, types_json(types)) + ","@
        + member("error"@, shape_json(error)) + "}"@
}

/// The contract hash: `sha256:` and the hex SHA-256 of the public contract's
/// UTF-8 JSON.
pub open spec fn contract_hash_of(m: ContractMetadata, create_input: TypeScriptShape, actions: Seq<ActionContract>,
    events: Seq<EventContract>, types: Seq<TypeContract>, error: TypeScriptShape) -> Seq<char> {
    "sha256:"@ + hex_text(sha256_digest(vstd::utf8::encode_utf8(public_contract_json(m, create_input, actions, events, types, error))))
}

fn push_member(out: &mut String, key: &str, value: &str)
    ensures
        final(out)@ == old(out)@ + member(key@, value@),
{
    let k = json_quote(key);
    out.append(k.as_str());
    out.append(":");
    out.append(value);
    proof {
        reveal_strlit(":");
    }
    assert(final(out)@ =~= old(out)@ + member(key@, value@));
}

fn shape_text(s: &TypeScriptShape) -> (r: String)
    ensures
        r@ == shape_json(*s),
{
    let mut out = owned("{");
    push_member(&mut out, "input", json_quote(s.input.as_str()).as_str());
    out.append(",");
    push_member(&mut out, "output", json_quote(s.output.as_str()).as_str());
    out.append("}");
    assert(out@ =~= shape_json(*s));
    out
}

/// Joins the texts with commas, inside brackets.
fn bracketed(items: &Vec<String>) -> (r: String)
    ensures
        r@ == "["@ + joined(Seq::new(items@.len(), |i: int| items@[i]@)) + "]"@,
{
    let ghost views = Seq::new(items@.len(), |i: int| items@[i]@);
    let mut body = String::new();
    let n = items.len();
    let mut i: usize = 0;
    while i < n
        invariant
            n == items@.len(),
            i <= n,
            views == Seq::new(items@.len(), |i: int| items@[i]@),
            body@ == joined(views.take(i as int)),
        decreases n - i,
    {
        if i > 0 {
            body.append(",");
        }
        body.append(items[i].as_str());
        proof {
            reveal_strlit(",");
            let t = views.take(i as int + 1);
            assert(t.drop_last() =~= views.take(i as int));
            assert(t.last() == items@[i as int]@);
            if i == 0 {
                assert(views.take(0) =~= Seq::<Seq<char>>::empty());
                assert(body@ =~= joined(t));
            } else {
                assert(body@ =~= joined(t));
            }
        }
        i += 1;
    }
    assert(views.take(n as int) =~= views);
    let mut out = owned("[");
    out.append(body.as_str());
    out.append("]");
    out
}

/// The public actions, in order.
fn public_only(actions: &Vec<ActionContract>) -> (r: Vec<ActionContract>)
    ensures
        r@ == public_actions(actions@),
{
    let mut out: Vec<ActionContract> = Vec::new();
    let n = actions.len();
    let mut i: usize = 0;
    while i < n
        invariant
            n == actions@.len(),
            i <= n,
            out@ == public_actions(actions@.take(i as int)),
        decreases n - i,
    {
        let a = &actions[i];
        proof {
            assert(actions@.take(i as int + 1).drop_last() =~= actions@.take(i as int));
        }
        if a.public {
            out.push(ActionContract { name: a.name, public: a.public, input: a.input.clone(), output: a.output.clone() });
        }
        i += 1;
    }
    assert(actions@.take(n as int) =~= actions@);
    out
}

/// The compact JSON of the public contract.
pub fn public_contract_text(metadata: &ContractMetadata, create_input: &TypeScriptShape, actions: &Vec<ActionContract>,
    events: &Vec<EventContract>, types: &Vec<TypeContract>, error: &TypeScriptShape) -> (r: String)
    ensures
        r@ == public_contract_json(*metadata, *create_input, actions@, events@, types@, *error),
{
    let mut caps: Vec<String> = Vec::new();
    let mut i: usize = 0;
    while i < metadata.capabilities.len()
        invariant
            i <= metadata.capabilities@.len(),
            caps@.len() == i,
            forall|j: int| 0 <= j < i ==> (#[trigger] caps@[j])@ == json_string(metadata.capabilities@[j]@),
        decreases metadata.capabilities@.len() - i,
    {
        caps.push(json_quote(metadata.capabilities[i]));
        i += 1;
    }
    let caps_text = bracketed(&caps);
    assert(Seq::new(caps@.len(), |i: int| caps@[i]@) =~= Seq::new(metadata.capabilities@.len(), |i: int| json_string(metadata.capabilities@[i]@)));

    let public = public_only(actions);
    let mut action_texts: Vec<String> = Vec::new();
    let mut i: usize = 0;
    while i < public.len()
        invariant
            i <= public@.len(),
            action_texts@.len() == i,
            forall|j: int| 0 <= j < i ==> (#[trigger] action_texts@[j])@ == action_json(public@[j]),
        decreases public@.len() - i,
    {
        let a = &public[i];
        let mut t = owned("{");
        push_member(&mut t, "name", json_quote(a.name).as_str());
        t.append(",");
        push_member(&mut t, "public", if a.public { "true" } else { "false" });
        t.append(",");
        push_member(&mut t, "input", json_quote(a.input.as_str()).as_str());
        t.append(",");
        push_member(&mut t, "output", json_quote(a.output.as_str()).as_str());
        t.append("}");
        assert(t@ =~= action_json(*a));
        action_texts.push(t);
        i += 1;
    }
    let actions_text = bracketed(&action_texts);
    assert(Seq::new(action_texts@.len(), |i: int| action_texts@[i]@) =~= Seq::new(public@.len(), |i: int| action_json(public@[i])));

    let mut event_texts: Vec<String> = Vec::new();
    let mut i: usize = 0;
    while i < events.len()
        invariant
            i <= events@.len(),
            event_texts@.len() == i,
            forall|j: int| 0 <= j < i ==> (#[trigger] event_texts@[j])@ == event_json(events@[j]),
        decreases events@.len() - i,
    {
        let e = &events[i];
        let mut t = owned("{");
        push_member(&mut t, "name", json_quote(e.name).as_str());
        t.append(",");
        push_member(&mut t, "payload", json_quote(e.payload.as_str()).as_str());
        t.append("}");
        assert(t@ =~= event_json(*e));
        event_texts.push(t);
        i += 1;
    }
    let events_text = bracketed(&event_texts);
    assert(Seq::new(event_texts@.len(), |i: int| event_texts@[i]@) =~= Seq::new(events@.len(), |i: int| event_json(events@[i])));

    let mut type_texts: Vec<String> = Vec::new();
    let mut i: usize = 0;
    while i < types.len()
        invariant
            i <= types@.len(),
            type_texts@.len() == i,
            forall|j: int| 0 <= j < i ==> (#[trigger] type_texts@[j])@ == type_json(types@[j]),
        decreases types@.len() - i,
    {
        let ty = &types[i];
        let mut t = owned("{");
        push_member(&mut t, "name", json_quote(ty.name.as_str()).as_str());
        t.append(",");
        push_member(&mut t, "declaration", json_quote(ty.declaration.as_str()).as_str());
        t.append("}");
        assert(t@ =~= type_json(*ty));
        type_texts.push(t);
        i += 1;
    }
    let types_text = bracketed(&type_texts);
    assert(Seq::new(type_texts@.len(), |i: int| type_texts@[i]@) =~= Seq::new(types@.len(), |i: int| type_json(types@[i])));

    let mut out = owned("{");
    push_member(&mut out, "apiVersion", json_quote(metadata.api_version).as_str());
    out.append(",");
    push_member(&mut out, "contractMajor", u64_text(metadata.contract_major as u64).as_str());
    out.append(",");
    push_member(&mut out, "capabilities", caps_text.as_str());
    out.append(",");
    push_member(&mut out, "actorName", json_quote(metadata.actor_name).as_str());
    out.append(",");
    push_member(&mut out, "createInput", shape_text(create_input).as_str());
    out.append(",");
    push_member(&mut out, "actions", actions_text.as_str());
    out.append(",");
    push_member(&mut out, "events", events_text.as_str());
    out.append(",");
    push_member(&mut out, "types", types_text.as_str());
    out.append(",");
    push_member(&mut out, "error", shape_text(error).as_str());
    out.append("}");
    assert(out@ =~= public_contract_json(*metadata, *create_input, actions@, events@, types@, *error));
    out
}

/// The contract hash covers the public contract only: metadata that agrees in
/// everything but the schema version, and action lists that hold the same
/// public actions in the same order, hash alike.
pub proof fn lemma_hash_covers_the_public_contract(
    m1: ContractMetadata,
    m2: ContractMetadata,
    create_input: TypeScriptShape,
    actions1: Seq<ActionContract>,
    actions2: Seq<ActionContract>,
    events: Seq<EventContract>,
    types: Seq<TypeContract>,
    error: TypeScriptShape,
)
    requires
        m1.api_version@ == m2.api_version@,
        m1.contract_major == m2.contract_major,
        m1.capabilities@ == m2.capabilities@,
        m1.actor_name@ == m2.actor_name@,
        public_actions(actions1) == public_actions(actions2),
    ensures
        contract_hash_of(m1, create_input, actions1, events, types, error)
            == contract_hash_of(m2, create_input, actions2, events, types, error),
{
    assert(public_contract_json(m1, create_input, actions1, events, types, error)
        == public_contract_json(m2, create_input, actions2, events, types, error));
}

/// A contract hash's shape: `sha256:` and 64 lower-case hexadecimal digits.
pub open spec fn hash_shaped(h: Seq<char>) -> bool {
    &&& h.len() == 71
    &&& h.take(7) == "sha256:"@
    &&& forall|i: int| 7 <= i < h.len() ==> is_lower_hex(#[trigger] h[i])
}

/// The content hash of the public contract.
pub fn contract_hash(metadata: &ContractMetadata, create_input: &TypeScriptShape, actions: &Vec<ActionContract>,
    events: &Vec<EventContract>, types: &Vec<TypeContract>, error: &TypeScriptShape) -> (r: String)
    ensures
        r@ == contract_hash_of(*metadata, *create_input, actions@, events@, types@, *error),
        hash_shaped(r@),
{
    let canonical = public_contract_text(metadata, create_input, actions, events, types, error);
    let digest = sha256(canonical.as_str().as_bytes());
    let hex = hex_encode(digest.as_slice());
    let r = appended(owned("sha256:"), hex.as_str());
    proof {
        reveal_strlit("sha256:");
        lemma_hex_text(digest@);
        assert(r@.take(7) =~= "sha256:"@);
        assert forall|i: int| 7 <= i < r@.len() implies is_lower_hex(#[trigger] r@[i]) by {
            assert(r@[i] == hex@[i - 7]);
        }
    }
    r
}

/// The exported contract, with its content hash.
pub fn build(metadata: ContractMetadata, create_input: TypeScriptShape, actions: Vec<ActionContract>,
    events: Vec<EventContract>, types: Vec<TypeContract>, error: TypeScriptShape) -> (c: ActorContract)
    ensures
        c.contract_hash@ == contract_hash_of(metadata, create_input, actions@, events@, types@, error),
        hash_shaped(c.contract_hash@),
        c.schema_version == metadata.schema_version,
        c.api_version == metadata.api_version,
        c.contract_major == metadata.contract_major,
        c.capabilities@ == metadata.capabilities@,
        c.actor_name == metadata.actor_name,
        c.create_input == create_input,
        c.actions@ == actions@,
        c.events@ == events@,
        c.types@ == types@,
        c.error == error,
{
    let contract_hash = contract_hash(&metadata, &create_input, &actions, &events, &types, &error);
    ActorContract {
        schema_version: metadata.schema_version,
        api_version: metadata.api_version,
        contract_major: metadata.contract_major,
        contract_hash,
        capabilities: metadata.capabilities,
        actor_name: metadata.actor_name,
        create_input,
        actions,
        events,
        types,
        error,
    }
}


// ---------------------------------------------------------------------------
// Collected type declarations
// ---------------------------------------------------------------------------

/// Lexicographic order of texts by character, as `String`'s `Ord` orders them.
pub open spec fn text_less(a: Seq<char>, b: Seq<char>) -> bool
    decreases a.len(),
{
    if a.len() == 0 {
        b.len() > 0
    } else if b.len() == 0 {
        false
    } else if a[0] != b[0] {
        a[0] < b[0]
    } else {
        text_less(a.drop_first(), b.drop_first())
    }
}

pub proof fn lemma_text_less_irreflexive(a: Seq<char>)
    ensures
        !text_less(a, a),
    decreases a.len(),
{
    if a.len() > 0 {
        lemma_text_less_irreflexive(a.drop_first());
    }
}

pub proof fn lemma_text_less_total(a: Seq<char>, b: Seq<char>)
    ensures
        a == b || text_less(a, b) || text_less(b, a),
    decreases a.len(),
{
    if a.len() > 0 && b.len() > 0 && a[0] == b[0] {
        lemma_text_less_total(a.drop_first(), b.drop_first());
        if a.drop_first() == b.drop_first() {
            assert(a =~= seq![a[0]] + a.drop_first());
            assert(b =~= seq![b[0]] + b.drop_first());
        }
    } else if a.len() == 0 && b.len() == 0 {
        assert(a =~= b);
    }
}

pub proof fn lemma_text_less_transitive(a: Seq<char>, b: Seq<char>, c: Seq<char>)
    requires
        text_less(a, b),
        text_less(b, c),
    ensures
        text_less(a, c),
    decreases a.len(),
{
    if a.len() > 0 && b.len() > 0 && c.len() > 0 && a[0] == b[0] && b[0] == c[0] {
        lemma_text_less_transitive(a.drop_first(), b.drop_first(), c.drop_first());
    }
}

/// Texts in strictly increasing order.
pub open spec fn strictly_sorted(s: Seq<(Seq<char>, Seq<char>)>) -> bool {
    forall|i: int, j: int| 0 <= i < j < s.len() ==> text_less(#[trigger] s[i].0, #[trigger] s[j].0)
}

/// The views of collected declarations.
pub open spec fn declaration_views(s: Seq<TypeContract>) -> Seq<(Seq<char>, Seq<char>)> {
    Seq::new(s.len(), |i: int| (s[i].name@, s[i].declaration@))
}

/// Named TypeScript declarations collected from the contract's types, kept
/// sorted by name, each name once.
pub struct TypeCollector {
    declarations: Vec<TypeContract>,
}

/// `entry` placed before the first declaration whose name does not come
/// before its name.
pub open spec fn insert_sorted(s: Seq<(Seq<char>, Seq<char>)>, entry: (Seq<char>, Seq<char>)) -> Seq<(Seq<char>, Seq<char>)>
    decreases s.len(),
{
    if s.len() == 0 {
        seq![entry]
    } else if text_less(s[0].0, entry.0) {
        seq![s[0]] + insert_sorted(s.drop_first(), entry)
    } else {
        seq![entry] + s
    }
}

/// The declarations after recording `name`: a new name joins in order, a
/// known name must come with the same declaration.
pub open spec fn recorded(s: Seq<(Seq<char>, Seq<char>)>, name: Seq<char>, declaration: Seq<char>) -> Option<Seq<(Seq<char>, Seq<char>)>>
    decreases s.len(),
{
    if s.len() == 0 {
        Some(seq![(name, declaration)])
    } else if s[0].0 == name {
        if s[0].1 == declaration { Some(s) } else { None }
    } else if text_less(s[0].0, name) {
        match recorded(s.drop_first(), name, declaration) {
            Some(t) => Some(seq![s[0]] + t),
            None => None,
        }
    } else {
        Some(seq![(name, declaration)] + s)
    }
}

proof fn lemma_recorded_at(s: Seq<(Seq<char>, Seq<char>)>, name: Seq<char>, declaration: Seq<char>, p: int)
    requires
        0 <= p <= s.len(),
        forall|j: int| 0 <= j < p ==> text_less(#[trigger] s[j].0, name),
        p < s.len() ==> !text_less(s[p].0, name),
    ensures
        p < s.len() && s[p].0 == name ==> recorded(s, name, declaration) == (if s[p].1 == declaration { Some(s) } else { None::<Seq<(Seq<char>, Seq<char>)>> }),
        !(p < s.len() && s[p].0 == name) ==> recorded(s, name, declaration) == Some(s.insert(p, (name, declaration))),
    decreases p,
{
    if p > 0 {
        let t = s.drop_first();
        assert forall|j: int| 0 <= j < p - 1 implies text_less(#[trigger] t[j].0, name) by {
            assert(t[j] == s[j + 1]);
        }
        lemma_recorded_at(t, name, declaration, p - 1);
        lemma_text_less_irreflexive(name);
        assert(s[0].0 != name);
        if p < s.len() && s[p].0 == name {
            assert(t[p - 1] == s[p]);
            if s[p].1 == declaration {
                assert(seq![s[0]] + t =~= s);
            }
        } else {
            assert(seq![s[0]] + t.insert(p - 1, (name, declaration)) =~= s.insert(p, (name, declaration)));
        }
    } else {
        if s.len() > 0 && s[0].0 != name {
            assert(seq![(name, declaration)] + s =~= s.insert(0, (name, declaration)));
        } else if s.len() == 0 {
            assert(seq![(name, declaration)] =~= s.insert(0, (name, declaration)));
        }
    }
}

impl TypeCollector {
    /// The declarations, sorted by name.
    pub closed spec fn entries(&self) -> Seq<(Seq<char>, Seq<char>)> {
        declaration_views(self.declarations@)
    }

    #[verifier::type_invariant]
    closed spec fn sorted(&self) -> bool {
        strictly_sorted(declaration_views(self.declarations@))
    }

    /// An empty collector.
    pub fn new() -> (c: Self)
        ensures
            c.entries() == Seq::<(Seq<char>, Seq<char>)>::empty(),
    {
        let c = TypeCollector { declarations: Vec::new() };
        assert(declaration_views(c.declarations@) =~= Seq::<(Seq<char>, Seq<char>)>::empty());
        c
    }

    /// Records a named declaration. A name seen before must come with the same
    /// declaration: two types exporting one name differently is an error, and
    /// the collector is left unchanged.
    pub fn record(&mut self, name: &str, declaration: &str) -> (r: Result<(), String>)
        ensures
            match recorded(old(self).entries(), name@, declaration@) {
                Some(s) => r is Ok && final(self).entries() == s,
                None => r is Err && final(self).entries() == old(self).entries(),
            },
            strictly_sorted(final(self).entries()),
    {
        proof {
            use_type_invariant(&*self);
        }
        let ghost s = declaration_views(self.declarations@);
        let n = self.declarations.len();
        let mut p: usize = 0;
        while p < n && text_lt(self.declarations[p].name.as_str(), name)
            invariant
                n == self.declarations@.len(),
                s == declaration_views(self.declarations@),
                strictly_sorted(s),
                p <= n,
                forall|j: int| 0 <= j < p ==> text_less(#[trigger] s[j].0, name@),
            decreases n - p,
        {
            p += 1;
        }
        proof {
            lemma_recorded_at(s, name@, declaration@, p as int);
        }
        if p < n && crate::text::str_equals(self.declarations[p].name.as_str(), name) {
            if crate::text::str_equals(self.declarations[p].declaration.as_str(), declaration) {
                return Ok(());
            }
            return Err(appended(owned("two Rust DTOs export the conflicting TypeScript name "), name));
        }
        proof {
            assert forall|j: int| p <= j < s.len() implies text_less(name@, #[trigger] s[j].0) by {
                lemma_text_less_total(s[p as int].0, name@);
                if j > p {
                    lemma_text_less_transitive(name@, s[p as int].0, s[j].0);
                }
            }
        }
        let entry = TypeContract { name: owned(name), declaration: owned(declaration) };
        let mut declarations: Vec<TypeContract> = Vec::new();
        std::mem::swap(&mut declarations, &mut self.declarations);
        declarations.insert(p, entry);
        proof {
            let t = declaration_views(declarations@);
            assert(t =~= s.insert(p as int, (name@, declaration@)));
            assert forall|i: int, j: int| 0 <= i < j < t.len() implies text_less(#[trigger] t[i].0, #[trigger] t[j].0) by {
                if j < p {
                    assert(t[i] == s[i] && t[j] == s[j]);
                } else if j == p {
                    assert(t[i] == s[i]);
                } else if i < p {
                    assert(t[i] == s[i] && t[j] == s[j - 1]);
                    lemma_text_less_transitive(s[i].0, name@, s[j - 1].0);
                } else if i == p {
                    assert(t[j] == s[j - 1]);
                } else {
                    assert(t[i] == s[i - 1] && t[j] == s[j - 1]);
                }
            }
        }
        self.declarations = declarations;
        Ok(())
    }

    /// The collected declarations, sorted by name.
    pub fn finish(self) -> (r: Vec<TypeContract>)
        ensures
            declaration_views(r@) == self.entries(),
            strictly_sorted(declaration_views(r@)),
    {
        proof {
            use_type_invariant(&self);
        }
        self.declarations
    }
}

/// Whether `a` comes before `b`.
fn text_lt(a: &str, b: &str) -> (r: bool)
    ensures
        r == text_less(a@, b@),
{
    let n = a.unicode_len();
    let m = b.unicode_len();
    let mut i: usize = 0;
    assert(a@.skip(0) =~= a@);
    assert(b@.skip(0) =~= b@);
    while i < n && i < m && a.get_char(i) == b.get_char(i)
        invariant
            n == a@.len(),
            m == b@.len(),
            i <= n,
            i <= m,
            text_less(a@, b@) == text_less(a@.skip(i as int), b@.skip(i as int)),
        decreases n - i,
    {
        proof {
            assert(a@.skip(i as int).drop_first() =~= a@.skip(i as int + 1));
            assert(b@.skip(i as int).drop_first() =~= b@.skip(i as int + 1));
        }
        i += 1;
    }
    if i == n {
        i < m
    } else if i == m {
        false
    } else {
        a.get_char(i) < b.get_char(i)
    }
}

} // verus!
