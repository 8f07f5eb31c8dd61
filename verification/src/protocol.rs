//! The agentOS ACP extension: session request defaults, caller instruction
//! assembly, prompt text capture and adapter config selection.
use vstd::prelude::*;

use crate::strmap::StringMap;
use crate::text::{appended, byte_len, decimal, owned, str_equals, with_number, with_text};

verus! {

pub const ACP_EXTENSION_NAMESPACE: &'static str = "dev.rivet.agent-os.acp";
pub const PROTOCOL_NAME: &'static str = "agentos-acp";
pub const PROTOCOL_VERSION: u16 = 1;

pub const DEFAULT_ACP_PROTOCOL_VERSION: i32 = 1;
pub const DEFAULT_ACP_CLIENT_CAPABILITIES: &'static str = "{\"fs\":{\"readTextFile\":true,\"writeTextFile\":true},\"terminal\":true}";
pub const DEFAULT_ACP_MCP_SERVERS: &'static str = "[]";
pub const DEFAULT_ACP_CWD: &'static str = "/workspace";
pub const ACP_PROMPT_TEXT_LIMIT_BYTES: usize = 16 * 1024 * 1024;
pub const ACP_PROMPT_CHUNK_LIMIT: usize = 262_144;

// ---------------------------------------------------------------------------
// Caller instructions
// ---------------------------------------------------------------------------

/// Unicode `White_Space`, the characters `str::trim` removes.
pub open spec fn is_white_space(c: char) -> bool {
    ('\u{9}' <= c && c <= '\u{d}') || c == ' ' || c == '\u{85}' || c == '\u{a0}' || c == '\u{1680}'
        || ('\u{2000}' <= c && c <= '\u{200a}') || c == '\u{2028}' || c == '\u{2029}'
        || c == '\u{202f}' || c == '\u{205f}' || c == '\u{3000}'
}

/// The number of leading white-space characters.
pub open spec fn leading_space(s: Seq<char>) -> nat
    decreases s.len(),
{
    if s.len() > 0 && is_white_space(s[0]) {
        1 + leading_space(s.drop_first())
    } else {
        0
    }
}

/// The number of trailing white-space characters.
pub open spec fn trailing_space(s: Seq<char>) -> nat
    decreases s.len(),
{
    if s.len() > 0 && is_white_space(s.last()) {
        1 + trailing_space(s.drop_last())
    } else {
        0
    }
}

/// The text without leading and trailing white space.
pub open spec fn trimmed(s: Seq<char>) -> Seq<char> {
    let rest = s.skip(leading_space(s) as int);
    rest.take(rest.len() - trailing_space(rest))
}

proof fn lemma_leading_space(s: Seq<char>)
    ensures
        leading_space(s) <= s.len(),
        forall|i: int| 0 <= i < leading_space(s) ==> is_white_space(#[trigger] s[i]),
        leading_space(s) < s.len() ==> !is_white_space(s[leading_space(s) as int]),
    decreases s.len(),
{
    if s.len() > 0 && is_white_space(s[0]) {
        lemma_leading_space(s.drop_first());
        assert forall|i: int| 0 <= i < leading_space(s) implies is_white_space(#[trigger] s[i]) by {
            if i > 0 {
                assert(s[i] == s.drop_first()[i - 1]);
            }
        }
    }
}

proof fn lemma_trailing_space(s: Seq<char>)
    ensures
        trailing_space(s) <= s.len(),
        forall|i: int| s.len() - trailing_space(s) <= i < s.len() ==> is_white_space(#[trigger] s[i]),
        trailing_space(s) < s.len() ==> !is_white_space(s[s.len() - trailing_space(s) - 1]),
    decreases s.len(),
{
    if s.len() > 0 && is_white_space(s.last()) {
        lemma_trailing_space(s.drop_last());
        assert forall|i: int| s.len() - trailing_space(s) <= i < s.len() implies is_white_space(#[trigger] s[i]) by {
            if i < s.len() - 1 {
                assert(s[i] == s.drop_last()[i]);
            }
        }
    }
}

/// Whether a character is Unicode white space.
pub fn white_space(c: char) -> (b: bool)
    ensures
        b == is_white_space(c),
{
    ('\u{9}' <= c && c <= '\u{d}') || c == ' ' || c == '\u{85}' || c == '\u{a0}' || c == '\u{1680}'
        || ('\u{2000}' <= c && c <= '\u{200a}') || c == '\u{2028}' || c == '\u{2029}'
        || c == '\u{202f}' || c == '\u{205f}' || c == '\u{3000}'
}

/// The text without leading and trailing white space.
pub fn trim(s: &str) -> (r: &str)
    ensures
        r@ == trimmed(s@),
{
    proof {
        lemma_leading_space(s@);
    }
    let n = s.unicode_len();
    let mut start: usize = 0;
    while start < n && white_space(s.get_char(start))
        invariant
            n == s@.len(),
            start <= leading_space(s@),
            forall|i: int| 0 <= i < leading_space(s@) ==> is_white_space(#[trigger] s@[i]),
            leading_space(s@) <= n,
            leading_space(s@) < n ==> !is_white_space(s@[leading_space(s@) as int]),
        decreases n - start,
    {
        start += 1;
    }
    let ghost rest = s@.skip(start as int);
    assert(start == leading_space(s@));
    proof {
        lemma_trailing_space(rest);
    }
    let mut end: usize = n;
    while end > start && white_space(s.get_char(end - 1))
        invariant
            n == s@.len(),
            start <= end <= n,
            rest == s@.skip(start as int),
            n - end <= trailing_space(rest),
            trailing_space(rest) <= rest.len(),
            forall|i: int| rest.len() - trailing_space(rest) <= i < rest.len() ==> is_white_space(#[trigger] rest[i]),
            trailing_space(rest) < rest.len() ==> !is_white_space(rest[rest.len() - trailing_space(rest) - 1]),
        decreases end,
    {
        assert(s@[end - 1] == rest[end - 1 - start]);
        end -= 1;
    }
    assert(n - end == trailing_space(rest)) by {
        if n - end < trailing_space(rest) {
            assert(s@[end - 1] == rest[end - 1 - start]);
        }
    }
    let r = s.substring_char(start, end);
    assert(r@ =~= trimmed(s@));
    r
}

/// The VM-scoped and session-scoped caller instructions, each trimmed,
/// joined by a blank line, without the empty ones; nothing when both are empty.
pub open spec fn combined_instructions(base: Option<Seq<char>>, session: Option<Seq<char>>) -> Option<Seq<char>> {
    let b = match base { Some(t) => trimmed(t), None => Seq::empty() };
    let s = match session { Some(t) => trimmed(t), None => Seq::empty() };
    if b.len() == 0 && s.len() == 0 {
        None
    } else if b.len() == 0 {
        Some(s)
    } else if s.len() == 0 {
        Some(b)
    } else {
        Some(b + "\n\n"@ + s)
    }
}

/// Assembles VM-scoped and session-scoped caller instructions at the ACP
/// enforcement point.
pub fn combine_additional_instructions(base: Option<&str>, session: Option<&str>) -> (r: Option<String>)
    ensures
        match r {
            Some(t) => combined_instructions(opt_str_view(base), opt_str_view(session)) == Some(t@),
            None => combined_instructions(opt_str_view(base), opt_str_view(session)) is None,
        },
{
    let b: &str = match base {
        Some(t) => trim(t),
        None => "",
    };
    let s: &str = match session {
        Some(t) => trim(t),
        None => "",
    };
    proof {
        reveal_strlit("");
    }
    let bn = b.unicode_len();
    let sn = s.unicode_len();
    if bn == 0 && sn == 0 {
        None
    } else if bn == 0 {
        Some(owned(s))
    } else if sn == 0 {
        Some(owned(b))
    } else {
        Some(with_text(owned(b), "\n\n", s))
    }
}

/// The view of an optional string slice.
pub open spec fn opt_str_view(s: Option<&str>) -> Option<Seq<char>> {
    match s {
        Some(t) => Some(t@),
        None => None,
    }
}

// ---------------------------------------------------------------------------
// Prompt text capture
// ---------------------------------------------------------------------------

/// The text of an agent's reply as it streams in, bounded in bytes and in
/// chunks; it warns once when it comes near either bound.
pub struct AcpPromptTextAccumulator {
    text: String,
    bytes: usize,
    chunks: usize,
    warned: bool,
}

/// The mathematical content of a capture: its text, its byte count, its chunk
/// count and whether it has warned.
pub type CaptureView = (Seq<char>, nat, nat, bool);

impl View for AcpPromptTextAccumulator {
    type V = CaptureView;

    closed spec fn view(&self) -> CaptureView {
        (self.text@, self.bytes as nat, self.chunks as nat, self.warned)
    }
}

/// A capture whose byte count, after adding a chunk of `bytes` bytes as its
/// `chunks`-th chunk, is within a fifth of either bound.
pub open spec fn near_limit(bytes: nat, chunks: nat) -> bool {
    bytes * 100 >= ACP_PROMPT_TEXT_LIMIT_BYTES * 80 || chunks * 100 >= ACP_PROMPT_CHUNK_LIMIT * 80
}

pub open spec fn chunk_limit_message() -> Seq<char> {
    "ACP prompt text chunk limit exceeded: at most 262144 chunks can be captured"@
}

pub open spec fn byte_limit_message(next: nat) -> Seq<char> {
    "ACP prompt text is "@ + decimal(next) + " bytes, limit is 16777216; reduce agent output"@
}

pub open spec fn overflow_message() -> Seq<char> {
    "ACP prompt text exceeds the 16777216-byte capture limit"@
}

/// The outcome of adding `chunk` to a capture `before`: `r` and the capture
/// `after`. Past the chunk bound, or past the byte bound, it fails and the
/// capture is unchanged; otherwise the text grows by the chunk and `r` is
/// `true` exactly when the capture first comes within a fifth of a bound.
pub open spec fn chunk_pushed(before: CaptureView, chunk: Seq<char>, r: Result<bool, String>, after: CaptureView) -> bool {
    &&& before.2 >= ACP_PROMPT_CHUNK_LIMIT ==> (r matches Err(m) && m@ == chunk_limit_message() && after == before)
    &&& before.2 < ACP_PROMPT_CHUNK_LIMIT && before.1 + byte_len(chunk) > usize::MAX ==> (r matches Err(m)
        && m@ == overflow_message() && after == before)
    &&& before.2 < ACP_PROMPT_CHUNK_LIMIT && before.1 + byte_len(chunk) <= usize::MAX
        && before.1 + byte_len(chunk) > ACP_PROMPT_TEXT_LIMIT_BYTES ==> (r matches Err(m)
        && m@ == byte_limit_message(before.1 + byte_len(chunk)) && after == before)
    &&& before.2 < ACP_PROMPT_CHUNK_LIMIT && before.1 + byte_len(chunk) <= ACP_PROMPT_TEXT_LIMIT_BYTES ==> {
        let next = before.1 + byte_len(chunk);
        let count = before.2 + 1;
        &&& after.0 == before.0 + chunk
        &&& after.1 == next
        &&& after.2 == count
        &&& after.3 == (before.3 || near_limit(next, count))
        &&& r == Ok::<bool, String>(near_limit(next, count) && !before.3)
    }
}

/// What a capture reads of an adapter notification:
/// `params.update.sessionUpdate` and `params.update.content.text`, each when
/// it is present and a string.
#[derive(Debug, Clone, PartialEq, Eq)]
pub struct AcpNotification {
    pub session_update: Option<String>,
    pub content_text: Option<String>,
}

/// The agent text a notification carries: the content text of an
/// `agent_message_chunk` update.
pub open spec fn message_chunk(n: AcpNotification) -> Option<Seq<char>> {
    match (n.session_update, n.content_text) {
        (Some(u), Some(t)) => if u@ == "agent_message_chunk"@ { Some(t@) } else { None },
        _ => None,
    }
}

impl AcpPromptTextAccumulator {
    /// An empty capture.
    pub fn new() -> (a: Self)
        ensures
            a@ == (Seq::<char>::empty(), 0nat, 0nat, false),
    {
        AcpPromptTextAccumulator { text: String::new(), bytes: 0, chunks: 0, warned: false }
    }

    /// A capture that has already counted `bytes` bytes and `chunks` chunks
    /// without keeping their text.
    pub fn with_counts(bytes: usize, chunks: usize) -> (a: Self)
        ensures
            a@ == (Seq::<char>::empty(), bytes as nat, chunks as nat, false),
    {
        AcpPromptTextAccumulator { text: String::new(), bytes, chunks, warned: false }
    }

    /// Adds one chunk of agent text. Fails, leaving the capture unchanged,
    /// when the chunk bound is reached or the text would exceed the byte
    /// bound; otherwise returns `true` exactly when the capture first comes
    /// within a fifth of either bound.
    pub fn push_chunk(&mut self, chunk: &str) -> (r: Result<bool, String>)
        ensures
            chunk_pushed(old(self)@, chunk@, r, final(self)@),
    {
        if self.chunks >= ACP_PROMPT_CHUNK_LIMIT {
            let m = owned("ACP prompt text chunk limit exceeded: at most 262144 chunks can be captured");
            return Err(m);
        }
        let next = match self.bytes.checked_add(chunk.len()) {
            Some(n) => n,
            None => {
                return Err(owned("ACP prompt text exceeds the 16777216-byte capture limit"));
            },
        };
        if next > ACP_PROMPT_TEXT_LIMIT_BYTES {
            return Err(with_number(owned("ACP prompt text is "), next, " bytes, limit is 16777216; reduce agent output"));
        }
        self.text.append(chunk);
        self.bytes = next;
        self.chunks = self.chunks + 1;
        let near = next as u64 * 100 >= ACP_PROMPT_TEXT_LIMIT_BYTES as u64 * 80
            || self.chunks as u64 * 100 >= ACP_PROMPT_CHUNK_LIMIT as u64 * 80;
        if near && !self.warned {
            self.warned = true;
            Ok(true)
        } else {
            if near {
                self.warned = true;
            }
            Ok(false)
        }
    }

    /// Consumes one adapter notification: an agent message chunk is added as
    /// by `push_chunk`; any other notification leaves the capture unchanged
    /// and reports no warning.
    pub fn push_notification(&mut self, notification: &AcpNotification) -> (r: Result<bool, String>)
        ensures
            message_chunk(*notification) is None ==> (r == Ok::<bool, String>(false) && final(self)@ == old(self)@),
            message_chunk(*notification) matches Some(c) ==> chunk_pushed(old(self)@, c, r, final(self)@),
    {
        proof {
            reveal_strlit("agent_message_chunk");
        }
        match (&notification.session_update, &notification.content_text) {
            (Some(update), Some(text)) => if str_equals(update.as_str(), "agent_message_chunk") {
                self.push_chunk(text.as_str())
            } else {
                Ok(false)
            },
            _ => Ok(false),
        }
    }

    /// The captured text.
    pub fn into_text(self) -> (t: String)
        ensures
            t@ == self@.0,
    {
        self.text
    }
}

/// Once a capture has warned it never warns again: a second successful chunk
/// after a warning reports no warning.
pub proof fn lemma_warning_is_edge_triggered(before: CaptureView, after: CaptureView, warned_now: bool, chunk_len: nat)
    requires
        after.3 == (before.3 || near_limit(after.1, after.2)),
        warned_now == (near_limit(after.1, after.2) && !before.3),
        warned_now,
    ensures
        after.3,
        !(near_limit(after.1 + chunk_len, after.2 + 1) && !after.3),
{
}

// ---------------------------------------------------------------------------
// Adapter config options
// ---------------------------------------------------------------------------

/// A field of a config option object as the adapter reported it.
#[derive(Debug, Clone, PartialEq, Eq)]
pub enum OptionField<T> {
    Missing,
    Present(T),
    WrongType,
}

/// One adapter config option, as read from its JSON text.
#[derive(Debug, Clone, PartialEq, Eq)]
pub enum ConfigOption {
    /// The text is not JSON; the parser's message.
    Malformed(String),
    /// The JSON is not an object.
    NotObject,
    /// An object: its `category` when it is a string, its `id` and its `readOnly`.
    Object { category: Option<String>, id: OptionField<String>, read_only: OptionField<bool> },
}

/// The config an adapter category selects, and whether it is read-only.
#[derive(Debug, Clone, PartialEq, Eq)]
pub struct AcpConfigSelection {
    pub config_id: String,
    pub read_only: bool,
}

/// The selection for a category: the first option of that category decides;
/// with none, the category itself is the config id and it is writable.
pub open spec fn selection_from(options: Seq<ConfigOption>, category: Seq<char>, i: int) -> Result<(Seq<char>, bool), Seq<char>>
    decreases options.len() - i,
{
    if i < 0 || i >= options.len() {
        Ok((category, false))
    } else {
        match options[i] {
            ConfigOption::Malformed(e) => Err("malformed ACP config option "@ + decimal(i as nat) + ": "@ + e@),
            ConfigOption::NotObject => Err("ACP config option "@ + decimal(i as nat) + " must be an object"@),
            ConfigOption::Object { category: c, id, read_only } => {
                if !(c matches Some(t) && t@ == category) {
                    selection_from(options, category, i + 1)
                } else {
                    let config_id = match id {
                        OptionField::Present(s) => if s@.len() > 0 { Ok(s@) } else { Ok(category) },
                        OptionField::Missing => Ok(category),
                        OptionField::WrongType => Err("ACP config option "@ + decimal(i as nat) + " id must be a string"@),
                    };
                    match config_id {
                        Err(m) => Err(m),
                        Ok(cid) => match read_only {
                            OptionField::Present(b) => Ok((cid, b)),
                            OptionField::Missing => Ok((cid, false)),
                            OptionField::WrongType => Err("ACP config option "@ + decimal(i as nat) + " readOnly must be a boolean"@),
                        },
                    }
                }
            },
        }
    }
}

/// The option says, for this category, that its config is read-only.
pub open spec fn says_read_only(o: ConfigOption, category: Seq<char>) -> bool {
    o matches ConfigOption::Object { category: Some(t), read_only: OptionField::Present(true), .. } && t@ == category
}

/// The option belongs to this category and has no `readOnly` field.
pub open spec fn silent_on_read_only(o: ConfigOption, category: Seq<char>) -> bool {
    o matches ConfigOption::Object { category: Some(t), read_only: OptionField::Missing, id, .. } && t@ == category
        && !(id is WrongType)
}

/// The option is an object of another category.
pub open spec fn other_category(o: ConfigOption, category: Seq<char>) -> bool {
    o matches ConfigOption::Object { category: c, .. } && !(c matches Some(t) && t@ == category)
}

/// A selection is read-only only when an option of its category says
/// `readOnly: true`, and the first option of the category with no
/// `readOnly` field selects a writable config.
pub proof fn lemma_read_only_only_when_said(options: Seq<ConfigOption>, category: Seq<char>, i: int)
    requires
        0 <= i,
    ensures
        (selection_from(options, category, i) matches Ok((_, ro)) && ro)
            ==> exists|j: int| i <= j < options.len() && #[trigger] says_read_only(options[j], category),
        forall|j: int| i <= j < options.len() && silent_on_read_only(options[j], category)
            && (forall|k: int| i <= k < j ==> #[trigger] other_category(options[k], category))
            ==> (selection_from(options, category, i) matches Ok((_, ro)) && !ro),
    decreases options.len() - i,
{
    if i < options.len() {
        lemma_read_only_only_when_said(options, category, i + 1);
        if selection_from(options, category, i) matches Ok((_, ro)) && ro {
            match options[i] {
                ConfigOption::Object { category: c, id, read_only } => {
                    if c matches Some(t) && t@ == category {
                        assert(says_read_only(options[i], category));
                    } else {
                        let j = choose|j: int| i + 1 <= j < options.len() && #[trigger] says_read_only(options[j], category);
                        assert(i <= j < options.len() && says_read_only(options[j], category));
                    }
                },
                _ => {},
            }
        }
        assert forall|j: int| i <= j < options.len() && silent_on_read_only(options[j], category)
            && (forall|k: int| i <= k < j ==> #[trigger] other_category(options[k], category))
            implies (selection_from(options, category, i) matches Ok((_, ro)) && !ro) by {
            if j > i {
                assert(other_category(options[i], category));
                assert forall|k: int| i + 1 <= k < j implies #[trigger] other_category(options[k], category) by {
                    assert(i <= k < j);
                }
            }
        }
    }
}

/// The first option of the category decides the selection: with a
/// non-empty `id` and a boolean `readOnly`, the selection is that id and that
/// flag; and when every option is an object of another category, the
/// category itself is selected, writable.
pub proof fn lemma_first_option_of_category_decides(options: Seq<ConfigOption>, category: Seq<char>, i: int)
    requires
        0 <= i,
    ensures
        forall|j: int, id: String, ro: bool| i <= j < options.len()
            && options[j] == (ConfigOption::Object { category: Some(#[trigger] options[j]->Object_category->0), id: OptionField::Present(id), read_only: OptionField::Present(ro) })
            && options[j]->Object_category->0@ == category && id@.len() > 0
            && (forall|k: int| i <= k < j ==> #[trigger] other_category(options[k], category))
            ==> selection_from(options, category, i) == Ok::<(Seq<char>, bool), Seq<char>>((id@, ro)),
        (forall|k: int| i <= k < options.len() ==> #[trigger] other_category(options[k], category))
            ==> selection_from(options, category, i) == Ok::<(Seq<char>, bool), Seq<char>>((category, false)),
    decreases options.len() - i,
{
    if i < options.len() {
        lemma_first_option_of_category_decides(options, category, i + 1);
        assert forall|j: int, id: String, ro: bool| i <= j < options.len()
            && options[j] == (ConfigOption::Object { category: Some(#[trigger] options[j]->Object_category->0), id: OptionField::Present(id), read_only: OptionField::Present(ro) })
            && options[j]->Object_category->0@ == category && id@.len() > 0
            && (forall|k: int| i <= k < j ==> #[trigger] other_category(options[k], category))
            implies selection_from(options, category, i) == Ok::<(Seq<char>, bool), Seq<char>>((id@, ro)) by {
            if j > i {
                assert(other_category(options[i], category));
                assert forall|k: int| i + 1 <= k < j implies #[trigger] other_category(options[k], category) by {
                    assert(i <= k < j);
                }
            }
        }
        if forall|k: int| i <= k < options.len() ==> #[trigger] other_category(options[k], category) {
            assert(other_category(options[i], category));
            assert forall|k: int| i + 1 <= k < options.len() implies #[trigger] other_category(options[k], category) by {
                assert(i <= k < options.len());
            }
        }
    }
}

/// Resolves an adapter-reported configuration category. A missing category
/// keeps ACP's permissive forwarding by using the category as the config id.
pub fn select_config_by_category(config_options: &[ConfigOption], category: &str) -> (r: Result<AcpConfigSelection, String>)
    ensures
        match r {
            Ok(s) => selection_from(config_options@, category@, 0) == Ok::<(Seq<char>, bool), Seq<char>>((s.config_id@, s.read_only)),
            Err(m) => selection_from(config_options@, category@, 0) == Err::<(Seq<char>, bool), Seq<char>>(m@),
        },
{
    let n = config_options.len();
    let mut i: usize = 0;
    while i < n
        invariant
            n == config_options@.len(),
            i <= n,
            selection_from(config_options@, category@, 0) == selection_from(config_options@, category@, i as int),
        decreases n - i,
    {
        match &config_options[i] {
            ConfigOption::Malformed(e) => {
                let head = with_number(owned("malformed ACP config option "), i, ": ");
                return Err(appended(head, e.as_str()));
            },
            ConfigOption::NotObject => {
                return Err(with_number(owned("ACP config option "), i, " must be an object"));
            },
            ConfigOption::Object { category: c, id, read_only } => {
                let matches = match c {
                    Some(t) => str_equals(t.as_str(), category),
                    None => false,
                };
                if matches {
                    let config_id = match id {
                        OptionField::Present(s) => {
                            if s.as_str().unicode_len() > 0 {
                                s.clone()
                            } else {
                                owned(category)
                            }
                        },
                        OptionField::Missing => owned(category),
                        OptionField::WrongType => {
                            return Err(with_number(owned("ACP config option "), i, " id must be a string"));
                        },
                    };
                    let ro = match read_only {
                        OptionField::Present(b) => *b,
                        OptionField::Missing => false,
                        OptionField::WrongType => {
                            return Err(with_number(owned("ACP config option "), i, " readOnly must be a boolean"));
                        },
                    };
                    return Ok(AcpConfigSelection { config_id, read_only: ro });
                }
            },
        }
        i += 1;
    }
    Ok(AcpConfigSelection { config_id: owned(category), read_only: false })
}

/// The message for an adapter config option that cannot be changed.
pub open spec fn read_only_message(agent_type: Seq<char>, category: Seq<char>) -> Seq<char> {
    if agent_type == "opencode"@ && category == "model"@ {
        "OpenCode reports available models, but model switching must be configured before createSession() because ACP session/set_config_option is not implemented."@
    } else {
        "The "@ + category + " config option is read-only for "@ + agent_type + " sessions."@
    }
}

/// The message for an adapter config option that cannot be changed.
pub fn read_only_config_message(agent_type: &str, category: &str) -> (m: String)
    ensures
        m@ == read_only_message(agent_type@, category@),
{
    if str_equals(agent_type, "opencode") && str_equals(category, "model") {
        owned("OpenCode reports available models, but model switching must be configured before createSession() because ACP session/set_config_option is not implemented.")
    } else {
        let head = with_text(owned("The "), category, " config option is read-only for ");
        with_text(head, agent_type, " sessions.")
    }
}

// ---------------------------------------------------------------------------
// Session requests
// ---------------------------------------------------------------------------

/// The runtime an ACP agent runs in.
#[derive(Debug, Clone, Copy, PartialEq, Eq, Structural)]
pub enum AcpRuntimeKind {
    JavaScript,
}

/// A request to create an ACP session; omitted fields take the shared defaults.
#[derive(Debug, Clone)]
pub struct AcpCreateSessionRequest {
    pub agent_type: String,
    pub runtime: Option<AcpRuntimeKind>,
    pub cwd: Option<String>,
    pub args: Option<Vec<String>>,
    pub env: Option<StringMap>,
    pub protocol_version: Option<i32>,
    pub client_capabilities: Option<String>,
    pub mcp_servers: Option<String>,
    pub skip_os_instructions: Option<bool>,
    pub additional_instructions: Option<String>,
}

/// A request to resume an ACP session; omitted fields take the shared defaults.
#[derive(Debug, Clone)]
pub struct AcpResumeSessionRequest {
    pub session_id: String,
    pub agent_type: String,
    pub transcript_path: Option<String>,
    pub cwd: Option<String>,
    pub env: Option<StringMap>,
}

/// A create-session request with every default applied.
#[derive(Debug, Clone)]
pub struct ResolvedAcpCreateSessionRequest {
    pub agent_type: String,
    pub runtime: AcpRuntimeKind,
    pub cwd: String,
    pub args: Vec<String>,
    pub env: StringMap,
    pub protocol_version: i32,
    pub client_capabilities: String,
    pub mcp_servers: String,
    pub skip_os_instructions: bool,
    pub additional_instructions: Option<String>,
}

/// A resume-session request with every default applied.
#[derive(Debug, Clone)]
pub struct ResolvedAcpResumeSessionRequest {
    pub session_id: String,
    pub agent_type: String,
    pub transcript_path: Option<String>,
    pub cwd: String,
    pub env: StringMap,
}

/// The text of an optional string, or the default.
pub open spec fn text_or(s: Option<String>, default: Seq<char>) -> Seq<char> {
    match s {
        Some(t) => t@,
        None => default,
    }
}

/// The view of an optional string.
pub open spec fn opt_text(s: Option<String>) -> Option<Seq<char>> {
    match s {
        Some(t) => Some(t@),
        None => None,
    }
}

fn string_or(s: Option<String>, default: &str) -> (r: String)
    ensures
        r@ == text_or(s, default@),
{
    match s {
        Some(t) => t,
        None => owned(default),
    }
}

impl ResolvedAcpCreateSessionRequest {
    /// Applies the shared sidecar defaults to the omitted fields.
    pub fn from(request: AcpCreateSessionRequest) -> (r: Self)
        ensures
            r.agent_type@ == request.agent_type@,
            r.runtime == match request.runtime { Some(k) => k, None => AcpRuntimeKind::JavaScript },
            r.cwd@ == text_or(request.cwd, DEFAULT_ACP_CWD@),
            r.args@ == match request.args { Some(a) => a@, None => Seq::<String>::empty() },
            r.env@ == match request.env { Some(m) => m@, None => Seq::empty() },
            r.protocol_version == match request.protocol_version { Some(v) => v, None => DEFAULT_ACP_PROTOCOL_VERSION },
            r.client_capabilities@ == text_or(request.client_capabilities, DEFAULT_ACP_CLIENT_CAPABILITIES@),
            r.mcp_servers@ == text_or(request.mcp_servers, DEFAULT_ACP_MCP_SERVERS@),
            r.skip_os_instructions == match request.skip_os_instructions { Some(b) => b, None => false },
            opt_text(r.additional_instructions) == opt_text(request.additional_instructions),
    {
        let ghost req = request;
        let runtime = match request.runtime {
            Some(k) => k,
            None => AcpRuntimeKind::JavaScript,
        };
        let args = match request.args {
            Some(a) => a,
            None => Vec::new(),
        };
        let env = match request.env {
            Some(m) => m,
            None => StringMap::new(),
        };
        let protocol_version = match request.protocol_version {
            Some(v) => v,
            None => DEFAULT_ACP_PROTOCOL_VERSION,
        };
        let skip_os_instructions = match request.skip_os_instructions {
            Some(b) => b,
            None => false,
        };
        ResolvedAcpCreateSessionRequest {
            agent_type: request.agent_type,
            runtime,
            cwd: string_or(request.cwd, DEFAULT_ACP_CWD),
            args,
            env,
            protocol_version,
            client_capabilities: string_or(request.client_capabilities, DEFAULT_ACP_CLIENT_CAPABILITIES),
            mcp_servers: string_or(request.mcp_servers, DEFAULT_ACP_MCP_SERVERS),
            skip_os_instructions,
            additional_instructions: request.additional_instructions,
        }
    }
}

impl ResolvedAcpResumeSessionRequest {
    /// Applies the shared sidecar defaults to the omitted fields.
    pub fn from(request: AcpResumeSessionRequest) -> (r: Self)
        ensures
            r.session_id@ == request.session_id@,
            r.agent_type@ == request.agent_type@,
            opt_text(r.transcript_path) == opt_text(request.transcript_path),
            r.cwd@ == text_or(request.cwd, DEFAULT_ACP_CWD@),
            r.env@ == match request.env { Some(m) => m@, None => Seq::empty() },
    {
        let env = match request.env {
            Some(m) => m,
            None => StringMap::new(),
        };
        ResolvedAcpResumeSessionRequest {
            session_id: request.session_id,
            agent_type: request.agent_type,
            transcript_path: request.transcript_path,
            cwd: string_or(request.cwd, DEFAULT_ACP_CWD),
            env,
        }
    }
}

} // verus!
