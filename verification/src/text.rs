//! Text helpers shared by every validator: byte lengths, decimal rendering and
//! message assembly.
use vstd::prelude::*;
use vstd::string::*;
use vstd::std_specs::iter::IteratorSpec;

verus! {

/// UTF-8 byte length of a character sequence, as `str::len` reports it (a
/// `usize`; every string held in memory has a length that fits).
pub open spec fn byte_len(s: Seq<char>) -> nat {
    (vstd::utf8::encode_utf8(s).len() as usize) as nat
}

/// One decimal digit as a character.
pub open spec fn digit_char(d: nat) -> char {
    if d == 0 { '0' } else if d == 1 { '1' } else if d == 2 { '2' } else if d == 3 { '3' }
    else if d == 4 { '4' } else if d == 5 { '5' } else if d == 6 { '6' } else if d == 7 { '7' }
    else if d == 8 { '8' } else { '9' }
}

/// The base-ten rendering of a natural number without sign or leading zeros.
pub open spec fn decimal(n: nat) -> Seq<char>
    decreases n,
{
    if n < 10 {
        seq![digit_char(n)]
    } else {
        decimal(n / 10).push(digit_char(n % 10))
    }
}

/// The base-ten rendering of a signed integer, with a leading '-' when negative.
pub open spec fn signed_decimal(n: int) -> Seq<char> {
    if n < 0 {
        seq!['-'].add(decimal((-n) as nat))
    } else {
        decimal(n as nat)
    }
}

/// Debug rendering of a string (double quotes with Rust escapes).
pub uninterp spec fn debug_text(s: Seq<char>) -> Seq<char>;

/// The one-character text of a decimal digit.
fn digit_str(d: u64) -> (s: &'static str)
    requires
        d < 10,
    ensures
        s@ == seq![digit_char(d as nat)],
{
    proof {
        reveal_strlit("0");
        reveal_strlit("1");
        reveal_strlit("2");
        reveal_strlit("3");
        reveal_strlit("4");
        reveal_strlit("5");
        reveal_strlit("6");
        reveal_strlit("7");
        reveal_strlit("8");
        reveal_strlit("9");
    }
    if d == 0 { "0" } else if d == 1 { "1" } else if d == 2 { "2" } else if d == 3 { "3" }
    else if d == 4 { "4" } else if d == 5 { "5" } else if d == 6 { "6" } else if d == 7 { "7" }
    else if d == 8 { "8" } else { "9" }
}

/// The base-ten digits of a `u64`, as its `Display` writes them.
pub fn u64_text(n: u64) -> (s: String)
    ensures
        s@ == decimal(n as nat),
    decreases n,
{
    if n < 10 {
        owned(digit_str(n))
    } else {
        let head = u64_text(n / 10);
        appended(head, digit_str(n % 10))
    }
}

/// The base-ten digits of a `usize`, as its `Display` writes them.
pub fn usize_text(n: usize) -> (s: String)
    ensures
        s@ == decimal(n as nat),
{
    u64_text(n as u64)
}

/// The base-ten digits of an `i64` after '-' when it is negative, as its
/// `Display` writes them.
pub fn i64_text(n: i64) -> (s: String)
    ensures
        s@ == signed_decimal(n as int),
{
    if n < 0 {
        let magnitude: u64 = ((-(n + 1)) as u64) + 1;
        let digits = u64_text(magnitude);
        let r = with_text(owned("-"), digits.as_str(), "");
        proof {
            reveal_strlit("-");
            reveal_strlit("");
            assert(r@ =~= seq!['-'].add(decimal((-n) as nat)));
        }
        r
    } else {
        u64_text(n as u64)
    }
}

/// Debug rendering of a string slice, through `<str as Debug>::fmt` in std.
/// Claimed: the result is `debug_text` of the input; the escaping rules are not stated.
#[verifier::external_body]
pub fn debug_quoted(s: &str) -> (r: String)
    ensures
        r@ == debug_text(s@),
{
    format!("{s:?}")
}

/// An owned copy of a string slice.
pub fn owned(s: &str) -> (r: String)
    ensures
        r@ == s@,
{
    s.to_owned()
}

/// `head`, followed by the decimal rendering of `n`, followed by `tail`.
pub fn with_number(head: String, n: usize, tail: &str) -> (r: String)
    ensures
        r@ == head@ + decimal(n as nat) + tail@,
{
    let mut r = head;
    let digits = usize_text(n);
    r.append(digits.as_str());
    r.append(tail);
    r
}

/// `head`, followed by the decimal rendering of a `u64`, followed by `tail`.
pub fn with_u64(head: String, n: u64, tail: &str) -> (r: String)
    ensures
        r@ == head@ + decimal(n as nat) + tail@,
{
    let mut r = head;
    let digits = u64_text(n);
    r.append(digits.as_str());
    r.append(tail);
    r
}

/// `head` followed by `tail`.
pub fn appended(head: String, tail: &str) -> (r: String)
    ensures
        r@ == head@ + tail@,
{
    let mut r = head;
    r.append(tail);
    r
}

/// `head` followed by the decimal rendering of `n`.
pub fn numbered(head: &str, n: usize) -> (r: String)
    ensures
        r@ == head@ + decimal(n as nat),
{
    let mut r = owned(head);
    let digits = usize_text(n);
    r.append(digits.as_str());
    r
}

/// `head`, followed by `middle`, followed by `tail`.
pub fn with_text(head: String, middle: &str, tail: &str) -> (r: String)
    ensures
        r@ == head@ + middle@ + tail@,
{
    let mut r = head;
    r.append(middle);
    r.append(tail);
    r
}

/// The characters of a string slice, in order.
pub fn chars_of(s: &str) -> (v: Vec<char>)
    ensures
        v@ == s@,
{
    broadcast use vstd::string::group_string_axioms;
    let mut v: Vec<char> = Vec::new();
    for c in it: s.chars()
        invariant
            it.seq() == s@,
            v@.len() == it.index(),
            v@ == s@.take(v@.len() as int),
    {
        v.push(c);
        assert(s@.take(v@.len() as int) =~= v@);
    }
    assert(s@.take(v@.len() as int) =~= s@);
    v
}

/// Whether the character occurs in the string.
pub fn contains_char(s: &str, c: char) -> (b: bool)
    ensures
        b == exists|i: int| 0 <= i < s@.len() && #[trigger] s@[i] == c,
{
    let v = chars_of(s);
    let n = v.len();
    let mut i: usize = 0;
    while i < n
        invariant
            n == v@.len(),
            v@ == s@,
            i <= n,
            forall|j: int| 0 <= j < i ==> #[trigger] s@[j] != c,
        decreases n - i,
    {
        if v[i] == c {
            assert(s@[i as int] == c);
            return true;
        }
        i += 1;
    }
    false
}

/// Whether `v` starting at `start` spells `lit`.
pub fn matches_at(v: &Vec<char>, start: usize, lit: &str) -> (b: bool)
    requires
        start <= v@.len(),
    ensures
        b == (start + lit@.len() <= v@.len() && v@.subrange(start as int, start + lit@.len()) == lit@),
{
    let m = lit.unicode_len();
    let n = v.len();
    if m > n - start {
        return false;
    }
    let mut i: usize = 0;
    while i < m
        invariant
            m == lit@.len(),
            n == v@.len(),
            start + m <= v@.len(),
            i <= m,
            forall|j: int| 0 <= j < i ==> v@[start + j] == lit@[j],
        decreases m - i,
    {
        if v[start + i] != lit.get_char(i) {
            assert(v@.subrange(start as int, start + m)[i as int] != lit@[i as int]);
            return false;
        }
        i += 1;
    }
    assert(v@.subrange(start as int, start + m) =~= lit@);
    true
}

/// `s` occurs in `hay` at some position.
pub open spec fn occurs_in(hay: Seq<char>, s: Seq<char>) -> bool {
    exists|i: int| 0 <= i && i + s.len() <= hay.len() && #[trigger] hay.subrange(i, i + s.len()) == s
}

/// Whether `lit` occurs in `hay`.
pub fn contains_text(hay: &str, lit: &str) -> (b: bool)
    ensures
        b == occurs_in(hay@, lit@),
{
    let v = chars_of(hay);
    let n = v.len();
    let ghost m = lit@.len();
    let mut start: usize = 0;
    while start < n
        invariant
            n == v@.len(),
            v@ == hay@,
            m == lit@.len(),
            start <= n,
            forall|j: int| 0 <= j < start ==> !(j + m <= n && #[trigger] hay@.subrange(j, j + m) == lit@),
        decreases n - start,
    {
        if matches_at(&v, start, lit) {
            assert(hay@.subrange(start as int, start + m) == lit@);
            return true;
        }
        start += 1;
    }
    let last = matches_at(&v, n, lit);
    if last {
        assert(hay@.subrange(n as int, n + m) == lit@);
    } else {
        assert forall|j: int| 0 <= j && j + m <= hay@.len() implies #[trigger] hay@.subrange(j, j + m) != lit@ by {
            if j == n as int {
            } else {
                assert(j < n);
            }
        }
    }
    last
}

/// Whether the characters equal the literal.
pub fn chars_equal(v: &Vec<char>, len: usize, lit: &str) -> (b: bool)
    requires
        len <= v@.len(),
    ensures
        b == (v@.subrange(0, len as int) == lit@),
{
    if len != lit.unicode_len() {
        return false;
    }
    let b = matches_at(v, 0, lit);
    proof {
        if b {
            assert(v@.subrange(0, len as int) =~= lit@);
        }
    }
    b
}

/// Whether the string equals the literal.
pub fn str_equals(s: &str, lit: &str) -> (b: bool)
    ensures
        b == (s@ == lit@),
{
    let v = chars_of(s);
    let b = chars_equal(&v, v.len(), lit);
    assert(v@.subrange(0, v@.len() as int) =~= v@);
    b
}


/// The number of UTF-8 bytes of a character sequence.
pub open spec fn utf8_len(s: Seq<char>) -> nat {
    vstd::utf8::encode_utf8(s).len()
}

/// The number of UTF-8 bytes of one character.
pub open spec fn char_width(c: char) -> nat {
    if c <= '\u{7f}' {
        1
    } else if c <= '\u{7ff}' {
        2
    } else if c <= '\u{ffff}' {
        3
    } else {
        4
    }
}

/// Encoding a concatenation encodes each part in turn.
pub proof fn lemma_encode_concat(a: Seq<char>, b: Seq<char>)
    ensures
        vstd::utf8::encode_utf8(a + b) == vstd::utf8::encode_utf8(a) + vstd::utf8::encode_utf8(b),
    decreases a.len(),
{
    if a.len() == 0 {
        assert(a + b =~= b);
        assert(vstd::utf8::encode_utf8(a) =~= Seq::<u8>::empty());
        assert(vstd::utf8::encode_utf8(a) + vstd::utf8::encode_utf8(b) =~= vstd::utf8::encode_utf8(b));
    } else {
        lemma_encode_concat(a.drop_first(), b);
        assert((a + b).drop_first() =~= a.drop_first() + b);
        assert((a + b)[0] == a[0]);
        assert(vstd::utf8::encode_utf8(a + b) =~= vstd::utf8::encode_scalar(a[0] as u32) + vstd::utf8::encode_utf8(a.drop_first() + b));
    }
}

/// One character adds its width to the byte count.
pub proof fn lemma_utf8_len_push(s: Seq<char>, c: char)
    ensures
        utf8_len(s.push(c)) == utf8_len(s) + char_width(c),
{
    lemma_encode_concat(s, seq![c]);
    assert(s.push(c) =~= s + seq![c]);
    assert(seq![c].drop_first() =~= Seq::<char>::empty());
    assert(vstd::utf8::encode_utf8(seq![c]) =~= vstd::utf8::encode_scalar(c as u32) + vstd::utf8::encode_utf8(Seq::<char>::empty()));
    assert(vstd::utf8::encode_utf8(seq![c]).len() == char_width(c)) by {
        assert(vstd::utf8::encode_utf8(Seq::<char>::empty()) =~= Seq::<u8>::empty());
        assert(c as u32 == c as int);
    }
}

/// The width of a character.
pub fn utf8_width(c: char) -> (w: usize)
    ensures
        w == char_width(c),
{
    if c <= '\u{7f}' {
        1
    } else if c <= '\u{7ff}' {
        2
    } else if c <= '\u{ffff}' {
        3
    } else {
        4
    }
}

/// A lower-case hexadecimal digit.
pub open spec fn hex_digit(d: int) -> char {
    "0123456789abcdef"@[d]
}

/// Two lower-case hexadecimal digits per byte.
pub open spec fn hex_text(bytes: Seq<u8>) -> Seq<char>
    decreases bytes.len(),
{
    if bytes.len() == 0 {
        Seq::empty()
    } else {
        hex_text(bytes.drop_last()) + seq![hex_digit(bytes.last() as int / 16), hex_digit(bytes.last() as int % 16)]
    }
}

/// A lower-case hexadecimal digit character.
pub open spec fn is_lower_hex(c: char) -> bool {
    ('0' <= c && c <= '9') || ('a' <= c && c <= 'f')
}

/// The hex text of some bytes has two lower-case hexadecimal digits per byte.
pub proof fn lemma_hex_text(bytes: Seq<u8>)
    ensures
        hex_text(bytes).len() == 2 * bytes.len(),
        forall|i: int| 0 <= i < hex_text(bytes).len() ==> is_lower_hex(#[trigger] hex_text(bytes)[i]),
    decreases bytes.len(),
{
    reveal_strlit("0123456789abcdef");
    if bytes.len() > 0 {
        lemma_hex_text(bytes.drop_last());
        let prev = hex_text(bytes.drop_last());
        let cur = hex_text(bytes);
        let hi = bytes.last() as int / 16;
        let lo = bytes.last() as int % 16;
        assert(0 <= hi < 16 && 0 <= lo < 16);
        assert forall|d: int| 0 <= d < 16 implies is_lower_hex(#[trigger] hex_digit(d)) by {
            assert("0123456789abcdef"@[d] == "0123456789abcdef"@.index(d));
        }
        assert forall|i: int| 0 <= i < cur.len() implies is_lower_hex(#[trigger] cur[i]) by {
            if i < prev.len() {
                assert(cur[i] == prev[i]);
            } else if i == prev.len() {
                assert(cur[i] == hex_digit(hi));
            } else {
                assert(cur[i] == hex_digit(lo));
            }
        }
    }
}

} // verus!
