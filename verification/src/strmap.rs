//! A string-to-string map whose keys are distinct, iterated in insertion order.
//!
//! It stands where the hosted contract keeps `BTreeMap<String, String>`
//! (environments, headers): maps decoded from the wire arrive in sorted key
//! order, so iterating entries in insertion order visits them in that order.
use vstd::prelude::*;

use crate::text::byte_len;

verus! {

/// Keys of a pair sequence are pairwise distinct.
pub open spec fn distinct_keys(pairs: Seq<(Seq<char>, Seq<char>)>) -> bool {
    forall|i: int, j: int| 0 <= i < j < pairs.len() ==> #[trigger] pairs[i].0 != #[trigger] pairs[j].0
}

/// The index of `key` among the pairs' keys, if present.
pub open spec fn key_index(pairs: Seq<(Seq<char>, Seq<char>)>, key: Seq<char>) -> Option<int> {
    if exists|i: int| 0 <= i < pairs.len() && pairs[i].0 == key {
        Some(choose|i: int| 0 <= i < pairs.len() && pairs[i].0 == key)
    } else {
        None
    }
}

/// The pairs after inserting `(key, value)`: the value of an existing key is
/// replaced in place, a new key is appended.
pub open spec fn pairs_insert(
    pairs: Seq<(Seq<char>, Seq<char>)>,
    key: Seq<char>,
    value: Seq<char>,
) -> Seq<(Seq<char>, Seq<char>)> {
    match key_index(pairs, key) {
        Some(i) => pairs.update(i, (key, value)),
        None => pairs.push((key, value)),
    }
}

/// Total UTF-8 bytes of the keys and values of the first `n` pairs.
pub open spec fn pairs_bytes(pairs: Seq<(Seq<char>, Seq<char>)>, n: int) -> nat
    decreases n,
{
    if n <= 0 || n > pairs.len() {
        0
    } else {
        pairs_bytes(pairs, n - 1) + byte_len(pairs[n - 1].0) + byte_len(pairs[n - 1].1)
    }
}

/// Total UTF-8 bytes of every key and value.
pub open spec fn total_bytes(pairs: Seq<(Seq<char>, Seq<char>)>) -> nat {
    pairs_bytes(pairs, pairs.len() as int)
}

/// Sums over longer prefixes are never smaller.
pub proof fn lemma_pairs_bytes_monotone(pairs: Seq<(Seq<char>, Seq<char>)>, m: int, n: int)
    requires
        0 <= m <= n <= pairs.len(),
    ensures
        pairs_bytes(pairs, m) <= pairs_bytes(pairs, n),
    decreases n - m,
{
    if m < n {
        lemma_pairs_bytes_monotone(pairs, m, n - 1);
    }
}

/// A map from strings to strings with distinct keys.
#[derive(Debug, PartialEq, Eq)]
pub struct StringMap {
    entries: Vec<(String, String)>,
}

impl View for StringMap {
    type V = Seq<(Seq<char>, Seq<char>)>;

    closed spec fn view(&self) -> Seq<(Seq<char>, Seq<char>)> {
        Seq::new(self.entries@.len(), |i: int| (self.entries@[i].0@, self.entries@[i].1@))
    }
}

impl StringMap {
    #[verifier::type_invariant]
    closed spec fn keys_are_distinct(self) -> bool {
        distinct_keys(self@)
    }

    /// The empty map.
    pub fn new() -> (m: StringMap)
        ensures
            m@ == Seq::<(Seq<char>, Seq<char>)>::empty(),
    {
        let m = StringMap { entries: Vec::new() };
        assert(m@ =~= Seq::<(Seq<char>, Seq<char>)>::empty());
        m
    }

    /// Number of entries.
    pub fn len(&self) -> (n: usize)
        ensures
            n == self@.len(),
            distinct_keys(self@),
    {
        proof {
            use_type_invariant(self);
        }
        self.entries.len()
    }

    /// Whether the map has no entries.
    pub fn is_empty(&self) -> (b: bool)
        ensures
            b == (self@.len() == 0),
    {
        self.entries.len() == 0
    }

    /// The key and value at position `i`.
    pub fn entry(&self, i: usize) -> (kv: (&String, &String))
        requires
            i < self@.len(),
        ensures
            kv.0@ == self@[i as int].0,
            kv.1@ == self@[i as int].1,
    {
        let e = &self.entries[i];
        (&e.0, &e.1)
    }

    /// The value of `key`, if present.
    pub fn get(&self, key: &str) -> (r: Option<&String>)
        ensures
            match key_index(self@, key@) {
                Some(i) => r matches Some(v) && v@ == self@[i].1,
                None => r is None,
            },
    {
        proof {
            use_type_invariant(self);
        }
        let n = self.entries.len();
        let mut i: usize = 0;
        while i < n
            invariant
                n == self.entries@.len(),
                n == self@.len(),
                i <= n,
                distinct_keys(self@),
                forall|j: int| 0 <= j < i ==> self@[j].0 != key@,
            decreases n - i,
        {
            if crate::text::str_equals(self.entries[i].0.as_str(), key) {
                assert(self@[i as int].0 == key@);
                assert(key_index(self@, key@) == Some(i as int)) by {
                    let k = choose|k: int| 0 <= k < self@.len() && self@[k].0 == key@;
                    if k < i as int {
                        assert(self@[k].0 != self@[i as int].0);
                    } else if k > i as int {
                        assert(self@[i as int].0 != self@[k].0);
                    }
                }
                return Some(&self.entries[i].1);
            }
            i += 1;
        }
        None
    }

    /// Removes every entry.
    pub fn clear(&mut self)
        ensures
            final(self)@ == Seq::<(Seq<char>, Seq<char>)>::empty(),
    {
        self.entries = Vec::new();
        assert(self@ =~= Seq::<(Seq<char>, Seq<char>)>::empty());
    }

    /// Insert or replace the value of `key`.
    pub fn insert(&mut self, key: String, value: String)
        ensures
            final(self)@ == pairs_insert(old(self)@, key@, value@),
    {
        proof {
            use_type_invariant(&*self);
        }
        assert(distinct_keys(self@));
        let n = self.entries.len();
        let mut i: usize = 0;
        while i < n
            invariant
                n == self.entries@.len(),
                i <= n,
                self@ == old(self)@,
                distinct_keys(self@),
                forall|j: int| 0 <= j < i ==> self@[j].0 != key@,
            decreases n - i,
        {
            if self.entries[i].0 == key {
                let ghost before = self@;
                assert(distinct_keys(before));
                assert(before[i as int].0 == key@);
                assert(key_index(before, key@) == Some(i as int)) by {
                    let k = choose|k: int| 0 <= k < before.len() && before[k].0 == key@;
                    if k < i as int {
                        assert(before[k].0 != before[i as int].0);
                    } else if k > i as int {
                        assert(before[i as int].0 != before[k].0);
                    }
                }
                let mut entries = Vec::new();
                std::mem::swap(&mut entries, &mut self.entries);
                entries.set(i, (key, value));
                let ghost after = Seq::new(entries@.len(), |j: int| (entries@[j].0@, entries@[j].1@));
                assert(after =~= pairs_insert(before, key@, value@));
                assert(distinct_keys(after)) by {
                    assert forall|a: int, b: int| 0 <= a < b < after.len() implies #[trigger] after[a].0 != #[trigger] after[b].0 by {
                        assert(before[a].0 != before[b].0);
                    }
                }
                self.entries = entries;
                assert(self@ =~= after);
                return;
            }
            i += 1;
        }
        let ghost before = self@;
        assert(distinct_keys(before));
        assert(key_index(before, key@) is None);
        let mut entries = Vec::new();
        std::mem::swap(&mut entries, &mut self.entries);
        entries.push((key, value));
        let ghost after = Seq::new(entries@.len(), |j: int| (entries@[j].0@, entries@[j].1@));
        assert(after =~= pairs_insert(before, key@, value@));
        assert(distinct_keys(after)) by {
            assert forall|a: int, b: int| 0 <= a < b < after.len() implies #[trigger] after[a].0 != #[trigger] after[b].0 by {
                if b < before.len() {
                    assert(before[a].0 != before[b].0);
                } else {
                    assert(before[a].0 != key@);
                }
            }
        }
        self.entries = entries;
        assert(self@ =~= after);
    }

    /// A map built by inserting the pairs in order; a later value of a
    /// repeated key replaces the earlier one.
    pub fn from_pairs(pairs: Vec<(String, String)>) -> (m: StringMap)
        ensures
            m@ == pairs_from(Seq::new(pairs@.len(), |i: int| (pairs@[i].0@, pairs@[i].1@))),
    {
        let ghost all = Seq::new(pairs@.len(), |i: int| (pairs@[i].0@, pairs@[i].1@));
        let mut m = StringMap::new();
        let n = pairs.len();
        let mut i: usize = 0;
        assert(all.take(0) =~= Seq::<(Seq<char>, Seq<char>)>::empty());
        while i < n
            invariant
                n == pairs@.len(),
                i <= n,
                all == Seq::new(pairs@.len(), |i: int| (pairs@[i].0@, pairs@[i].1@)),
                m@ == pairs_from(all.take(i as int)),
            decreases n - i,
        {
            let key = pairs[i].0.clone();
            let value = pairs[i].1.clone();
            m.insert(key, value);
            assert(all.take(i as int + 1).drop_last() =~= all.take(i as int));
            i += 1;
        }
        assert(all.take(n as int) =~= all);
        m
    }
}

impl StringMap {
    /// Total bytes of keys and values, or `None` when the sum does not fit in `usize`.
    pub fn checked_total_bytes(&self) -> (r: Option<usize>)
        ensures
            r is None <==> total_bytes(self@) > usize::MAX,
            r matches Some(t) ==> t == total_bytes(self@),
    {
        let n = self.len();
        let mut total: usize = 0;
        let mut i: usize = 0;
        while i < n
            invariant
                n == self@.len(),
                i <= n,
                total == pairs_bytes(self@, i as int),
            decreases n - i,
        {
            let (k, v) = self.entry(i);
            proof {
                lemma_pairs_bytes_monotone(self@, i as int + 1, n as int);
            }
            let kl = k.as_str().len();
            let vl = v.as_str().len();
            if total > usize::MAX - kl {
                return None;
            }
            let t = total + kl;
            if t > usize::MAX - vl {
                return None;
            }
            total = t + vl;
            assert(kl == byte_len(self@[i as int].0));
            assert(vl == byte_len(self@[i as int].1));
            assert(pairs_bytes(self@, i as int + 1) == pairs_bytes(self@, i as int) + byte_len(self@[i as int].0) + byte_len(self@[i as int].1));
            i += 1;
        }
        Some(total)
    }

    /// Total bytes of keys and values, saturating at `usize::MAX`.
    pub fn saturating_total_bytes(&self) -> (t: usize)
        ensures
            t == if total_bytes(self@) > usize::MAX { usize::MAX as nat } else { total_bytes(self@) },
    {
        match self.checked_total_bytes() {
            Some(t) => t,
            None => usize::MAX,
        }
    }
}

impl Clone for StringMap {
    fn clone(&self) -> (m: StringMap)
        ensures
            m@ == self@,
    {
        proof {
            use_type_invariant(self);
        }
        let n = self.entries.len();
        let mut entries: Vec<(String, String)> = Vec::new();
        let mut i: usize = 0;
        while i < n
            invariant
                n == self.entries@.len(),
                i <= n,
                entries@.len() == i,
                forall|j: int| 0 <= j < i ==> entries@[j].0@ == self.entries@[j].0@ && entries@[j].1@ == self.entries@[j].1@,
            decreases n - i,
        {
            let k = self.entries[i].0.clone();
            let v = self.entries[i].1.clone();
            entries.push((k, v));
            i += 1;
        }
        let ghost v = Seq::new(entries@.len(), |j: int| (entries@[j].0@, entries@[j].1@));
        assert(v =~= self@);
        let m = StringMap { entries };
        assert(m@ =~= self@);
        m
    }
}

impl Default for StringMap {
    fn default() -> (m: StringMap)
        ensures
            m@ == Seq::<(Seq<char>, Seq<char>)>::empty(),
    {
        StringMap::new()
    }
}

/// The pairs obtained by inserting each pair of `s` in order into an empty map.
pub open spec fn pairs_from(s: Seq<(Seq<char>, Seq<char>)>) -> Seq<(Seq<char>, Seq<char>)>
    decreases s.len(),
{
    if s.len() == 0 {
        Seq::empty()
    } else {
        pairs_insert(pairs_from(s.drop_last()), s.last().0, s.last().1)
    }
}

} // verus!
