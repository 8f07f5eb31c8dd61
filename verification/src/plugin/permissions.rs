//! Pending permission requests: the bounded buffer behind the observe-only
//! `listPendingPermissions` backfill. A request stays pending until it is
//! answered or until the runtime's permission timeout has passed since it was
//! observed; each key (session id, permission id) is pending at most once.
use vstd::prelude::*;

use crate::text::owned;

verus! {

/// Past this many pending requests the oldest is dropped.
pub const PENDING_PERMISSIONS_CAP: usize = 64;

/// One pending permission request.
#[derive(Debug)]
pub struct PendingPermissionDto {
    /// The client-facing session id.
    pub session_id: String,
    pub permission_id: String,
    pub description: Option<String>,
    /// The raw ACP request params, as JSON text.
    pub params: String,
    /// When the runtime observed the request, in epoch milliseconds.
    pub requested_at: u64,
}

/// The mathematical content of a pending request.
pub type PendingView = (Seq<char>, Seq<char>, Option<Seq<char>>, Seq<char>, u64);

impl View for PendingPermissionDto {
    type V = PendingView;

    open spec fn view(&self) -> PendingView {
        (self.session_id@, self.permission_id@, match self.description { Some(d) => Some(d@), None => None },
            self.params@, self.requested_at)
    }
}

impl PendingPermissionDto {
    /// A copy of the request.
    pub fn copy(&self) -> (r: Self)
        ensures
            r@ == self@,
    {
        PendingPermissionDto {
            session_id: self.session_id.clone(),
            permission_id: self.permission_id.clone(),
            description: match &self.description {
                Some(d) => Some(d.clone()),
                None => None,
            },
            params: self.params.clone(),
            requested_at: self.requested_at,
        }
    }
}

/// The buffer of pending requests, oldest first, with the timeout after which
/// the runtime auto-rejects a request.
pub struct PendingPermissions {
    entries: Vec<PendingPermissionDto>,
    timeout_ms: u64,
}

/// The views of the entries.
pub open spec fn entry_views(s: Seq<PendingPermissionDto>) -> Seq<PendingView> {
    Seq::new(s.len(), |i: int| s[i]@)
}

/// A request that the runtime has not yet auto-rejected at `now`.
pub open spec fn fresh(e: PendingView, now: u64, timeout: u64) -> bool {
    (now as int) - (e.4 as int) < timeout as int
}

/// The requests still fresh at `now`, in order.
pub open spec fn sweep(s: Seq<PendingView>, now: u64, timeout: u64) -> Seq<PendingView>
    decreases s.len(),
{
    if s.len() == 0 {
        s
    } else if fresh(s.last(), now, timeout) {
        sweep(s.drop_last(), now, timeout).push(s.last())
    } else {
        sweep(s.drop_last(), now, timeout)
    }
}

/// The request has the key (session id, permission id).
pub open spec fn has_key(e: PendingView, session_id: Seq<char>, permission_id: Seq<char>) -> bool {
    e.0 == session_id && e.1 == permission_id
}

/// The requests without the given key, in order.
pub open spec fn without_key(s: Seq<PendingView>, session_id: Seq<char>, permission_id: Seq<char>) -> Seq<PendingView>
    decreases s.len(),
{
    if s.len() == 0 {
        s
    } else if has_key(s.last(), session_id, permission_id) {
        without_key(s.drop_last(), session_id, permission_id)
    } else {
        without_key(s.drop_last(), session_id, permission_id).push(s.last())
    }
}

/// No key is pending twice.
pub open spec fn keys_distinct(s: Seq<PendingView>) -> bool {
    forall|i: int, j: int| 0 <= i < j < s.len() ==> (#[trigger] s[i].0 != #[trigger] s[j].0 || s[i].1 != s[j].1)
}

/// What every buffer keeps: at most the cap of requests, and no key pending
/// twice.
pub open spec fn buffer_ok(s: Seq<PendingView>) -> bool {
    s.len() <= PENDING_PERMISSIONS_CAP && keys_distinct(s)
}

/// The key is pending.
pub open spec fn pending(s: Seq<PendingView>, session_id: Seq<char>, permission_id: Seq<char>) -> bool {
    exists|i: int| 0 <= i < s.len() && has_key(#[trigger] s[i], session_id, permission_id)
}

/// The buffer after recording a request at `now`, and the request the cap
/// dropped, if any.
pub open spec fn inserted(s: Seq<PendingView>, e: PendingView, now: u64, timeout: u64) -> (Seq<PendingView>, Option<PendingView>) {
    let kept = without_key(sweep(s, now, timeout), e.0, e.1).push(e);
    if kept.len() > PENDING_PERMISSIONS_CAP {
        (kept.drop_first(), Some(kept[0]))
    } else {
        (kept, None)
    }
}

proof fn lemma_sweep(s: Seq<PendingView>, now: u64, timeout: u64)
    ensures
        sweep(s, now, timeout).len() <= s.len(),
        forall|x: PendingView| #[trigger] sweep(s, now, timeout).contains(x) ==> s.contains(x) && fresh(x, now, timeout),
        forall|i: int| 0 <= i < s.len() && fresh(s[i], now, timeout) ==> sweep(s, now, timeout).contains(#[trigger] s[i]),
        keys_distinct(s) ==> keys_distinct(sweep(s, now, timeout)),
    decreases s.len(),
{
    if s.len() > 0 {
        let p = s.drop_last();
        lemma_sweep(p, now, timeout);
        let q = sweep(p, now, timeout);
        let r = sweep(s, now, timeout);
        assert forall|x: PendingView| #[trigger] r.contains(x) implies s.contains(x) && fresh(x, now, timeout) by {
            if q.contains(x) {
                let k = choose|k: int| 0 <= k < p.len() && p[k] == x;
                assert(s[k] == x);
            } else {
                assert(x == s.last());
                assert(s[s.len() - 1] == x);
            }
        }
        assert forall|i: int| 0 <= i < s.len() && fresh(s[i], now, timeout) implies r.contains(#[trigger] s[i]) by {
            if i < s.len() - 1 {
                assert(p[i] == s[i]);
                assert(q.contains(p[i]));
                let k = choose|k: int| 0 <= k < q.len() && q[k] == s[i];
                assert(r[k] == s[i]);
            } else {
                assert(r[q.len() as int] == s[i]);
            }
        }
        if keys_distinct(s) {
            assert forall|i: int, j: int| 0 <= i < j < p.len() implies (#[trigger] p[i].0 != #[trigger] p[j].0 || p[i].1 != p[j].1) by {
                assert(p[i] == s[i] && p[j] == s[j]);
            }
            if fresh(s.last(), now, timeout) {
                assert forall|i: int, j: int| 0 <= i < j < r.len() implies (#[trigger] r[i].0 != #[trigger] r[j].0 || r[i].1 != r[j].1) by {
                    if j == r.len() - 1 {
                        assert(r[i] == q[i]);
                        assert(q.contains(q[i]));
                        let k = choose|k: int| 0 <= k < p.len() && p[k] == q[i];
                        assert(s[k] == r[i]);
                        assert(r[j] == s[s.len() - 1]);
                    } else {
                        assert(r[i] == q[i] && r[j] == q[j]);
                    }
                }
            }
        }
    }
}

proof fn lemma_without_key(s: Seq<PendingView>, sid: Seq<char>, pid: Seq<char>)
    ensures
        without_key(s, sid, pid).len() <= s.len(),
        forall|x: PendingView| #[trigger] without_key(s, sid, pid).contains(x) ==> s.contains(x) && !has_key(x, sid, pid),
        forall|i: int| 0 <= i < s.len() && !has_key(s[i], sid, pid) ==> without_key(s, sid, pid).contains(#[trigger] s[i]),
        keys_distinct(s) ==> keys_distinct(without_key(s, sid, pid)),
        !pending(s, sid, pid) ==> without_key(s, sid, pid) == s,
        pending(s, sid, pid) ==> without_key(s, sid, pid).len() < s.len(),
    decreases s.len(),
{
    if s.len() > 0 {
        let p = s.drop_last();
        lemma_without_key(p, sid, pid);
        let q = without_key(p, sid, pid);
        let r = without_key(s, sid, pid);
        assert forall|x: PendingView| #[trigger] r.contains(x) implies s.contains(x) && !has_key(x, sid, pid) by {
            if q.contains(x) {
                let k = choose|k: int| 0 <= k < p.len() && p[k] == x;
                assert(s[k] == x);
            } else {
                assert(x == s.last());
                assert(s[s.len() - 1] == x);
            }
        }
        assert forall|i: int| 0 <= i < s.len() && !has_key(s[i], sid, pid) implies r.contains(#[trigger] s[i]) by {
            if i < s.len() - 1 {
                assert(p[i] == s[i]);
                assert(q.contains(p[i]));
                let k = choose|k: int| 0 <= k < q.len() && q[k] == s[i];
                assert(r[k] == s[i]);
            } else {
                assert(r[q.len() as int] == s[i]);
            }
        }
        if keys_distinct(s) {
            assert forall|i: int, j: int| 0 <= i < j < p.len() implies (#[trigger] p[i].0 != #[trigger] p[j].0 || p[i].1 != p[j].1) by {
                assert(p[i] == s[i] && p[j] == s[j]);
            }
            if !has_key(s.last(), sid, pid) {
                assert forall|i: int, j: int| 0 <= i < j < r.len() implies (#[trigger] r[i].0 != #[trigger] r[j].0 || r[i].1 != r[j].1) by {
                    if j == r.len() - 1 {
                        assert(r[i] == q[i]);
                        assert(q.contains(q[i]));
                        let k = choose|k: int| 0 <= k < p.len() && p[k] == q[i];
                        assert(s[k] == r[i]);
                        assert(r[j] == s[s.len() - 1]);
                    } else {
                        assert(r[i] == q[i] && r[j] == q[j]);
                    }
                }
            }
        }
        if !pending(s, sid, pid) {
            assert(!has_key(s[s.len() - 1], sid, pid));
            assert(!pending(p, sid, pid)) by {
                if pending(p, sid, pid) {
                    let k = choose|k: int| 0 <= k < p.len() && has_key(#[trigger] p[k], sid, pid);
                    assert(s[k] == p[k]);
                }
            }
            assert(r =~= p.push(s.last()));
            assert(s =~= p.push(s.last()));
        } else if pending(p, sid, pid) {
        } else {
            assert(has_key(s.last(), sid, pid)) by {
                let k = choose|k: int| 0 <= k < s.len() && has_key(#[trigger] s[k], sid, pid);
                if k < s.len() - 1 {
                    assert(p[k] == s[k]);
                }
            }
        }
    }
}

proof fn lemma_push_distinct(before: Seq<PendingView>, ev: PendingView)
    requires
        keys_distinct(before),
        forall|y: PendingView| before.contains(y) ==> !has_key(y, ev.0, ev.1),
    ensures
        keys_distinct(before.push(ev)),
        keys_distinct(before.push(ev).drop_first()),
{
    let t = before.push(ev);
    assert forall|i: int, j: int| 0 <= i < j < t.len() implies (#[trigger] t[i].0 != #[trigger] t[j].0 || t[i].1 != t[j].1) by {
        if j == t.len() - 1 {
            assert(t[i] == before[i]);
            assert(before.contains(before[i]));
            assert(t[j] == ev);
        } else {
            assert(t[i] == before[i] && t[j] == before[j]);
        }
    }
    let u = t.drop_first();
    assert forall|i: int, j: int| 0 <= i < j < u.len() implies (#[trigger] u[i].0 != #[trigger] u[j].0 || u[i].1 != u[j].1) by {
        assert(u[i] == t[i + 1] && u[j] == t[j + 1]);
    }
}

impl PendingPermissions {
    /// The entries as pending requests, oldest first.
    pub closed spec fn pending_view(&self) -> Seq<PendingView> {
        entry_views(self.entries@)
    }

    /// The auto-reject timeout the buffer was made with.
    pub closed spec fn timeout(&self) -> u64 {
        self.timeout_ms
    }

    #[verifier::type_invariant]
    closed spec fn well_formed(&self) -> bool {
        &&& self.entries@.len() <= PENDING_PERMISSIONS_CAP
        &&& keys_distinct(entry_views(self.entries@))
    }

    /// An empty buffer whose requests expire `timeout_ms` after they were observed.
    pub fn new(timeout_ms: u64) -> (p: Self)
        ensures
            p.pending_view() == Seq::<PendingView>::empty(),
            p.timeout() == timeout_ms,
            buffer_ok(p.pending_view()),
    {
        let p = PendingPermissions { entries: Vec::new(), timeout_ms };
        assert(entry_views(p.entries@) =~= Seq::<PendingView>::empty());
        p
    }

    fn blank() -> (e: PendingPermissionDto)
        ensures
            e@ == (Seq::<char>::empty(), Seq::<char>::empty(), None::<Seq<char>>, Seq::<char>::empty(), 0u64),
    {
        PendingPermissionDto { session_id: String::new(), permission_id: String::new(), description: None, params: String::new(), requested_at: 0 }
    }

    /// Drops the requests the runtime has auto-rejected by `now`.
    fn expire_in_place(&mut self, now: u64)
        ensures
            final(self).pending_view() == sweep(old(self).pending_view(), now, old(self).timeout()),
            final(self).timeout() == old(self).timeout(),
    {
        proof {
            use_type_invariant(&*self);
            lemma_sweep(entry_views(self.entries@), now, self.timeout_ms);
        }
        let mut taken: Vec<PendingPermissionDto> = Vec::new();
        std::mem::swap(&mut taken, &mut self.entries);
        let ghost orig = entry_views(taken@);
        let n = taken.len();
        let mut out: Vec<PendingPermissionDto> = Vec::new();
        let mut i: usize = 0;
        while i < n
            invariant
                n == taken@.len(),
                i <= n,
                orig.len() == n,
                forall|j: int| i <= j < n ==> (#[trigger] taken@[j])@ == orig[j],
                entry_views(out@) == sweep(orig.take(i as int), now, self.timeout_ms),
            decreases n - i,
        {
            let mut e = Self::blank();
            taken.set_and_swap(i, &mut e);
            assert(e@ == orig[i as int]);
            assert(orig.take(i as int + 1).drop_last() =~= orig.take(i as int));
            assert(orig.take(i as int + 1).last() == orig[i as int]);
            if (now as i128) - (e.requested_at as i128) < self.timeout_ms as i128 {
                let ghost before = entry_views(out@);
                out.push(e);
                assert(entry_views(out@) =~= before.push(orig[i as int]));
            }
            i += 1;
        }
        assert(orig.take(n as int) =~= orig);
        proof {
            lemma_sweep(orig, now, self.timeout_ms);
            assert(sweep(orig, now, self.timeout_ms).len() <= PENDING_PERMISSIONS_CAP);
        }
        self.entries = out;
    }

    /// Removes every request with the key, keeping the others in order.
    fn remove_key(&mut self, session_id: &str, permission_id: &str)
        ensures
            final(self).pending_view() == without_key(old(self).pending_view(), session_id@, permission_id@),
            final(self).timeout() == old(self).timeout(),
    {
        proof {
            use_type_invariant(&*self);
            lemma_without_key(entry_views(self.entries@), session_id@, permission_id@);
        }
        let mut taken: Vec<PendingPermissionDto> = Vec::new();
        std::mem::swap(&mut taken, &mut self.entries);
        let ghost orig = entry_views(taken@);
        let n = taken.len();
        let mut out: Vec<PendingPermissionDto> = Vec::new();
        let mut i: usize = 0;
        while i < n
            invariant
                n == taken@.len(),
                i <= n,
                orig.len() == n,
                forall|j: int| i <= j < n ==> (#[trigger] taken@[j])@ == orig[j],
                entry_views(out@) == without_key(orig.take(i as int), session_id@, permission_id@),
            decreases n - i,
        {
            let mut e = Self::blank();
            taken.set_and_swap(i, &mut e);
            assert(e@ == orig[i as int]);
            assert(orig.take(i as int + 1).drop_last() =~= orig.take(i as int));
            assert(orig.take(i as int + 1).last() == orig[i as int]);
            let same = crate::text::str_equals(e.session_id.as_str(), session_id)
                && crate::text::str_equals(e.permission_id.as_str(), permission_id);
            if !same {
                let ghost before = entry_views(out@);
                out.push(e);
                assert(entry_views(out@) =~= before.push(orig[i as int]));
            }
            i += 1;
        }
        assert(orig.take(n as int) =~= orig);
        self.entries = out;
    }

    /// Records a pending request observed at `now`, after sweeping expired
    /// ones. A request with the same key replaces the old one; past the cap
    /// the oldest request is dropped and returned.
    pub fn insert_at(&mut self, session_id: &str, permission_id: &str, description: Option<&str>, params: &str, now: u64) -> (r: Option<PendingPermissionDto>)
        ensures
            insert_step(old(self).pending_view(), (session_id@, permission_id@, opt_str(description), params@, now), now,
                old(self).timeout(), final(self).pending_view(), opt_entry(r)),
            final(self).timeout() == old(self).timeout(),
            final(self).pending_view().len() > 0,
            final(self).pending_view().last() == (session_id@, permission_id@, opt_str(description), params@, now),
            forall|i: int| 0 <= i < final(self).pending_view().len() - 1
                ==> !has_key(#[trigger] final(self).pending_view()[i], session_id@, permission_id@),
            buffer_ok(final(self).pending_view()),
    {
        proof {
            use_type_invariant(&*self);
            lemma_insert_then_pending(self.pending_view(), (session_id@, permission_id@, opt_str(description), params@, now), now, self.timeout());
        }
        self.expire_in_place(now);
        self.remove_key(session_id, permission_id);
        proof {
            use_type_invariant(&*self);
        }
        let e = PendingPermissionDto {
            session_id: owned(session_id),
            permission_id: owned(permission_id),
            description: match description {
                Some(d) => Some(owned(d)),
                None => None,
            },
            params: owned(params),
            requested_at: now,
        };
        let ghost before = entry_views(self.entries@);
        let ghost ev = e@;
        let mut entries: Vec<PendingPermissionDto> = Vec::new();
        std::mem::swap(&mut entries, &mut self.entries);
        entries.push(e);
        assert(entry_views(entries@) =~= before.push(ev));
        proof {
            lemma_without_key(sweep(old(self).pending_view(), now, old(self).timeout()), session_id@, permission_id@);
            lemma_sweep(old(self).pending_view(), now, old(self).timeout());
            assert forall|y: PendingView| before.contains(y) implies !has_key(y, ev.0, ev.1) by {}
            lemma_push_distinct(before, ev);
        }
        if entries.len() > PENDING_PERMISSIONS_CAP {
            let dropped = entries.remove(0);
            assert(entry_views(entries@) =~= before.push(ev).drop_first());
            self.entries = entries;
            Some(dropped)
        } else {
            self.entries = entries;
            None
        }
    }

    /// The still-pending requests, oldest first, after sweeping expired ones.
    #[verifier::loop_isolation(false)]
    pub fn list_at(&mut self, now: u64) -> (r: Vec<PendingPermissionDto>)
        ensures
            final(self).pending_view() == sweep(old(self).pending_view(), now, old(self).timeout()),
            final(self).timeout() == old(self).timeout(),
            entry_views(r@) == final(self).pending_view(),
            buffer_ok(final(self).pending_view()),
    {
        self.expire_in_place(now);
        proof {
            use_type_invariant(&*self);
        }
        let mut out: Vec<PendingPermissionDto> = Vec::new();
        let n = self.entries.len();
        let mut i: usize = 0;
        while i < n
            invariant
                n == self.entries@.len(),
                i <= n,
                entry_views(out@) == entry_views(self.entries@).take(i as int),
            decreases n - i,
        {
            let ghost before = entry_views(out@);
            let c = self.entries[i].copy();
            assert(c@ == entry_views(self.entries@)[i as int]);
            out.push(c);
            assert(entry_views(out@) =~= entry_views(self.entries@).take(i as int + 1));
            i += 1;
        }
        assert(entry_views(self.entries@).take(n as int) =~= entry_views(self.entries@));
        out
    }

    /// Whether the key is still pending at `now`, after sweeping expired ones.
    #[verifier::loop_isolation(false)]
    pub fn contains_at(&mut self, session_id: &str, permission_id: &str, now: u64) -> (b: bool)
        ensures
            final(self).pending_view() == sweep(old(self).pending_view(), now, old(self).timeout()),
            final(self).timeout() == old(self).timeout(),
            b == pending(final(self).pending_view(), session_id@, permission_id@),
            buffer_ok(final(self).pending_view()),
    {
        self.expire_in_place(now);
        proof {
            use_type_invariant(&*self);
        }
        let n = self.entries.len();
        let mut i: usize = 0;
        while i < n
            invariant
                n == self.entries@.len(),
                i <= n,
                forall|j: int| 0 <= j < i ==> !has_key(#[trigger] entry_views(self.entries@)[j], session_id@, permission_id@),
            decreases n - i,
        {
            if crate::text::str_equals(self.entries[i].session_id.as_str(), session_id)
                && crate::text::str_equals(self.entries[i].permission_id.as_str(), permission_id) {
                assert(has_key(entry_views(self.entries@)[i as int], session_id@, permission_id@));
                return true;
            }
            i += 1;
        }
        false
    }

    /// Removes an answered request; `false` when it was not pending at `now`.
    pub fn remove_at(&mut self, session_id: &str, permission_id: &str, now: u64) -> (b: bool)
        ensures
            final(self).pending_view() == without_key(sweep(old(self).pending_view(), now, old(self).timeout()), session_id@, permission_id@),
            final(self).timeout() == old(self).timeout(),
            b == pending(sweep(old(self).pending_view(), now, old(self).timeout()), session_id@, permission_id@),
            buffer_ok(final(self).pending_view()),
    {
        self.expire_in_place(now);
        let before = self.entries.len();
        proof {
            lemma_without_key(entry_views(self.entries@), session_id@, permission_id@);
        }
        self.remove_key(session_id, permission_id);
        proof {
            use_type_invariant(&*self);
        }
        self.entries.len() != before
    }

    /// Drops every pending request.
    pub fn clear(&mut self)
        ensures
            final(self).pending_view() == Seq::<PendingView>::empty(),
            final(self).timeout() == old(self).timeout(),
            buffer_ok(final(self).pending_view()),
    {
        self.entries = Vec::new();
        assert(entry_views(self.entries@) =~= Seq::<PendingView>::empty());
    }
}

/// The view of an optional string slice.
pub open spec fn opt_str(s: Option<&str>) -> Option<Seq<char>> {
    match s {
        Some(d) => Some(d@),
        None => None,
    }
}

/// The view of an optional request.
pub open spec fn opt_entry(r: Option<PendingPermissionDto>) -> Option<PendingView> {
    match r {
        Some(d) => Some(d@),
        None => None,
    }
}

/// Recording `e` at `now` turns `before` into `after` and drops `dropped`.
pub open spec fn insert_step(before: Seq<PendingView>, e: PendingView, now: u64, timeout: u64, after: Seq<PendingView>, dropped: Option<PendingView>) -> bool {
    inserted(before, e, now, timeout) == (after, dropped)
}

/// The wall clock in epoch milliseconds, from `std::time::SystemTime::now`
/// (zero for a clock before the epoch). Nothing is claimed of its value.
#[verifier::external_body]
fn now_ms() -> u64 {
    std::time::SystemTime::now().duration_since(std::time::UNIX_EPOCH).map(|d| d.as_millis() as u64).unwrap_or(0)
}

impl PendingPermissions {
    /// Records a pending request observed now; see `insert_at`.
    pub fn insert(&mut self, session_id: &str, permission_id: &str, description: Option<&str>, params: &str) -> (r: Option<PendingPermissionDto>)
        ensures
            exists|now: u64| #[trigger] insert_step(old(self).pending_view(), (session_id@, permission_id@,
                opt_str(description), params@, now), now, old(self).timeout(), final(self).pending_view(), opt_entry(r))
                && final(self).pending_view().last() == (session_id@, permission_id@, opt_str(description), params@, now),
            final(self).timeout() == old(self).timeout(),
            final(self).pending_view().len() > 0,
            forall|i: int| 0 <= i < final(self).pending_view().len() - 1
                ==> !has_key(#[trigger] final(self).pending_view()[i], session_id@, permission_id@),
            buffer_ok(final(self).pending_view()),
    {
        let now = now_ms();
        let r = self.insert_at(session_id, permission_id, description, params, now);
        assert(insert_step(old(self).pending_view(), (session_id@, permission_id@, opt_str(description), params@, now), now,
            old(self).timeout(), self.pending_view(), opt_entry(r)));
        r
    }

    /// The requests still pending now, oldest first.
    pub fn list(&mut self) -> (r: Vec<PendingPermissionDto>)
        ensures
            exists|now: u64| final(self).pending_view() == sweep(old(self).pending_view(), now, old(self).timeout()),
            final(self).timeout() == old(self).timeout(),
            entry_views(r@) == final(self).pending_view(),
            buffer_ok(final(self).pending_view()),
    {
        let now = now_ms();
        self.list_at(now)
    }

    /// Whether the key is still pending now.
    pub fn contains(&mut self, session_id: &str, permission_id: &str) -> (b: bool)
        ensures
            exists|now: u64| final(self).pending_view() == sweep(old(self).pending_view(), now, old(self).timeout()),
            final(self).timeout() == old(self).timeout(),
            b == pending(final(self).pending_view(), session_id@, permission_id@),
            buffer_ok(final(self).pending_view()),
    {
        let now = now_ms();
        self.contains_at(session_id, permission_id, now)
    }

    /// Removes an answered request; `false` when it was no longer pending.
    pub fn remove(&mut self, session_id: &str, permission_id: &str) -> (b: bool)
        ensures
            exists|now: u64| {
                &&& final(self).pending_view() == without_key(sweep(old(self).pending_view(), now, old(self).timeout()), session_id@, permission_id@)
                &&& b == pending(sweep(old(self).pending_view(), now, old(self).timeout()), session_id@, permission_id@)
            },
            final(self).timeout() == old(self).timeout(),
            buffer_ok(final(self).pending_view()),
    {
        let now = now_ms();
        self.remove_at(session_id, permission_id, now)
    }
}

/// Recording a request in a buffer that keeps its invariant (at most the cap,
/// no key twice) leaves exactly one row under the request's key: the newest
/// row, which is the request itself as recorded at `now`; the buffer stays
/// within the cap and no key is pending twice. For a positive timeout the
/// request is then pending.
pub proof fn lemma_insert_then_pending(s: Seq<PendingView>, e: PendingView, now: u64, timeout: u64)
    requires
        s.len() <= PENDING_PERMISSIONS_CAP,
        keys_distinct(s),
    ensures
        ({
            let t = inserted(s, e, now, timeout).0;
            &&& t.len() > 0 && t.last() == e
            &&& forall|i: int| 0 <= i < t.len() - 1 ==> !has_key(#[trigger] t[i], e.0, e.1)
            &&& t.len() <= PENDING_PERMISSIONS_CAP
            &&& keys_distinct(t)
            &&& pending(t, e.0, e.1)
        }),
{
    lemma_sweep(s, now, timeout);
    lemma_without_key(sweep(s, now, timeout), e.0, e.1);
    let before = without_key(sweep(s, now, timeout), e.0, e.1);
    let kept = before.push(e);
    let t = inserted(s, e, now, timeout).0;
    assert forall|y: PendingView| before.contains(y) implies !has_key(y, e.0, e.1) by {}
    lemma_push_distinct(before, e);
    assert forall|i: int| 0 <= i < t.len() - 1 implies !has_key(#[trigger] t[i], e.0, e.1) by {
        if kept.len() > PENDING_PERMISSIONS_CAP {
            assert(t[i] == before[i + 1]);
            assert(before.contains(before[i + 1]));
        } else {
            assert(t[i] == before[i]);
            assert(before.contains(before[i]));
        }
    }
    assert(t[t.len() - 1] == e);
    assert(has_key(t[t.len() - 1], e.0, e.1));
}

/// Pending requests are keyed by the pair (session id, permission id): a
/// request is pending exactly when a row carries both ids; removing a pair
/// keeps every request under another pair, and drops every row of that
/// pair; recording a request keeps every fresh request under another pair,
/// unless the cap drops it as the oldest.
pub proof fn lemma_requests_are_keyed_by_both_ids(
    v: Seq<PendingView>,
    sid: Seq<char>,
    pid: Seq<char>,
    x: PendingView,
    e: PendingView,
    now: u64,
    timeout: u64,
)
    ensures
        pending(v, sid, pid) <==> exists|i: int| 0 <= i < v.len() && (#[trigger] v[i]).0 == sid && v[i].1 == pid,
        v.contains(x) && (x.0 != sid || x.1 != pid) ==> without_key(v, sid, pid).contains(x),
        forall|k: int| 0 <= k < without_key(v, sid, pid).len()
            ==> !((#[trigger] without_key(v, sid, pid)[k]).0 == sid && without_key(v, sid, pid)[k].1 == pid),
        sweep(v, now, timeout).contains(x) && (x.0 != e.0 || x.1 != e.1)
            ==> inserted(v, e, now, timeout).0.contains(x) || inserted(v, e, now, timeout).1 == Some(x),
{
    lemma_without_key(v, sid, pid);
    if v.contains(x) && (x.0 != sid || x.1 != pid) {
        let i = choose|i: int| 0 <= i < v.len() && v[i] == x;
        assert(!has_key(v[i], sid, pid));
    }
    let w = without_key(v, sid, pid);
    assert forall|k: int| 0 <= k < w.len() implies !((#[trigger] w[k]).0 == sid && w[k].1 == pid) by {
        assert(w.contains(w[k]));
    }
    let sw = sweep(v, now, timeout);
    lemma_without_key(sw, e.0, e.1);
    if sw.contains(x) && (x.0 != e.0 || x.1 != e.1) {
        let i = choose|i: int| 0 <= i < sw.len() && sw[i] == x;
        assert(!has_key(sw[i], e.0, e.1));
        let before = without_key(sw, e.0, e.1);
        assert(before.contains(x));
        let j = choose|j: int| 0 <= j < before.len() && before[j] == x;
        let kept = before.push(e);
        assert(kept[j] == x);
        if kept.len() > PENDING_PERMISSIONS_CAP {
            if j > 0 {
                assert(kept.drop_first()[j - 1] == x);
            }
        } else {
            assert(kept.contains(x));
        }
    }
}

/// Expiry keeps exactly the requests observed less than the timeout ago,
/// in order, and never grows the buffer.
pub proof fn lemma_expiry_keeps_exactly_the_fresh(v: Seq<PendingView>, now: u64, timeout: u64, x: PendingView)
    ensures
        sweep(v, now, timeout).contains(x) <==> v.contains(x) && (now as int) - (x.4 as int) < timeout as int,
        sweep(v, now, timeout).len() <= v.len(),
{
    lemma_sweep(v, now, timeout);
    if v.contains(x) && (now as int) - (x.4 as int) < timeout as int {
        let i = choose|i: int| 0 <= i < v.len() && v[i] == x;
        assert(fresh(v[i], now, timeout));
    }
}

/// Removing a key leaves it no longer pending.
pub proof fn lemma_remove_then_absent(s: Seq<PendingView>, sid: Seq<char>, pid: Seq<char>)
    ensures
        !pending(without_key(s, sid, pid), sid, pid),
{
    lemma_without_key(s, sid, pid);
    let r = without_key(s, sid, pid);
    if pending(r, sid, pid) {
        let k = choose|k: int| 0 <= k < r.len() && has_key(#[trigger] r[k], sid, pid);
        assert(r.contains(r[k]));
    }
}

} // verus!
