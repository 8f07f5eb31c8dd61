//! Per-VM-lifetime plugin state: the live ACP session each client-facing
//! session id has been resumed into, and the permission requests still
//! waiting for an answer on that VM.
use vstd::prelude::*;

use crate::plugin::permissions::{PendingPermissions, PendingView};
use crate::strmap::{distinct_keys, key_index, pairs_insert, StringMap};

verus! {

/// The plugin's per-VM state that the logic reads: the map from external
/// (client-facing) session ids to live ACP session ids, and the buffer of
/// pending permission requests, whose answers die with the VM. It is rebuilt
/// with each VM and never persisted; the VM's pump tasks are held beside it
/// by the caller.
pub struct Vars {
    pub live_sessions: StringMap,
    pub pending_permissions: PendingPermissions,
}

/// The live session id of a client-facing one: its remap, or the id itself
/// when it was never resumed into another (a native session).
pub open spec fn live_session_id(live_sessions: Seq<(Seq<char>, Seq<char>)>, external: Seq<char>) -> Seq<char> {
    match key_index(live_sessions, external) {
        Some(i) => live_sessions[i].1,
        None => external,
    }
}

impl Vars {
    /// No remapped sessions and no pending permission request; requests
    /// expire `permission_timeout_ms` after they were observed.
    pub fn new(permission_timeout_ms: u64) -> (v: Vars)
        ensures
            v.live_sessions@.len() == 0,
            v.pending_permissions.pending_view() == Seq::<PendingView>::empty(),
            v.pending_permissions.timeout() == permission_timeout_ms,
    {
        Vars { live_sessions: StringMap::new(), pending_permissions: PendingPermissions::new(permission_timeout_ms) }
    }

    /// The live ACP session id of a client-facing session id.
    pub fn live_id<'a>(&'a self, external_session_id: &'a str) -> (r: &'a str)
        ensures
            r@ == live_session_id(self.live_sessions@, external_session_id@),
    {
        match self.live_sessions.get(external_session_id) {
            Some(live) => live.as_str(),
            None => external_session_id,
        }
    }

    /// Forgets every remap and drops every pending permission request; the
    /// caller aborts the VM's pump tasks with it.
    pub fn clear(&mut self)
        ensures
            final(self).live_sessions@.len() == 0,
            final(self).pending_permissions.pending_view() == Seq::<PendingView>::empty(),
            final(self).pending_permissions.timeout() == old(self).pending_permissions.timeout(),
    {
        self.live_sessions.clear();
        self.pending_permissions.clear();
    }
}

/// A session remapped to a live id resolves to that id, and a session with
/// no remap resolves to itself.
pub proof fn lemma_resolve_after_remap(live_sessions: Seq<(Seq<char>, Seq<char>)>, external: Seq<char>, live: Seq<char>)
    requires
        distinct_keys(live_sessions),
    ensures
        live_session_id(pairs_insert(live_sessions, external, live), external) == live,
        live_session_id(Seq::<(Seq<char>, Seq<char>)>::empty(), external) == external,
{
    let p = pairs_insert(live_sessions, external, live);
    match key_index(live_sessions, external) {
        Some(i) => {
            assert(p[i].0 == external);
            let k = choose|k: int| 0 <= k < p.len() && p[k].0 == external;
            if k != i {
                assert(p[k] == live_sessions[k]);
                if k < i {
                    assert(live_sessions[k].0 != live_sessions[i].0);
                } else {
                    assert(live_sessions[i].0 != live_sessions[k].0);
                }
            }
        },
        None => {
            assert(p[live_sessions.len() as int].0 == external);
            let k = choose|k: int| 0 <= k < p.len() && p[k].0 == external;
            if k < live_sessions.len() {
                assert(live_sessions[k].0 == external);
            }
        },
    }
}

} // verus!
