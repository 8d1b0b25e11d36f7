//! Active client sessions and the concurrent table that tracks them.

use vstd::prelude::*;

use crate::bridge;

verus! {

/// Information about one active client session.
#[derive(Debug, Clone, Copy, PartialEq, Eq, Structural)]
pub struct SessionInfo {
    /// Unique session identifier.
    pub id: u128,
    /// When the session was started, in milliseconds since the Unix epoch.
    pub started_at: i64,
    /// Number of requests processed in this session.
    pub request_count: u64,
    /// Last activity, in milliseconds since the Unix epoch.
    pub last_activity: i64,
}

impl SessionInfo {
    /// A fresh session with a random identifier and the current time as both
    /// its start and its last activity.
    pub fn new() -> (r: Self)
        ensures
            r.request_count == 0,
            r.last_activity == r.started_at,
    {
        let now = bridge::now_millis();
        SessionInfo { id: bridge::uuid_new_v4(), started_at: now, request_count: 0, last_activity: now }
    }

    /// Records one request at the given time.
    pub fn touch(&mut self, now_ms: i64)
        requires
            old(self).request_count < u64::MAX,
        ensures
            final(self).id == old(self).id,
            final(self).started_at == old(self).started_at,
            final(self).request_count == old(self).request_count + 1,
            final(self).last_activity == now_ms,
    {
        self.last_activity = now_ms;
        self.request_count = self.request_count + 1;
    }

    /// Records one request at the current time.
    pub fn update_activity(&mut self)
        requires
            old(self).request_count < u64::MAX,
        ensures
            final(self).id == old(self).id,
            final(self).started_at == old(self).started_at,
            final(self).request_count == old(self).request_count + 1,
    {
        let now = bridge::now_millis();
        self.touch(now);
    }
}

/// The bindings a session map currently holds.
pub uninterp spec fn session_map_of(m: &dashmap::DashMap<u128, SessionInfo>) -> Map<
    u128,
    SessionInfo,
>;

/// Relies on `dashmap::DashMap::new`: an empty map.
#[verifier::external_body]
fn dm_sessions_new() -> (r: dashmap::DashMap<u128, SessionInfo>)
    ensures
        session_map_of(&r).dom() == Set::<u128>::empty(),
{
    dashmap::DashMap::new()
}

/// Relies on `dashmap::DashMap::insert`: binds `k` to `v` and returns the
/// binding it replaced, if any.
#[verifier::external_body]
fn dm_sessions_insert(
    m: &mut dashmap::DashMap<u128, SessionInfo>,
    k: u128,
    v: SessionInfo,
) -> (r: Option<SessionInfo>)
    ensures
        session_map_of(final(m)) == session_map_of(old(m)).insert(k, v),
        match r {
            Some(prev) => session_map_of(old(m)).contains_key(k) && prev == session_map_of(
                old(m),
            )[k],
            None => !session_map_of(old(m)).contains_key(k),
        },
{
    m.insert(k, v)
}

/// Relies on `dashmap::DashMap::get`: the binding of `k`, if any.
#[verifier::external_body]
fn dm_sessions_get(m: &dashmap::DashMap<u128, SessionInfo>, k: u128) -> (r: Option<SessionInfo>)
    ensures
        match r {
            Some(v) => session_map_of(m).contains_key(k) && v == session_map_of(m)[k],
            None => !session_map_of(m).contains_key(k),
        },
{
    m.get(&k).map(|entry| *entry.value())
}

/// Relies on `dashmap::DashMap::remove`: unbinds `k` and returns the binding
/// it removed, if any.
#[verifier::external_body]
fn dm_sessions_remove(m: &mut dashmap::DashMap<u128, SessionInfo>, k: u128) -> (r: Option<
    SessionInfo,
>)
    ensures
        session_map_of(final(m)) == session_map_of(old(m)).remove(k),
        match r {
            Some(prev) => session_map_of(old(m)).contains_key(k) && prev == session_map_of(
                old(m),
            )[k],
            None => !session_map_of(old(m)).contains_key(k),
        },
{
    m.remove(&k).map(|(_, v)| v)
}

/// Relies on `dashmap::DashMap::len`: the number of bindings.
#[verifier::external_body]
fn dm_sessions_len(m: &dashmap::DashMap<u128, SessionInfo>) -> (r: usize)
    ensures
        r == session_map_of(m).dom().len(),
{
    m.len()
}

/// Relies on `dashmap::DashMap::iter`: every binding the map holds, in an
/// unspecified order.
#[verifier::external_body]
fn dm_sessions_entries(m: &dashmap::DashMap<u128, SessionInfo>) -> (r: Vec<(u128, SessionInfo)>)
    ensures
        r@.len() == session_map_of(m).dom().len(),
        forall|i: int|
            0 <= i < r@.len() ==> session_map_of(m).contains_pair(
                (#[trigger] r@[i]).0,
                r@[i].1,
            ),
        forall|k: u128|
            session_map_of(m).contains_key(k) ==> exists|i: int|
                0 <= i < r@.len() && (#[trigger] r@[i]).0 == k,
{
    m.iter().map(|entry| (*entry.key(), *entry.value())).collect()
}

/// Whether a session value is bound under some identifier.
pub open spec fn spec_appears_in(m: Map<u128, SessionInfo>, s: SessionInfo) -> bool {
    exists|k: u128| m.contains_pair(k, s)
}

/// Concurrent map of session identifier to session metadata.
///
/// Backed by `dashmap::DashMap`, so concurrent updates to different keys do
/// not block each other and updates to the same key are serialized.
#[derive(Debug)]
pub struct SessionTable {
    inner: dashmap::DashMap<u128, SessionInfo>,
}

impl View for SessionTable {
    type V = Map<u128, SessionInfo>;

    closed spec fn view(&self) -> Map<u128, SessionInfo> {
        session_map_of(&self.inner)
    }
}

impl SessionTable {
    /// An empty table.
    pub fn new() -> (r: Self)
        ensures
            r@ == Map::<u128, SessionInfo>::empty(),
    {
        let r = SessionTable { inner: dm_sessions_new() };
        proof {
            assert(r@ =~= Map::<u128, SessionInfo>::empty());
        }
        r
    }

    /// Binds `id` to `record`, replacing any earlier binding.
    pub fn upsert(&mut self, id: u128, record: SessionInfo)
        ensures
            final(self)@ == old(self)@.insert(id, record),
    {
        let _ = dm_sessions_insert(&mut self.inner, id, record);
    }

    /// The session bound to `id`, if any.
    pub fn get(&self, id: u128) -> (r: Option<SessionInfo>)
        ensures
            match r {
                Some(v) => self@.contains_key(id) && v == self@[id],
                None => !self@.contains_key(id),
            },
    {
        dm_sessions_get(&self.inner, id)
    }

    /// Whether a session with this identifier is tracked.
    pub fn contains_key(&self, id: u128) -> (r: bool)
        ensures
            r == self@.contains_key(id),
    {
        dm_sessions_get(&self.inner, id).is_some()
    }

    /// Removes the binding of `id`, returning the removed session, if any.
    pub fn remove(&mut self, id: u128) -> (r: Option<SessionInfo>)
        ensures
            final(self)@ == old(self)@.remove(id),
            match r {
                Some(prev) => old(self)@.contains_key(id) && prev == old(self)@[id],
                None => !old(self)@.contains_key(id),
            },
    {
        dm_sessions_remove(&mut self.inner, id)
    }

    /// Number of tracked sessions.
    pub fn len(&self) -> (r: usize)
        ensures
            r == self@.dom().len(),
    {
        dm_sessions_len(&self.inner)
    }

    /// Records one request for the session bound to `id`, at the given time;
    /// does nothing when no such session is tracked.
    pub fn update_in_place(&mut self, id: u128, now_ms: i64)
        ensures
            !old(self)@.contains_key(id) ==> final(self)@ == old(self)@,
            old(self)@.contains_key(id) && old(self)@[id].request_count < u64::MAX ==> {
                let prev = old(self)@[id];
                final(self)@ == old(self)@.insert(
                    id,
                    SessionInfo {
                        request_count: (prev.request_count + 1) as u64,
                        last_activity: now_ms,
                        ..prev
                    },
                )
            },
            old(self)@.contains_key(id) && old(self)@[id].request_count == u64::MAX ==> final(self)@
                == old(self)@,
    {
        match dm_sessions_get(&self.inner, id) {
            Some(mut record) => {
                if record.request_count < u64::MAX {
                    record.touch(now_ms);
                    let _ = dm_sessions_insert(&mut self.inner, id, record);
                }
            },
            None => {},
        }
    }

    /// Point-in-time copy of every tracked session, safe to iterate while
    /// writers go on; the order is unspecified.
    pub fn snapshot(&self) -> (r: Vec<SessionInfo>)
        ensures
            r@.len() == self@.dom().len(),
            forall|i: int| 0 <= i < r@.len() ==> spec_appears_in(self@, #[trigger] r@[i]),
    {
        let entries = dm_sessions_entries(&self.inner);
        let mut r: Vec<SessionInfo> = Vec::new();
        let mut i: usize = 0;
        while i < entries.len()
            invariant
                i <= entries@.len(),
                r@.len() == i,
                forall|j: int|
                    0 <= j < entries@.len() ==> self@.contains_pair(
                        (#[trigger] entries@[j]).0,
                        entries@[j].1,
                    ),
                forall|j: int| 0 <= j < i ==> spec_appears_in(self@, #[trigger] r@[j]),
            decreases entries@.len() - i,
        {
            let entry = entries[i];
            r.push(entry.1);
            proof {
                assert(self@.contains_pair(entries@[i as int].0, r@[i as int]));
                assert(spec_appears_in(self@, r@[i as int]));
            }
            i = i + 1;
        }
        r
    }
}

} // verus!
