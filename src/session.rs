//! Bookkeeping of web-socket sessions: when each session was last seen, keyed
//! by its id.

use vstd::prelude::*;

verus! {

/// What is kept of one session.
#[derive(Clone, Copy, Debug, PartialEq, Eq, Structural)]
pub struct SessionState {
    /// Time, in seconds, at which the session was last seen.
    pub last_seen: u64,
}

impl SessionState {
    /// The session was seen at or after `threshold`.
    pub fn is_fresh(&self, threshold: u64) -> (r: bool)
        ensures
            r == (self.last_seen >= threshold),
    {
        self.last_seen >= threshold
    }
}

/// The session table: a hash map from session id to session state.
#[verifier::external_body]
pub struct SessionStore {
    map: hashbrown::HashMap<String, SessionState>,
}

/// The sessions a store holds: for each id, when it was last seen.
pub uninterp spec fn session_table(s: SessionStore) -> Map<Seq<char>, u64>;

/// The empty table.
pub open spec fn no_sessions() -> Map<Seq<char>, u64> {
    Map::empty()
}

/// The ids in `m` last seen at or after `threshold`.
pub open spec fn fresh_ids(m: Map<Seq<char>, u64>, threshold: u64) -> Set<Seq<char>> {
    Set::new(|k: Seq<char>| m.contains_key(k) && m[k] >= threshold)
}

impl SessionStore {
    /// Relies on `hashbrown::HashMap::new`: the map starts empty.
    #[verifier::external_body]
    pub(crate) fn new() -> (r: SessionStore)
        ensures
            session_table(r) == no_sessions(),
    {
        SessionStore { map: hashbrown::HashMap::new() }
    }

    /// Relies on `hashbrown::HashMap::insert`: the id is bound to the new
    /// state, replacing any earlier one, and nothing else changes.
    #[verifier::external_body]
    pub(crate) fn insert(&mut self, id: String, state: SessionState)
        ensures
            session_table(*final(self)) == session_table(*old(self)).insert(id@, state.last_seen),
    {
        self.map.insert(id, state);
    }

    /// Relies on `hashbrown::HashMap::get`: the state bound to the id, if any.
    #[verifier::external_body]
    pub(crate) fn get(&self, id: &str) -> (r: Option<SessionState>)
        ensures
            r is Some <==> session_table(*self).contains_key(id@),
            r matches Some(s) ==> s.last_seen == session_table(*self)[id@],
    {
        self.map.get(id).copied()
    }

    /// Relies on `hashbrown::HashMap::remove`: the id is unbound, and the
    /// removed state is returned when there was one.
    #[verifier::external_body]
    pub(crate) fn remove(&mut self, id: &str) -> (r: Option<SessionState>)
        ensures
            r is Some <==> session_table(*old(self)).contains_key(id@),
            session_table(*final(self)) == session_table(*old(self)).remove(id@),
    {
        self.map.remove(id)
    }

    /// Relies on `hashbrown::HashMap::retain`: exactly the entries whose
    /// state was seen at or after `threshold` stay.
    #[verifier::external_body]
    pub(crate) fn retain_fresh(&mut self, threshold: u64)
        ensures
            session_table(*final(self)) == session_table(*old(self)).restrict(
                fresh_ids(session_table(*old(self)), threshold),
            ),
    {
        self.map.retain(|_id, s| s.is_fresh(threshold))
    }

    /// Relies on `hashbrown::HashMap::keys`: every bound id once, in the
    /// map's own order.
    #[verifier::external_body]
    pub(crate) fn ids(&self) -> (r: Vec<String>)
        ensures
            forall|i: int| 0 <= i < r@.len() ==> session_table(*self).contains_key(#[trigger] r@[i]@),
            forall|k: Seq<char>|
                #[trigger] session_table(*self).contains_key(k) ==> exists|i: int|
                    0 <= i < r@.len() && r@[i]@ == k,
            forall|i: int, j: int| 0 <= i < j < r@.len() ==> r@[i]@ != r@[j]@,
    {
        self.map.keys().cloned().collect()
    }
}

/// The sessions of the web-socket server.
pub struct SessionManager {
    store: SessionStore,
}

impl SessionManager {
    /// For each session id, when it was last seen.
    pub closed spec fn sessions(&self) -> Map<Seq<char>, u64> {
        session_table(self.store)
    }

    /// A manager with no session.
    pub fn new() -> (r: SessionManager)
        ensures
            r.sessions() == no_sessions(),
    {
        SessionManager { store: SessionStore::new() }
    }

    /// Records a session seen at `timestamp`, replacing any session with the
    /// same id.
    pub fn create_session(&mut self, session_id: String, timestamp: u64)
        ensures
            final(self).sessions() == old(self).sessions().insert(session_id@, timestamp),
    {
        self.store.insert(session_id, SessionState { last_seen: timestamp });
    }

    /// The state of a session, or `None` when there is no such session.
    pub fn get_session(&self, session_id: &str) -> (r: Option<SessionState>)
        ensures
            r is Some <==> self.sessions().contains_key(session_id@),
            r matches Some(s) ==> s.last_seen == self.sessions()[session_id@],
    {
        self.store.get(session_id)
    }

    /// Marks a session as seen at `timestamp`. Returns whether the session
    /// exists; an unknown id changes nothing.
    pub fn update_session(&mut self, session_id: &str, timestamp: u64) -> (r: bool)
        ensures
            r == old(self).sessions().contains_key(session_id@),
            r ==> final(self).sessions() == old(self).sessions().insert(session_id@, timestamp),
            !r ==> final(self).sessions() == old(self).sessions(),
    {
        if self.store.get(session_id).is_some() {
            self.store.insert(session_id.to_owned(), SessionState { last_seen: timestamp });
            true
        } else {
            false
        }
    }

    /// Removes a session. Returns whether there was one.
    pub fn remove_session(&mut self, session_id: &str) -> (r: bool)
        ensures
            r == old(self).sessions().contains_key(session_id@),
            final(self).sessions() == old(self).sessions().remove(session_id@),
    {
        let removed = self.store.remove(session_id);
        removed.is_some()
    }

    /// Removes every session last seen before `threshold`.
    pub fn purge_stale_sessions(&mut self, threshold: u64)
        ensures
            final(self).sessions() == old(self).sessions().restrict(
                fresh_ids(old(self).sessions(), threshold),
            ),
            forall|k: Seq<char>|
                #[trigger] final(self).sessions().contains_key(k) <==> (old(self).sessions().contains_key(k)
                    && old(self).sessions()[k] >= threshold),
    {
        self.store.retain_fresh(threshold);
    }

    /// The ids of all sessions, each once, in no particular order.
    pub fn list_sessions(&self) -> (r: Vec<String>)
        ensures
            forall|i: int| 0 <= i < r@.len() ==> self.sessions().contains_key(#[trigger] r@[i]@),
            forall|k: Seq<char>|
                #[trigger] self.sessions().contains_key(k) ==> exists|i: int|
                    0 <= i < r@.len() && r@[i]@ == k,
            forall|i: int, j: int| 0 <= i < j < r@.len() ==> r@[i]@ != r@[j]@,
    {
        self.store.ids()
    }
}

} // verus!
