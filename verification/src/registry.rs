//! The session registry of the protocol server: sessions by identity, and
//! the tokens that claim them.
//!
//! A token claims its session once: it is taken out of the index by the
//! first authentication that presents it, whether that succeeds or not.

use crate::ids::{base64_text, composed, generate_id};
use crate::protocol::{SessionInfo, SessionLifecycle, SessionRole};
use crate::sessions::copy_name;
use vstd::hash_map::StringHashMap;
use vstd::prelude::*;

verus! {

/// A session of the registry.
#[derive(Debug, Clone, PartialEq, Eq)]
pub struct Session {
    pub id: String,
    pub token: String,
    pub role: SessionRole,
    pub state: SessionLifecycle,
    pub display_name: Option<String>,
}

impl Session {
    /// The token that claims the session.
    pub fn token(&self) -> (r: &str)
        ensures
            r@ == self.token@,
    {
        self.token.as_str()
    }

    /// The identity of the session.
    pub fn id(&self) -> (r: &str)
        ensures
            r@ == self.id@,
    {
        self.id.as_str()
    }

    pub fn role(&self) -> (r: SessionRole)
        ensures
            r == self.role,
    {
        self.role
    }

    pub fn state(&self) -> (r: SessionLifecycle)
        ensures
            r == self.state,
    {
        self.state
    }

    pub fn display_name(&self) -> (r: Option<&str>)
        ensures
            match r {
                Some(n) => self.display_name matches Some(d) && n@ == d@,
                None => self.display_name is None,
            },
    {
        match &self.display_name {
            Some(n) => Some(n.as_str()),
            None => None,
        }
    }

    /// The session in another state of its life.
    pub open spec fn in_state(self, state: SessionLifecycle) -> Session {
        Session { state, ..self }
    }

    /// A copy of the session in another state of its life.
    fn with_state(&self, state: SessionLifecycle) -> (r: Session)
        ensures
            r == self.in_state(state),
    {
        Session {
            id: self.id.clone(),
            token: self.token.clone(),
            role: self.role,
            state,
            display_name: copy_name(&self.display_name),
        }
    }

    /// What a client is told of the session.
    pub open spec fn told(self, info: SessionInfo) -> bool {
        &&& info.id == self.id
        &&& info.role == self.role
        &&& info.display_name == self.display_name
        &&& info.state == self.state
    }

    /// What a client is told of the session.
    pub fn info(&self) -> (r: SessionInfo)
        ensures
            self.told(r),
    {
        SessionInfo {
            id: self.id.clone(),
            role: self.role,
            display_name: copy_name(&self.display_name),
            state: self.state,
        }
    }
}

/// The registry as mathematical data.
pub struct RegistryView {
    /// The sessions by identity.
    pub sessions: Map<Seq<char>, Session>,
    /// The identity of the session that each unused token claims.
    pub token_index: Map<Seq<char>, String>,
}

impl RegistryView {
    /// The registry after a pending session was filed.
    pub open spec fn with_pending(
        self,
        id: String,
        token: String,
        role: SessionRole,
        display_name: Option<String>,
    ) -> RegistryView {
        RegistryView {
            sessions: self.sessions.insert(
                id@,
                Session { id, token, role, state: SessionLifecycle::Pending, display_name },
            ),
            token_index: self.token_index.insert(token@, id),
        }
    }

    /// The session that a token claims, where the token is unused and its
    /// session is still pending.
    pub open spec fn claimed(self, token: Seq<char>) -> Option<Session> {
        if self.token_index.contains_key(token) && self.sessions.contains_key(
            self.token_index[token]@,
        ) && self.sessions[self.token_index[token]@].state == SessionLifecycle::Pending {
            Some(self.sessions[self.token_index[token]@])
        } else {
            None
        }
    }

    /// The registry after a token was presented: the token is used up, and
    /// the session it claims, where pending, is loading.
    pub open spec fn authenticated(self, token: Seq<char>) -> RegistryView {
        RegistryView {
            sessions: match self.claimed(token) {
                Some(s) => self.sessions.insert(
                    self.token_index[token]@,
                    s.in_state(SessionLifecycle::Loading),
                ),
                None => self.sessions,
            },
            token_index: self.token_index.remove(token),
        }
    }

    /// The registry after a session moved to another state of its life.
    pub open spec fn with_state(self, id: Seq<char>, state: SessionLifecycle) -> RegistryView {
        if self.sessions.contains_key(id) {
            RegistryView {
                sessions: self.sessions.insert(id, self.sessions[id].in_state(state)),
                ..self
            }
        } else {
            self
        }
    }
}

/// The registry.
pub struct SessionRegistry {
    sessions: StringHashMap<Session>,
    token_index: StringHashMap<String>,
    /// The identities in the order in which they were filed first.
    order: Vec<String>,
}

impl View for SessionRegistry {
    type V = RegistryView;

    closed spec fn view(&self) -> RegistryView {
        RegistryView { sessions: self.sessions@, token_index: self.token_index@ }
    }
}

impl SessionRegistry {
    /// The filing order after a session was filed under `id`.
    pub open spec fn filed_with(filed: Seq<Seq<char>>, id: Seq<char>) -> Seq<Seq<char>> {
        if filed.contains(id) {
            filed
        } else {
            filed.push(id)
        }
    }

    /// The identities in the order in which they were filed first.
    pub closed spec fn filed(&self) -> Seq<Seq<char>> {
        self.order@.map_values(|id: String| id@)
    }

    /// Every session of the registry is filed under the identity it has,
    /// and the order of filing lists the sessions.  A registry that was
    /// made by [`SessionRegistry::new`] is well formed and stays so.
    pub closed spec fn well_formed(&self) -> bool {
        &&& forall|k: Seq<char>|
            #![trigger self.sessions@.contains_key(k)]
            #![trigger self.filed().contains(k)]
            self.sessions@.contains_key(k) <==> self.filed().contains(k)
        &&& forall|k: Seq<char>|
            self.sessions@.contains_key(k) ==> (#[trigger] self.sessions@[k]).id@ == k
    }

    /// In a well-formed registry every session is filed under its own
    /// identity.
    pub proof fn lemma_filed_under_own_id(&self, k: Seq<char>)
        requires
            self.well_formed(),
            self@.sessions.contains_key(k),
        ensures
            self@.sessions[k].id@ == k,
    {
    }

    /// An empty registry.
    pub fn new() -> (r: SessionRegistry)
        ensures
            r@.sessions == Map::<Seq<char>, Session>::empty(),
            r@.token_index == Map::<Seq<char>, String>::empty(),
            r.filed() == Seq::<Seq<char>>::empty(),
            r.well_formed(),
    {
        let r = SessionRegistry {
            sessions: StringHashMap::new(),
            token_index: StringHashMap::new(),
            order: Vec::new(),
        };
        proof {
            assert(r.filed() =~= Seq::<Seq<char>>::empty());
        }
        r
    }

    /// Whether the identity is filed.
    fn is_filed(&self, id: &str) -> (r: bool)
        ensures
            r == self.filed().contains(id@),
    {
        let mut i: usize = 0;
        while i < self.order.len()
            invariant
                i <= self.order.len(),
                forall|j: int| 0 <= j < i ==> self.filed()[j] != id@,
            decreases self.order.len() - i,
        {
            if crate::protocol::text::same_text(self.order[i].as_str(), id) {
                proof {
                    assert(self.filed()[i as int] == id@);
                }
                return true;
            }
            i += 1;
        }
        false
    }

    /// Files a session under an identity, in the place of the one that was
    /// filed there.
    fn store(&mut self, id: String, session: Session)
        requires
            session.id@ == id@,
        ensures
            final(self)@ == (RegistryView {
                sessions: old(self)@.sessions.insert(id@, session),
                ..old(self)@
            }),
            final(self).filed() == SessionRegistry::filed_with(old(self).filed(), id@),
            old(self).well_formed() ==> final(self).well_formed(),
    {
        if !self.is_filed(id.as_str()) {
            self.order.push(id.clone());
        }
        self.sessions.insert(id, session);
        proof {
            let before = old(self).filed();
            let after = self.filed();
            assert(id@ == session.id@);
            if before.contains(session.id@) {
                assert(after =~= before);
            } else {
                assert(after =~= before.push(session.id@));
            }
            assert forall|k: Seq<char>| old(self).well_formed() implies (
            #[trigger] self.sessions@.contains_key(k) <==> self.filed().contains(k)) by {
                if !before.contains(session.id@) {
                    crate::seqs::lemma_push_member(before, session.id@, k);
                }
                assert(old(self).sessions@.contains_key(k) <==> before.contains(k));
            }
            assert forall|k: Seq<char>| old(self).well_formed() implies (
            self.filed().contains(k) ==> #[trigger] self.sessions@.contains_key(k)) by {
                if !before.contains(session.id@) {
                    crate::seqs::lemma_push_member(before, session.id@, k);
                }
                assert(old(self).sessions@.contains_key(k) <==> before.contains(k));
            }
        }
    }

    /// Puts a session in the place of the one that is filed under `id`.
    fn replace_at(&mut self, id: String, session: Session)
        requires
            old(self)@.sessions.contains_key(id@),
            session.id == old(self)@.sessions[id@].id,
            session.id@ != id@,
        ensures
            final(self)@ == (RegistryView {
                sessions: old(self)@.sessions.insert(id@, session),
                ..old(self)@
            }),
            final(self).filed() == old(self).filed(),
            old(self).well_formed() ==> final(self).well_formed(),
    {
        proof {
            if old(self).well_formed() {
                assert(old(self).sessions@[id@].id@ == id@);
            }
        }
        self.sessions.insert(id, session);
    }

    /// Files a pending session under its identity, and its identity under
    /// the token that claims it.
    pub fn insert_pending(
        &mut self,
        id: String,
        token: String,
        role: SessionRole,
        display_name: Option<String>,
    )
        ensures
            final(self)@ == old(self)@.with_pending(id, token, role, display_name),
            final(self).filed() == SessionRegistry::filed_with(old(self).filed(), id@),
            old(self).well_formed() ==> final(self).well_formed(),
    {
        let session = Session {
            id: id.clone(),
            token: token.clone(),
            role,
            state: SessionLifecycle::Pending,
            display_name,
        };
        self.token_index.insert(token, id.clone());
        self.store(id, session);
    }

    /// Presents a token.  The token is used up in any case.  Where it
    /// claims a pending session, that session is loading from now on and
    /// its identity is returned.
    pub fn authenticate_with_token(&mut self, token: &str) -> (r: Option<String>)
        ensures
            final(self)@ == old(self)@.authenticated(token@),
            old(self).well_formed() ==> final(self).well_formed() && final(self).filed() == old(self).filed(),
            match old(self)@.claimed(token@) {
                Some(s) => r == Some(s.id),
                None => r is None,
            },
    {
        let session_id = match self.token_index.get(token) {
            Some(id) => id.clone(),
            None => {
                proof {
                    assert(self.token_index@.remove(token@) =~= self.token_index@);
                }
                return None;
            },
        };
        self.token_index.remove(token);
        let updated = match self.sessions.get(session_id.as_str()) {
            Some(session) => {
                if session.state == SessionLifecycle::Pending {
                    session.with_state(SessionLifecycle::Loading)
                } else {
                    return None;
                }
            },
            None => {
                return None;
            },
        };
        let id = updated.id.clone();
        if !crate::protocol::text::same_text(id.as_str(), session_id.as_str()) {
            // The session is filed under another identity than its own:
            // it stays there.
            self.replace_at(session_id, updated);
            return Some(id);
        }
        self.store(session_id, updated);
        Some(id)
    }

    /// A key for the session that is filed under an identity.
    pub fn key_of(&self, session_id: &str) -> (r: String)
        ensures
            r@ == session_id@,
    {
        session_id.to_owned()
    }

    /// Moves a session to the end of its life.
    pub fn mark_consumed(&mut self, session_id: &str) -> (r: Option<SessionInfo>)
        ensures
            final(self)@ == old(self)@.with_state(session_id@, SessionLifecycle::Consumed),
            old(self).well_formed() ==> final(self).well_formed() && final(self).filed() == old(self).filed(),
            match r {
                Some(info) => final(self)@.sessions.contains_key(session_id@) && final(self)@.sessions[session_id@].told(info),
                None => !old(self)@.sessions.contains_key(session_id@),
            },
    {
        self.set_state(session_id, SessionLifecycle::Consumed)
    }

    /// The session filed under an identity.
    pub fn get(&self, session_id: &str) -> (r: Option<&Session>)
        ensures
            match r {
                Some(s) => self@.sessions.contains_key(session_id@) && *s
                    == self@.sessions[session_id@],
                None => !self@.sessions.contains_key(session_id@),
            },
    {
        self.sessions.get(session_id)
    }

    /// Whether a session is filed under the identity.
    pub fn contains(&self, session_id: &str) -> (r: bool)
        ensures
            r == self@.sessions.contains_key(session_id@),
    {
        self.sessions.contains_key(session_id)
    }

    /// What a client is told of the session filed under an identity.
    pub fn session_info(&self, session_id: &str) -> (r: Option<SessionInfo>)
        ensures
            match r {
                Some(info) => self@.sessions.contains_key(session_id@)
                    && self@.sessions[session_id@].told(info),
                None => !self@.sessions.contains_key(session_id@),
            },
    {
        match self.sessions.get(session_id) {
            Some(session) => Some(session.info()),
            None => None,
        }
    }

    /// The sessions, in the order in which they were filed first.
    pub fn iter(&self) -> (r: Vec<&Session>)
        requires
            self.well_formed(),
        ensures
            r@.len() == self.filed().len(),
            forall|i: int|
                0 <= i < r@.len() ==> self@.sessions.contains_key(self.filed()[i]) && *(
                #[trigger] r@[i]) == self@.sessions[self.filed()[i]],
            forall|i: int|
                0 <= i < r@.len() ==> self@.sessions.contains_key((#[trigger] r@[i]).id@)
                    && self@.sessions[r@[i].id@] == *r@[i],
            forall|k: Seq<char>|
                self@.sessions.contains_key(k) ==> exists|i: int|
                    0 <= i < r@.len() && *(#[trigger] r@[i]) == self@.sessions[k],
    {
        let mut out: Vec<&Session> = Vec::new();
        let mut i: usize = 0;
        while i < self.order.len()
            invariant
                i <= self.order.len(),
                self.well_formed(),
                out@.len() == i,
                forall|j: int|
                    0 <= j < i ==> self.sessions@.contains_key(self.filed()[j]) && *(
                    #[trigger] out@[j]) == self.sessions@[self.filed()[j]],
            decreases self.order.len() - i,
        {
            proof {
                assert(self.filed().contains(self.filed()[i as int]));
            }
            match self.sessions.get(self.order[i].as_str()) {
                Some(session) => {
                    out.push(session);
                },
                None => vstd::pervasive::unreached(),
            }
            i += 1;
        }
        proof {
            assert forall|k: Seq<char>| self@.sessions.contains_key(k) implies exists|i: int|
                0 <= i < out@.len() && *(#[trigger] out@[i]) == self@.sessions[k] by {
                assert(self.filed().contains(k));
                let j = choose|j: int| 0 <= j < self.filed().len() && self.filed()[j] == k;
                assert(*out@[j] == self.sessions@[k]);
            }
        }
        out
    }

    /// Mints a pending session with a fresh identity and a fresh token, and
    /// returns what a client is told of it, its identity and its token.
    pub fn create_pending(&mut self, role: SessionRole, display_name: Option<String>) -> (r: (
        SessionInfo,
        String,
        String,
    ))
        ensures
            final(self)@ == old(self)@.with_pending(r.1, r.2, role, display_name),
            final(self).filed() == SessionRegistry::filed_with(old(self).filed(), r.1@),
            old(self).well_formed() ==> final(self).well_formed(),
            final(self)@.sessions.contains_key(r.1@),
            final(self)@.sessions[r.1@].told(r.0),
            exists|a: Seq<u8>, b: Seq<u8>|
                a.len() == 16 && b.len() == 16 && r.1@ == #[trigger] composed(
                    "ses"@,
                    base64_text(a),
                    base64_text(b),
                ),
            exists|a: Seq<u8>, b: Seq<u8>|
                a.len() == 16 && b.len() == 16 && r.2@ == #[trigger] composed(
                    "tok"@,
                    base64_text(a),
                    base64_text(b),
                ),
    {
        let session_id = generate_id("ses");
        let token = generate_id("tok");
        self.insert_pending(session_id.clone(), token.clone(), role, display_name);
        let info = match self.session_info(session_id.as_str()) {
            Some(info) => info,
            None => vstd::pervasive::unreached(),
        };
        (info, session_id, token)
    }

    /// Moves a session to another state of its life, and returns what a
    /// client is told of it from now on.
    pub fn set_state(&mut self, session_id: &str, new_state: SessionLifecycle) -> (r: Option<
        SessionInfo,
    >)
        ensures
            final(self)@ == old(self)@.with_state(session_id@, new_state),
            old(self).well_formed() ==> final(self).well_formed() && final(self).filed() == old(self).filed(),
            match r {
                Some(info) => final(self)@.sessions.contains_key(session_id@) && final(self)@.sessions[session_id@].told(info),
                None => !old(self)@.sessions.contains_key(session_id@),
            },
    {
        let updated = match self.sessions.get(session_id) {
            Some(session) => session.with_state(new_state),
            None => {
                return None;
            },
        };
        let info = updated.info();
        if crate::protocol::text::same_text(updated.id.as_str(), session_id) {
            self.store(session_id.to_owned(), updated);
        } else {
            self.replace_at(session_id.to_owned(), updated);
        }
        Some(info)
    }
}

} // verus!
