//! Sessions as the control plane keeps them.

use crate::ids::{SessionId, Token};
use crate::protocol::{SessionInfo, SessionLifecycle, SessionRole};
use crate::table::Keyed;
use vstd::prelude::*;

verus! {

/// What a session may do.
#[derive(Clone, Copy, Debug, PartialEq, Eq, Structural)]
pub enum Role {
    Admin,
    Normal,
}

impl Role {
    /// The role as it is named on the wire.
    pub open spec fn on_wire(self) -> SessionRole {
        match self {
            Role::Admin => SessionRole::Admin,
            Role::Normal => SessionRole::Session,
        }
    }

    /// The role as it is named on the wire.
    pub fn to_protocol(self) -> (r: SessionRole)
        ensures
            r == self.on_wire(),
    {
        match self {
            Role::Admin => SessionRole::Admin,
            Role::Normal => SessionRole::Session,
        }
    }

    /// The role that the wire names.
    pub open spec fn of_protocol(role: SessionRole) -> Role {
        match role {
            SessionRole::Admin => Role::Admin,
            SessionRole::Session => Role::Normal,
        }
    }

    /// The role that the wire names.
    pub fn from_protocol(role: SessionRole) -> (r: Role)
        ensures
            r == Role::of_protocol(role),
    {
        match role {
            SessionRole::Admin => Role::Admin,
            SessionRole::Session => Role::Normal,
        }
    }
}

/// A copy of an optional name.
pub fn copy_name(name: &Option<String>) -> (r: Option<String>)
    ensures
        r == *name,
{
    match name {
        Some(n) => Some(n.clone()),
        None => None,
    }
}

/// A session that was minted and waits for a client to claim it.
#[derive(Debug, Clone, PartialEq, Eq)]
pub struct PendingSession {
    pub id: SessionId,
    pub role: Role,
    pub display_name: Option<String>,
}

/// A session that a client has claimed.
#[derive(Debug, Clone, PartialEq, Eq)]
pub struct Session {
    pub id: SessionId,
    pub role: Role,
    pub display_name: Option<String>,
    pub ready: bool,
}

impl PendingSession {
    /// A pending session of the given identity.
    pub fn with_id(id: SessionId, display_name: Option<String>, role: Role) -> (r: PendingSession)
        ensures
            r == (PendingSession { id, role, display_name }),
    {
        PendingSession { id, role, display_name }
    }

    /// Mints a pending session and the token that claims it.
    pub fn new(display_name: Option<String>, role: Role) -> (r: (Token, PendingSession))
        ensures
            r.1.role == role,
            r.1.display_name == display_name,
    {
        (Token::rand(), PendingSession { id: SessionId::rand(), role, display_name })
    }

    /// Mints a pending admin session and the token that claims it.
    pub fn admin(display_name: Option<String>) -> (r: (Token, PendingSession))
        ensures
            r.1.role == Role::Admin,
            r.1.display_name == display_name,
    {
        PendingSession::new(display_name, Role::Admin)
    }

    pub fn id(&self) -> (r: SessionId)
        ensures
            r == self.id,
    {
        self.id
    }

    pub fn role(&self) -> (r: Role)
        ensures
            r == self.role,
    {
        self.role
    }

    pub fn display_name(&self) -> (r: Option<&str>)
        ensures
            match r {
                Some(n) => self.display_name matches Some(d) && n@ == d@,
                None => self.display_name is None,
            },
    {
        match &self.display_name {
            Some(n) => Some(n.as_str()),
            None => None,
        }
    }

    /// The session that a client gets by claiming this one: loading, not
    /// ready yet.
    pub open spec fn promoted(self) -> Session {
        Session { id: self.id, role: self.role, display_name: self.display_name, ready: false }
    }

    /// Hands the session to the client that claimed it.
    pub fn promote(self) -> (r: Session)
        ensures
            r == self.promoted(),
    {
        Session { id: self.id, role: self.role, display_name: self.display_name, ready: false }
    }

    /// A copy of the session.
    pub fn duplicate(&self) -> (r: PendingSession)
        ensures
            r == *self,
    {
        PendingSession {
            id: self.id,
            role: self.role,
            display_name: copy_name(&self.display_name),
        }
    }

    /// What a client is told of the session.
    pub fn info(&self) -> (r: SessionInfo)
        ensures
            r.id@ == crate::ids::id_text("ses_"@, self.id.0),
            r.role == self.role.on_wire(),
            r.display_name == self.display_name,
            r.state == SessionLifecycle::Pending,
    {
        SessionInfo {
            id: self.id.to_text(),
            role: self.role.to_protocol(),
            display_name: copy_name(&self.display_name),
            state: SessionLifecycle::Pending,
        }
    }
}

impl Session {
    pub fn id(&self) -> (r: SessionId)
        ensures
            r == self.id,
    {
        self.id
    }

    pub fn role(&self) -> (r: Role)
        ensures
            r == self.role,
    {
        self.role
    }

    pub fn ready(&self) -> (r: bool)
        ensures
            r == self.ready,
    {
        self.ready
    }

    pub fn display_name(&self) -> (r: Option<&str>)
        ensures
            match r {
                Some(n) => self.display_name matches Some(d) && n@ == d@,
                None => self.display_name is None,
            },
    {
        match &self.display_name {
            Some(n) => Some(n.as_str()),
            None => None,
        }
    }

    /// Where the session stands in its life: occupied once ready, loading
    /// before.
    pub fn lifecycle(&self) -> (r: SessionLifecycle)
        ensures
            r == if self.ready {
                SessionLifecycle::Occupied
            } else {
                SessionLifecycle::Loading
            },
    {
        if self.ready {
            SessionLifecycle::Occupied
        } else {
            SessionLifecycle::Loading
        }
    }

    /// A copy of the session.
    pub fn duplicate(&self) -> (r: Session)
        ensures
            r == *self,
    {
        Session {
            id: self.id,
            role: self.role,
            display_name: copy_name(&self.display_name),
            ready: self.ready,
        }
    }

    /// What a client is told of the session.
    pub fn info(&self) -> (r: SessionInfo)
        ensures
            r.id@ == crate::ids::id_text("ses_"@, self.id.0),
            r.role == self.role.on_wire(),
            r.display_name == self.display_name,
            r.state == if self.ready {
                SessionLifecycle::Occupied
            } else {
                SessionLifecycle::Loading
            },
    {
        SessionInfo {
            id: self.id.to_text(),
            role: self.role.to_protocol(),
            display_name: copy_name(&self.display_name),
            state: self.lifecycle(),
        }
    }
}

impl Keyed for Session {
    type Key = SessionId;

    type Name = SessionId;

    open spec fn name_of(key: &SessionId) -> SessionId {
        *key
    }

    open spec fn key(&self) -> SessionId {
        self.id
    }

    fn id(&self) -> (r: SessionId) {
        self.id
    }

    fn has_key(&self, key: &SessionId) -> (r: bool) {
        self.id == *key
    }
}

/// A pending session under the token that claims it.
#[derive(Debug, Clone, PartialEq, Eq)]
pub struct PendingEntry {
    pub token: Token,
    pub session: PendingSession,
}

impl Keyed for PendingEntry {
    type Key = Token;

    type Name = Token;

    open spec fn name_of(key: &Token) -> Token {
        *key
    }

    open spec fn key(&self) -> Token {
        self.token
    }

    fn id(&self) -> (r: Token) {
        self.token
    }

    fn has_key(&self, key: &Token) -> (r: bool) {
        self.token == *key
    }
}

} // verus!
