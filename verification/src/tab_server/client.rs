//! One client of the protocol server: what it has authenticated as, and
//! what the messages it sends come to.
//!
//! The client owns no socket here.  A message is answered with replies for
//! the caller to send to this client, and with events for the server to
//! dispatch.

use crate::protocol::message::TabMessage;
use crate::protocol::text::same_text;
use crate::protocol::{
    AuthErrorPayload, AuthOkPayload, BufferRequestPayload, ErrorPayload, MonitorInfo,
    SessionCreatePayload, SessionCreatedPayload, SessionInfo, SessionLifecycle,
    SessionReadyPayload, SessionRole, SessionSwitchPayload,
};
use crate::registry::{RegistryView, SessionRegistry};
use crate::sessions::copy_name;
use vstd::prelude::*;

verus! {

/// What a client has authenticated as.
#[derive(Debug, Clone, PartialEq, Eq)]
pub struct ClientSession {
    pub authenticated: bool,
    pub token: Option<String>,
    pub session_id: Option<String>,
    pub role: Option<SessionRole>,
}

impl ClientSession {
    /// A client that has not authenticated.
    pub fn new() -> (r: ClientSession)
        ensures
            r == (ClientSession { authenticated: false, token: None, session_id: None, role: None }),
    {
        ClientSession { authenticated: false, token: None, session_id: None, role: None }
    }
}

/// What a message of a client asks the server to do.
#[derive(Debug, Clone, PartialEq, Eq)]
pub enum ServerEvent<Texture> {
    /// Tell the admin clients of a session, but for the one named.
    SessionState { session: SessionInfo, exclude_client_id: Option<String> },
    /// Link the two buffers of a session on a monitor.
    FramebufferLinked { monitor_id: String, session_id: String, buffers: [Texture; 2] },
    /// Show another session.
    SessionSwitch(SessionSwitchPayload),
    /// Present a buffer of a session.
    SwapBuffers { session_id: String, payload: BufferRequestPayload },
}

/// What handling a message came to.
#[derive(Debug, Clone, PartialEq, Eq)]
pub struct Handled<Texture> {
    /// For the server to dispatch, in order.
    pub events: Vec<ServerEvent<Texture>>,
    /// For the caller to send to the client, in order.
    pub replies: Vec<TabMessage>,
}

/// A copy of what a client is told of a monitor.
pub fn copy_monitor_info(info: &MonitorInfo) -> (r: MonitorInfo)
    ensures
        r == *info,
{
    MonitorInfo {
        id: info.id.clone(),
        width: info.width,
        height: info.height,
        refresh_rate: info.refresh_rate,
        name: info.name.clone(),
    }
}

/// A copy of what a client is told of a session.
pub fn copy_session_info(info: &SessionInfo) -> (r: SessionInfo)
    ensures
        r == *info,
{
    SessionInfo {
        id: info.id.clone(),
        role: info.role,
        display_name: copy_name(&info.display_name),
        state: info.state,
    }
}

/// A copy of a list of monitors.
pub fn copy_monitor_infos(list: &Vec<MonitorInfo>) -> (r: Vec<MonitorInfo>)
    ensures
        r@ == list@,
{
    let mut out: Vec<MonitorInfo> = Vec::new();
    let mut i: usize = 0;
    while i < list.len()
        invariant
            i <= list.len(),
            out@ == list@.take(i as int),
        decreases list.len() - i,
    {
        out.push(copy_monitor_info(&list[i]));
        proof {
            assert(list@.take(i + 1) =~= list@.take(i as int).push(list@[i as int]));
        }
        i += 1;
    }
    proof {
        assert(list@.take(list.len() as int) =~= list@);
    }
    out
}

/// An error for the client.
fn error_reply(code: &str, message: &str) -> (r: TabMessage)
    ensures
        r matches TabMessage::Error(p) && p.code@ == code@ && (p.message matches Some(m) && m@
            == message@),
{
    TabMessage::Error(ErrorPayload { code: code.to_owned(), message: Some(message.to_owned()) })
}

/// Whether `r` is the error with this code and these words.
pub open spec fn is_error(r: TabMessage, code: Seq<char>, message: Seq<char>) -> bool {
    r matches TabMessage::Error(p) && p.code@ == code && (p.message matches Some(m) && m@ == message)
}

/// Why a client may not report its session ready: the code and the words
/// of the error; nothing where it may.
pub open spec fn ready_refusal(client: Client, filed: RegistryView, session_id: Seq<char>) -> Option<
    (Seq<char>, Seq<char>),
> {
    if !client.session.authenticated {
        Some(("not_authenticated"@, "Authenticate first"@))
    } else if client.session.role != Some(SessionRole::Session) {
        Some(("invalid_role"@, "Only session clients may send session_ready"@))
    } else if client.session.session_id is None {
        Some(("unknown_session"@, "Server missing session id"@))
    } else if client.session.session_id->0@ != session_id {
        Some(("session_mismatch"@, "Session id mismatch"@))
    } else if !filed.sessions.contains_key(session_id) {
        Some(("unknown_session"@, "Session not found"@))
    } else {
        None
    }
}

/// Why a client may not create a session: the code and the words of the
/// error; nothing where it may.
pub open spec fn create_refusal(client: Client) -> Option<(Seq<char>, Seq<char>)> {
    if !client.session.authenticated {
        Some(("not_authenticated"@, "Authenticate first"@))
    } else if client.session.role != Some(SessionRole::Admin) {
        Some(("not_admin"@, "Only admin sessions may create sessions"@))
    } else {
        None
    }
}

/// The registry after the token was presented and, where it claims an admin
/// session, that session was occupied at once.
pub open spec fn claimed_by(filed: RegistryView, token: Seq<char>) -> RegistryView {
    match filed.claimed(token) {
        Some(claimed) => if claimed.role == SessionRole::Admin {
            filed.authenticated(token).with_state(claimed.id@, SessionLifecycle::Occupied)
        } else {
            filed.authenticated(token)
        },
        None => filed.authenticated(token),
    }
}

/// Whether `r` is what the client `before` makes of `message`, with the
/// registry `filed`, and leaves the client as `after` and the registry as
/// `kept`.
pub open spec fn handles<Texture>(
    before: Client,
    filed: RegistryView,
    message: TabMessage,
    monitors: Seq<MonitorInfo>,
    loaded: Option<[Texture; 2]>,
    after: Client,
    kept: RegistryView,
    r: Handled<Texture>,
) -> bool {
    &&& after.id == before.id
    &&& match message {
        TabMessage::Auth(payload) => kept == claimed_by(filed, payload.token@) && r.replies@.len()
            == 1 && (match filed.claimed(payload.token@) {
            None => after.session == before.session && r.events@.len() == 0 && (
            r.replies@[0] matches TabMessage::AuthError(p) && p.error@
                == "Unknown or expired token "@ + payload.token@),
            Some(claimed) => after.session == (ClientSession {
                authenticated: true,
                token: Some(payload.token),
                session_id: Some(claimed.id),
                role: Some(claimed.role),
            }) && (r.replies@[0] matches TabMessage::AuthOk(p) && p.monitors@ == monitors
                && kept.sessions[claimed.id@].told(p.session) && r.events@ == seq![
                ServerEvent::<Texture>::SessionState { session: p.session, exclude_client_id: None },
            ]),
        }),
        TabMessage::SessionReady(payload) => after.session == before.session && (match ready_refusal(
            before,
            filed,
            payload.session_id@,
        ) {
            Some(why) => kept == filed && r.events@.len() == 0 && r.replies@.len() == 1
                && is_error(r.replies@[0], why.0, why.1),
            None => kept == filed.with_state(payload.session_id@, SessionLifecycle::Occupied)
                && r.replies@.len() == 0 && r.events@.len() == 1 && (
            r.events@[0] matches ServerEvent::SessionState { session, exclude_client_id }
                && exclude_client_id is None && kept.sessions[payload.session_id@].told(session)),
        }),
        TabMessage::SessionCreate(payload) => after.session == before.session && r.replies@.len()
            == 1 && (match create_refusal(before) {
            Some(why) => kept == filed && r.events@.len() == 0 && is_error(
                r.replies@[0],
                why.0,
                why.1,
            ),
            None => r.replies@[0] matches TabMessage::SessionCreated(p) && kept
                == filed.with_pending(p.session.id, p.token, payload.role, payload.display_name)
                && p.session.role == payload.role && p.session.display_name == payload.display_name
                && p.session.state == SessionLifecycle::Pending && r.events@ == seq![
                ServerEvent::<Texture>::SessionState {
                    session: p.session,
                    exclude_client_id: Some(before.id),
                },
            ],
        }),
        TabMessage::FramebufferLink { payload, dma_bufs } => after.session == before.session
            && kept == filed && r.replies@.len() == 0 && r.events@ == (match (
            before.session.session_id,
            loaded,
        ) {
            (Some(session_id), Some(buffers)) => seq![
                ServerEvent::FramebufferLinked {
                    monitor_id: payload.monitor_id,
                    session_id,
                    buffers,
                },
            ],
            _ => Seq::empty(),
        }),
        TabMessage::SessionSwitch(switch) => after.session == before.session && kept == filed
            && r.replies@.len() == 0 && r.events@ == seq![
            ServerEvent::<Texture>::SessionSwitch(switch),
        ],
        TabMessage::BufferRequest { payload, acquire_fence } => after.session == before.session
            && kept == filed && r.replies@.len() == 0 && r.events@ == (
        match before.session.session_id {
            Some(session_id) => seq![ServerEvent::<Texture>::SwapBuffers { session_id, payload }],
            None => Seq::empty(),
        }),
        _ => after.session == before.session && kept == filed && r.replies@.len() == 0
            && r.events@.len() == 0,
    }
}

/// A client of the protocol server.
#[derive(Debug, Clone, PartialEq, Eq)]
pub struct Client {
    pub id: String,
    pub session: ClientSession,
}

impl Client {
    /// A client that just connected.
    pub fn with_id(id: String) -> (r: Client)
        ensures
            r.id == id,
            r.session == (ClientSession {
                authenticated: false,
                token: None,
                session_id: None,
                role: None,
            }),
    {
        Client { id, session: ClientSession::new() }
    }

    /// A client that just connected; its identity is `cli_` and the base64 text of two random UUIDs.
    pub fn new() -> (r: Client)
        ensures
            r.session == (ClientSession {
                authenticated: false,
                token: None,
                session_id: None,
                role: None,
            }),
            exists|a: Seq<u8>, b: Seq<u8>|
                a.len() == 16 && b.len() == 16 && r.id@ == #[trigger] crate::ids::composed(
                    "cli"@,
                    crate::ids::base64_text(a),
                    crate::ids::base64_text(b),
                ),
    {
        Client::with_id(crate::ids::generate_id("cli"))
    }

    /// Whether handling the message takes the textures of the two buffers
    /// that came with it: a framebuffer link of a client that is bound to
    /// a session.
    pub fn needs_textures(&self, message: &TabMessage) -> (r: bool)
        ensures
            r == (message is FramebufferLink && self.session.session_id is Some),
    {
        match message {
            TabMessage::FramebufferLink { .. } => self.session.session_id.is_some(),
            _ => false,
        }
    }

    /// The client presents a token.
    fn handle_auth(
        &mut self,
        token: String,
        sessions: &mut SessionRegistry,
        monitors: &Vec<MonitorInfo>,
    ) -> (r: (Option<SessionInfo>, TabMessage))
        requires
            old(sessions).well_formed(),
        ensures
            final(self).id == old(self).id,
            final(sessions).well_formed(),
            match old(sessions)@.claimed(token@) {
                None => {
                    &&& final(self).session == old(self).session
                    &&& final(sessions)@ == old(sessions)@.authenticated(token@)
                    &&& r.0 is None
                    &&& r.1 matches TabMessage::AuthError(p) && p.error@
                        == "Unknown or expired token "@ + token@
                },
                Some(claimed) => {
                    let loading = old(sessions)@.authenticated(token@);
                    let key = claimed.id@;
                    let told = if claimed.role == SessionRole::Admin {
                        loading.with_state(key, SessionLifecycle::Occupied)
                    } else {
                        loading
                    };
                    &&& final(sessions)@ == told
                    &&& final(self).session.authenticated
                    &&& final(self).session.token == Some(token)
                    &&& final(self).session.session_id == Some(claimed.id)
                    &&& final(self).session.role == Some(claimed.role)
                    &&& r.0 matches Some(info) && told.sessions[key].told(info)
                    &&& r.1 matches TabMessage::AuthOk(p) && p.session == r.0->0 && p.monitors@
                        == monitors@
                },
            },
    {
        let session_id = match sessions.authenticate_with_token(token.as_str()) {
            Some(id) => id,
            None => {
                let mut message = "Unknown or expired token ".to_owned();
                message.append(token.as_str());
                return (None, TabMessage::AuthError(AuthErrorPayload { error: message }));
            },
        };
        proof {
            old(sessions).lemma_filed_under_own_id(old(sessions)@.token_index[token@]@);
        }
        self.session.authenticated = true;
        self.session.token = Some(token);
        self.session.session_id = Some(session_id.clone());
        let key = sessions.key_of(session_id.as_str());
        let mut info = match sessions.session_info(key.as_str()) {
            Some(info) => info,
            None => vstd::pervasive::unreached(),
        };
        if info.role == SessionRole::Admin {
            match sessions.set_state(key.as_str(), SessionLifecycle::Occupied) {
                Some(updated) => {
                    info = updated;
                },
                None => {},
            }
        }
        self.session.role = Some(info.role);
        let reply = TabMessage::AuthOk(
            AuthOkPayload {
                session: copy_session_info(&info),
                monitors: copy_monitor_infos(monitors),
            },
        );
        (Some(info), reply)
    }

    /// An admin client asks for a session.
    fn handle_session_create(
        &mut self,
        payload: SessionCreatePayload,
        sessions: &mut SessionRegistry,
    ) -> (r: (Option<SessionInfo>, TabMessage))
        ensures
            *final(self) == *old(self),
            old(sessions).well_formed() ==> final(sessions).well_formed(),
            if !old(self).session.authenticated {
                &&& r.0 is None
                &&& is_error(r.1, "not_authenticated"@, "Authenticate first"@)
                &&& final(sessions)@ == old(sessions)@
            } else if old(self).session.role != Some(SessionRole::Admin) {
                &&& r.0 is None
                &&& is_error(r.1, "not_admin"@, "Only admin sessions may create sessions"@)
                &&& final(sessions)@ == old(sessions)@
            } else {
                &&& r.0 matches Some(info) && info.role == payload.role && info.display_name
                    == payload.display_name && info.state == SessionLifecycle::Pending
                    && final(sessions)@.sessions.contains_key(info.id@)
                &&& r.1 matches TabMessage::SessionCreated(p) && p.session == r.0->0
                    && final(sessions)@ == old(sessions)@.with_pending(
                    p.session.id,
                    p.token,
                    payload.role,
                    payload.display_name,
                )
            },
    {
        if !self.session.authenticated {
            return (None, error_reply("not_authenticated", "Authenticate first"));
        }
        let admin = match self.session.role {
            Some(SessionRole::Admin) => true,
            _ => false,
        };
        if !admin {
            return (None, error_reply("not_admin", "Only admin sessions may create sessions"));
        }
        let (session_info, _session_id, token) = sessions.create_pending(
            payload.role,
            payload.display_name,
        );
        let reply = TabMessage::SessionCreated(
            SessionCreatedPayload { session: copy_session_info(&session_info), token },
        );
        (Some(session_info), reply)
    }

    /// A session client reports that it is ready.
    fn handle_session_ready(&mut self, payload: SessionReadyPayload, sessions: &mut SessionRegistry) -> (r:
        Result<SessionInfo, TabMessage>)
        ensures
            *final(self) == *old(self),
            old(sessions).well_formed() ==> final(sessions).well_formed(),
            if !old(self).session.authenticated {
                r matches Err(e) && is_error(e, "not_authenticated"@, "Authenticate first"@)
                    && final(sessions)@ == old(sessions)@
            } else if old(self).session.role != Some(SessionRole::Session) {
                r matches Err(e) && is_error(
                    e,
                    "invalid_role"@,
                    "Only session clients may send session_ready"@,
                ) && final(sessions)@ == old(sessions)@
            } else if old(self).session.session_id is None {
                r matches Err(e) && is_error(e, "unknown_session"@, "Server missing session id"@)
                    && final(sessions)@ == old(sessions)@
            } else if old(self).session.session_id->0@ != payload.session_id@ {
                r matches Err(e) && is_error(e, "session_mismatch"@, "Session id mismatch"@)
                    && final(sessions)@ == old(sessions)@
            } else if !old(sessions)@.sessions.contains_key(payload.session_id@) {
                r matches Err(e) && is_error(e, "unknown_session"@, "Session not found"@)
                    && final(sessions)@ == old(sessions)@
            } else {
                r matches Ok(info) && final(sessions)@ == old(sessions)@.with_state(
                    payload.session_id@,
                    SessionLifecycle::Occupied,
                ) && final(sessions)@.sessions[payload.session_id@].told(info)
            },
    {
        if !self.session.authenticated {
            return Err(error_reply("not_authenticated", "Authenticate first"));
        }
        let is_session = match self.session.role {
            Some(SessionRole::Session) => true,
            _ => false,
        };
        if !is_session {
            return Err(error_reply("invalid_role", "Only session clients may send session_ready"));
        }
        let expected = match &self.session.session_id {
            Some(id) => id,
            None => {
                return Err(error_reply("unknown_session", "Server missing session id"));
            },
        };
        if !same_text(expected.as_str(), payload.session_id.as_str()) {
            return Err(error_reply("session_mismatch", "Session id mismatch"));
        }
        match sessions.set_state(expected.as_str(), SessionLifecycle::Occupied) {
            Some(info) => Ok(info),
            None => Err(error_reply("unknown_session", "Session not found")),
        }
    }

    /// Handles a message of the client.
    ///
    /// `loaded` holds the textures of the two buffers of a framebuffer
    /// link, where [`Client::needs_textures`] asked for them and loading
    /// them went well.
    pub fn handle_message<Texture>(
        &mut self,
        message: TabMessage,
        sessions: &mut SessionRegistry,
        monitors: &Vec<MonitorInfo>,
        loaded: Option<[Texture; 2]>,
    ) -> (r: Handled<Texture>)
        requires
            old(sessions).well_formed(),
        ensures
            final(sessions).well_formed(),
            handles(
                *old(self),
                old(sessions)@,
                message,
                monitors@,
                loaded,
                *final(self),
                final(sessions)@,
                r,
            ),
    {
        let mut events: Vec<ServerEvent<Texture>> = Vec::new();
        let mut replies: Vec<TabMessage> = Vec::new();
        match message {
            TabMessage::Auth(payload) => {
                let (info, reply) = self.handle_auth(payload.token, sessions, monitors);
                match info {
                    Some(session) => {
                        events.push(ServerEvent::SessionState { session, exclude_client_id: None });
                    },
                    None => {},
                }
                replies.push(reply);
            },
            TabMessage::SessionReady(payload) => {
                match self.handle_session_ready(payload, sessions) {
                    Ok(session) => {
                        events.push(ServerEvent::SessionState { session, exclude_client_id: None });
                    },
                    Err(reply) => {
                        replies.push(reply);
                    },
                }
            },
            TabMessage::SessionCreate(payload) => {
                let (info, reply) = self.handle_session_create(payload, sessions);
                match info {
                    Some(session) => {
                        events.push(
                            ServerEvent::SessionState {
                                session,
                                exclude_client_id: Some(self.id.clone()),
                            },
                        );
                    },
                    None => {},
                }
                replies.push(reply);
            },
            TabMessage::FramebufferLink { payload, dma_bufs } => {
                match (&self.session.session_id, loaded) {
                    (Some(session_id), Some(buffers)) => {
                        events.push(
                            ServerEvent::FramebufferLinked {
                                monitor_id: payload.monitor_id,
                                session_id: session_id.clone(),
                                buffers,
                            },
                        );
                    },
                    _ => {},
                }
            },
            TabMessage::SessionSwitch(switch) => {
                events.push(ServerEvent::SessionSwitch(switch));
            },
            TabMessage::BufferRequest { payload, acquire_fence } => {
                match &self.session.session_id {
                    Some(session_id) => {
                        events.push(
                            ServerEvent::SwapBuffers { session_id: session_id.clone(), payload },
                        );
                    },
                    None => {},
                }
            },
            _ => {},
        }
        Handled { events, replies }
    }
}

} // verus!
