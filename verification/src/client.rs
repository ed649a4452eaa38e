//! The task of one client connection: what to do with a message that came
//! in over the socket, and with a message of the control plane.
//!
//! The task decides; the caller reads and writes the socket and the
//! channels.  Where handing a message to the control plane fails, the
//! caller answers with [`ClientTask::schedule_shutdown`].

use crate::comms::{AuthError, C2SMsg, ErrorCode, ErrorDetail, S2CMsg};
use crate::ids::{id_text, id_value, ClientId, MonitorId, Token};
use crate::ledger::BufferRelease;
use crate::monitor::Monitor;
use crate::protocol::error::ProtocolError;
use crate::protocol::message::{message_fds, TabMessage};
use crate::protocol::{
    AuthErrorPayload, AuthOkPayload, BufferIndex, BufferReleasePayload, BufferRequestAckPayload,
    ErrorPayload, MonitorAddedPayload, MonitorInfo, MonitorRemovedPayload, SessionCreatedPayload,
    SessionLifecycle,
};
use crate::sessions::{PendingSession, Role, Session};
use vstd::prelude::*;

verus! {

/// Why an authentication was turned down.
#[derive(Clone, Copy, Debug, PartialEq, Eq, Structural)]
pub enum AuthFailure {
    /// The token is not of the form of a token.
    TokenParse,
    /// The control plane turned the token down.
    Refused(AuthError),
}

/// The messages that a client may not send.
#[derive(Clone, Copy, Debug, PartialEq, Eq, Structural)]
pub enum Unexpected {
    Hello,
    AuthOk,
    AuthError,
    BufferRequestAck,
    BufferRelease,
    InputEvent,
    MonitorAdded,
    MonitorRemoved,
    SessionSwitch,
    SessionCreated,
    SessionReady,
    SessionState,
    SessionActive,
    Error,
    Pong,
}

/// What an error message says beside its code.
#[derive(Debug, Clone, PartialEq, Eq)]
pub enum ErrorText {
    /// The monitor identifier is not of the form of one.
    MonitorIdParse,
    /// Only an admin may create a session.
    NeedAdmin,
    /// Only an authenticated client may link framebuffers.
    NeedSession,
    /// A message that a client may not send.
    Unexpected(Unexpected),
    /// A message with a header that is not known.
    UnknownHeader(String),
    /// What the control plane says.
    Detail(ErrorDetail),
    /// The frame could not be read.
    Protocol(ProtocolError),
}

/// What goes out over the socket.
#[derive(Debug, Clone, PartialEq, Eq)]
pub enum Outgoing {
    Pong,
    Error { code: ErrorCode, message: Option<ErrorText> },
    AuthError(AuthFailure),
    AuthOk { session: Session, monitors: Vec<Monitor> },
    SessionCreated { token: Token, session: PendingSession },
    BufferRequestAck { monitor_id: MonitorId, buffer: BufferIndex },
    BufferRelease(BufferRelease),
    MonitorAdded(Monitor),
    MonitorRemoved { monitor_id: MonitorId, name: String },
}

/// Something for the caller to carry out.
#[derive(Debug, Clone, PartialEq, Eq)]
pub enum ClientAction {
    /// Hand the message to the control plane.
    Forward(C2SMsg),
    /// Write the message to the socket.
    Send(Outgoing),
    /// Close a file descriptor that goes nowhere.
    Close(i32),
}

/// What the task remembers.
pub struct TaskState {
    /// The session that the client is bound to.
    pub connected_session: Option<Session>,
    /// Whether the task is to end.
    pub shutdown: bool,
}

/// The outcome of one event.
pub struct TaskStep {
    pub state: TaskState,
    pub actions: Seq<ClientAction>,
}

/// Closing file descriptors, in order.
pub open spec fn close_all(fds: Seq<i32>) -> Seq<ClientAction> {
    fds.map_values(|fd: i32| ClientAction::Close(fd))
}

impl TaskState {
    /// The state stays and the actions are carried out.
    pub open spec fn only(self, actions: Seq<ClientAction>) -> TaskStep {
        TaskStep { state: self, actions }
    }

    /// The task tells the control plane that it ends, and ends.
    pub open spec fn ending(self) -> TaskStep {
        TaskStep {
            state: TaskState { shutdown: true, ..self },
            actions: seq![ClientAction::Forward(C2SMsg::Shutdown)],
        }
    }

    /// The client sent something that it may not send: it is told so, the
    /// file descriptors that came along are closed, and the task ends.
    pub open spec fn refuse(self, what: ErrorText, fds: Seq<i32>) -> TaskStep {
        TaskStep {
            state: TaskState { shutdown: true, ..self },
            actions: seq![
                ClientAction::Send(
                    Outgoing::Error { code: ErrorCode::ProtocolViolation, message: Some(what) },
                ),
            ] + close_all(fds) + seq![ClientAction::Forward(C2SMsg::Shutdown)],
        }
    }

    /// Whether the client is bound to an admin session.
    pub open spec fn is_admin(self) -> bool {
        self.connected_session matches Some(s) && s.role == Role::Admin
    }

    /// A message came in over the socket.
    pub open spec fn packet(self, message: TabMessage) -> TaskStep {
        match message {
            TabMessage::Auth(auth) => match id_value("tok_"@, auth.token@) {
                Some(t) => self.only(seq![ClientAction::Forward(C2SMsg::Auth(Token(t)))]),
                None => self.only(
                    seq![ClientAction::Send(Outgoing::AuthError(AuthFailure::TokenParse))],
                ),
            },
            TabMessage::BufferRequest { payload, acquire_fence } => match id_value(
                "mon_"@,
                payload.monitor_id@,
            ) {
                Some(m) => self.only(
                    seq![
                        ClientAction::Forward(
                            C2SMsg::BufferRequest {
                                monitor_id: MonitorId(m),
                                buffer: payload.buffer,
                                acquire_fence,
                            },
                        ),
                    ],
                ),
                None => self.only(
                    seq![
                        ClientAction::Send(
                            Outgoing::Error {
                                code: ErrorCode::UnknownMonitor,
                                message: Some(ErrorText::MonitorIdParse),
                            },
                        ),
                    ] + close_all(message_fds(message)),
                ),
            },
            TabMessage::SessionCreate(request) => if self.is_admin() {
                self.only(seq![ClientAction::Forward(C2SMsg::CreateSession(request))])
            } else {
                self.only(
                    seq![
                        ClientAction::Send(
                            Outgoing::Error {
                                code: ErrorCode::Forbidden,
                                message: Some(ErrorText::NeedAdmin),
                            },
                        ),
                    ],
                )
            },
            TabMessage::Ping => self.only(seq![ClientAction::Send(Outgoing::Pong)]),
            TabMessage::FramebufferLink { payload, dma_bufs } => if self.connected_session is Some {
                self.only(seq![ClientAction::Forward(C2SMsg::FramebufferLink { payload, dma_bufs })])
            } else {
                self.only(
                    seq![
                        ClientAction::Send(
                            Outgoing::Error {
                                code: ErrorCode::Forbidden,
                                message: Some(ErrorText::NeedSession),
                            },
                        ),
                    ] + close_all(dma_bufs@),
                )
            },
            TabMessage::Hello(_) => self.refuse(
                ErrorText::Unexpected(Unexpected::Hello),
                Seq::empty(),
            ),
            TabMessage::AuthOk(_) => self.refuse(
                ErrorText::Unexpected(Unexpected::AuthOk),
                Seq::empty(),
            ),
            TabMessage::AuthError(_) => self.refuse(
                ErrorText::Unexpected(Unexpected::AuthError),
                Seq::empty(),
            ),
            TabMessage::BufferRequestAck(_) => self.refuse(
                ErrorText::Unexpected(Unexpected::BufferRequestAck),
                Seq::empty(),
            ),
            TabMessage::BufferRelease(_) => self.refuse(
                ErrorText::Unexpected(Unexpected::BufferRelease),
                Seq::empty(),
            ),
            TabMessage::InputEvent(_) => self.refuse(
                ErrorText::Unexpected(Unexpected::InputEvent),
                Seq::empty(),
            ),
            TabMessage::MonitorAdded(_) => self.refuse(
                ErrorText::Unexpected(Unexpected::MonitorAdded),
                Seq::empty(),
            ),
            TabMessage::MonitorRemoved(_) => self.refuse(
                ErrorText::Unexpected(Unexpected::MonitorRemoved),
                Seq::empty(),
            ),
            TabMessage::SessionSwitch(_) => self.refuse(
                ErrorText::Unexpected(Unexpected::SessionSwitch),
                Seq::empty(),
            ),
            TabMessage::SessionCreated(_) => self.refuse(
                ErrorText::Unexpected(Unexpected::SessionCreated),
                Seq::empty(),
            ),
            TabMessage::SessionReady(_) => self.refuse(
                ErrorText::Unexpected(Unexpected::SessionReady),
                Seq::empty(),
            ),
            TabMessage::SessionState(_) => self.refuse(
                ErrorText::Unexpected(Unexpected::SessionState),
                Seq::empty(),
            ),
            TabMessage::SessionActive(_) => self.refuse(
                ErrorText::Unexpected(Unexpected::SessionActive),
                Seq::empty(),
            ),
            TabMessage::Error(_) => self.refuse(
                ErrorText::Unexpected(Unexpected::Error),
                Seq::empty(),
            ),
            TabMessage::Pong => self.refuse(ErrorText::Unexpected(Unexpected::Pong), Seq::empty()),
            TabMessage::Unknown(frame) => self.refuse(
                ErrorText::UnknownHeader(frame.header.0),
                frame.fds@,
            ),
        }
    }

    /// The messages that hand the slots back, one for each, in order.
    pub open spec fn releases(buffers: Seq<BufferRelease>) -> Seq<ClientAction> {
        buffers.map_values(|b: BufferRelease| ClientAction::Send(Outgoing::BufferRelease(b)))
    }

    /// A message of the control plane came in, or its channel closed.
    pub open spec fn server_message(self, message: Option<S2CMsg>) -> TaskStep {
        match message {
            None => self.ending(),
            Some(S2CMsg::AuthError(e)) => self.only(
                seq![ClientAction::Send(Outgoing::AuthError(AuthFailure::Refused(e)))],
            ),
            Some(S2CMsg::BindToSession { session, monitors }) => TaskStep {
                state: TaskState { connected_session: Some(session), ..self },
                actions: seq![ClientAction::Send(Outgoing::AuthOk { session, monitors })],
            },
            Some(S2CMsg::SessionCreated(token, session)) => self.only(
                seq![ClientAction::Send(Outgoing::SessionCreated { token, session })],
            ),
            Some(S2CMsg::Error { code, error, shutdown }) => {
                let told = ClientAction::Send(
                    Outgoing::Error {
                        code,
                        message: match error {
                            Some(detail) => Some(ErrorText::Detail(detail)),
                            None => None,
                        },
                    },
                );
                if shutdown {
                    TaskStep {
                        state: TaskState { shutdown: true, ..self },
                        actions: seq![told, ClientAction::Forward(C2SMsg::Shutdown)],
                    }
                } else {
                    self.only(seq![told])
                }
            },
            Some(S2CMsg::BufferRelease { buffers }) => self.only(TaskState::releases(buffers@)),
            Some(S2CMsg::BufferRequestAck { monitor_id, buffer }) => self.only(
                seq![ClientAction::Send(Outgoing::BufferRequestAck { monitor_id, buffer })],
            ),
            Some(S2CMsg::MonitorAdded { monitor }) => self.only(
                seq![ClientAction::Send(Outgoing::MonitorAdded(monitor))],
            ),
            Some(S2CMsg::MonitorRemoved { monitor_id, name }) => self.only(
                seq![ClientAction::Send(Outgoing::MonitorRemoved { monitor_id, name })],
            ),
        }
    }

    /// A frame could not be read: the client is told, and the task ends.
    pub open spec fn protocol_error(self, error: ProtocolError) -> TaskStep {
        TaskStep {
            state: TaskState { shutdown: true, ..self },
            actions: seq![
                ClientAction::Send(
                    Outgoing::Error {
                        code: ErrorCode::ProtocolViolation,
                        message: Some(ErrorText::Protocol(error)),
                    },
                ),
                ClientAction::Forward(C2SMsg::Shutdown),
            ],
        }
    }
}

/// The task of one client connection.
pub struct ClientTask {
    id: ClientId,
    connected_session: Option<Session>,
    shutdown: bool,
}

impl View for ClientTask {
    type V = TaskState;

    closed spec fn view(&self) -> TaskState {
        TaskState { connected_session: self.connected_session, shutdown: self.shutdown }
    }
}

/// Closes every file descriptor of `fds`.
fn close_each(actions: &mut Vec<ClientAction>, fds: &Vec<i32>)
    ensures
        final(actions)@ == old(actions)@ + close_all(fds@),
{
    let mut i: usize = 0;
    proof {
        assert(actions@ =~= old(actions)@ + close_all(fds@.take(0)));
    }
    while i < fds.len()
        invariant
            i <= fds.len(),
            actions@ == old(actions)@ + close_all(fds@.take(i as int)),
        decreases fds.len() - i,
    {
        actions.push(ClientAction::Close(fds[i]));
        proof {
            assert(fds@.take(i + 1) =~= fds@.take(i as int).push(fds@[i as int]));
            assert(actions@ =~= old(actions)@ + close_all(fds@.take(i + 1)));
        }
        i += 1;
    }
    proof {
        assert(fds@.take(fds.len() as int) =~= fds@);
    }
}

impl ClientTask {
    /// The task of a client that just connected.
    pub fn new(id: ClientId) -> (r: ClientTask)
        ensures
            r@ == (TaskState { connected_session: None, shutdown: false }),
            r.spec_id() == id,
    {
        ClientTask { id, connected_session: None, shutdown: false }
    }

    /// The identity of the client.
    pub closed spec fn spec_id(&self) -> ClientId {
        self.id
    }

    /// The identity of the client.
    pub fn id(&self) -> (r: ClientId)
        ensures
            r == self.spec_id(),
    {
        self.id
    }

    /// Whether the task is to end.
    pub fn is_shutdown(&self) -> (r: bool)
        ensures
            r == self@.shutdown,
    {
        self.shutdown
    }

    /// The session that the client is bound to.
    pub fn connected_session(&self) -> (r: &Option<Session>)
        ensures
            *r == self@.connected_session,
    {
        &self.connected_session
    }

    /// Tells the control plane that the task ends, and ends it.
    pub fn schedule_shutdown(&mut self) -> (r: Vec<ClientAction>)
        ensures
            final(self)@ == old(self)@.ending().state,
            r@ == old(self)@.ending().actions,
            final(self).spec_id() == old(self).spec_id(),
    {
        self.shutdown = true;
        let mut actions: Vec<ClientAction> = Vec::new();
        actions.push(ClientAction::Forward(C2SMsg::Shutdown));
        proof {
            assert(actions@ =~= seq![ClientAction::Forward(C2SMsg::Shutdown)]);
        }
        actions
    }

    /// Turns down a message that a client may not send.
    fn refuse(&mut self, what: ErrorText, fds: &Vec<i32>) -> (r: Vec<ClientAction>)
        ensures
            final(self)@ == old(self)@.refuse(what, fds@).state,
            r@ == old(self)@.refuse(what, fds@).actions,
            final(self).spec_id() == old(self).spec_id(),
    {
        self.shutdown = true;
        let mut actions: Vec<ClientAction> = Vec::new();
        actions.push(
            ClientAction::Send(
                Outgoing::Error { code: ErrorCode::ProtocolViolation, message: Some(what) },
            ),
        );
        close_each(&mut actions, fds);
        actions.push(ClientAction::Forward(C2SMsg::Shutdown));
        proof {
            assert(actions@ =~= old(self)@.refuse(what, fds@).actions);
        }
        actions
    }

    /// Turns down a message that a client may not send and that came
    /// without file descriptors.
    fn refuse_plain(&mut self, what: Unexpected) -> (r: Vec<ClientAction>)
        ensures
            final(self)@ == old(self)@.refuse(ErrorText::Unexpected(what), Seq::empty()).state,
            r@ == old(self)@.refuse(ErrorText::Unexpected(what), Seq::empty()).actions,
            final(self).spec_id() == old(self).spec_id(),
    {
        let none: Vec<i32> = Vec::new();
        self.refuse(ErrorText::Unexpected(what), &none)
    }

    /// One action.
    fn just(action: ClientAction) -> (r: Vec<ClientAction>)
        ensures
            r@ == seq![action],
    {
        let mut actions: Vec<ClientAction> = Vec::new();
        actions.push(action);
        proof {
            assert(actions@ =~= seq![action]);
        }
        actions
    }

    /// Handles a message that came in over the socket.
    pub fn handle_packet(&mut self, tab_message: TabMessage) -> (r: Vec<ClientAction>)
        ensures
            final(self)@ == old(self)@.packet(tab_message).state,
            r@ == old(self)@.packet(tab_message).actions,
            final(self).spec_id() == old(self).spec_id(),
    {
        proof {
            reveal_strlit("tok_");
            reveal_strlit("mon_");
        }
        match tab_message {
            TabMessage::Auth(auth) => match Token::parse(auth.token.as_str()) {
                Ok(token) => ClientTask::just(ClientAction::Forward(C2SMsg::Auth(token))),
                Err(_) => ClientTask::just(
                    ClientAction::Send(Outgoing::AuthError(AuthFailure::TokenParse)),
                ),
            },
            TabMessage::BufferRequest { payload, acquire_fence } => {
                match MonitorId::parse(payload.monitor_id.as_str()) {
                    Ok(monitor_id) => ClientTask::just(
                        ClientAction::Forward(
                            C2SMsg::BufferRequest {
                                monitor_id,
                                buffer: payload.buffer,
                                acquire_fence,
                            },
                        ),
                    ),
                    Err(_) => {
                        let mut actions = ClientTask::just(
                            ClientAction::Send(
                                Outgoing::Error {
                                    code: ErrorCode::UnknownMonitor,
                                    message: Some(ErrorText::MonitorIdParse),
                                },
                            ),
                        );
                        match acquire_fence {
                            Some(fd) => {
                                actions.push(ClientAction::Close(fd));
                            },
                            None => {},
                        }
                        proof {
                            assert(actions@ =~= old(self)@.packet(tab_message).actions);
                        }
                        actions
                    },
                }
            },
            TabMessage::SessionCreate(request) => {
                let admin = match &self.connected_session {
                    Some(s) => s.role == Role::Admin,
                    None => false,
                };
                if admin {
                    ClientTask::just(ClientAction::Forward(C2SMsg::CreateSession(request)))
                } else {
                    ClientTask::just(
                        ClientAction::Send(
                            Outgoing::Error {
                                code: ErrorCode::Forbidden,
                                message: Some(ErrorText::NeedAdmin),
                            },
                        ),
                    )
                }
            },
            TabMessage::Ping => ClientTask::just(ClientAction::Send(Outgoing::Pong)),
            TabMessage::FramebufferLink { payload, dma_bufs } => {
                if self.connected_session.is_some() {
                    ClientTask::just(
                        ClientAction::Forward(C2SMsg::FramebufferLink { payload, dma_bufs }),
                    )
                } else {
                    let mut actions = ClientTask::just(
                        ClientAction::Send(
                            Outgoing::Error {
                                code: ErrorCode::Forbidden,
                                message: Some(ErrorText::NeedSession),
                            },
                        ),
                    );
                    actions.push(ClientAction::Close(dma_bufs[0]));
                    actions.push(ClientAction::Close(dma_bufs[1]));
                    proof {
                        assert(actions@ =~= old(self)@.packet(tab_message).actions);
                    }
                    actions
                }
            },
            TabMessage::Hello(_) => self.refuse_plain(Unexpected::Hello),
            TabMessage::AuthOk(_) => self.refuse_plain(Unexpected::AuthOk),
            TabMessage::AuthError(_) => self.refuse_plain(Unexpected::AuthError),
            TabMessage::BufferRequestAck(_) => self.refuse_plain(Unexpected::BufferRequestAck),
            TabMessage::BufferRelease(_) => self.refuse_plain(Unexpected::BufferRelease),
            TabMessage::InputEvent(_) => self.refuse_plain(Unexpected::InputEvent),
            TabMessage::MonitorAdded(_) => self.refuse_plain(Unexpected::MonitorAdded),
            TabMessage::MonitorRemoved(_) => self.refuse_plain(Unexpected::MonitorRemoved),
            TabMessage::SessionSwitch(_) => self.refuse_plain(Unexpected::SessionSwitch),
            TabMessage::SessionCreated(_) => self.refuse_plain(Unexpected::SessionCreated),
            TabMessage::SessionReady(_) => self.refuse_plain(Unexpected::SessionReady),
            TabMessage::SessionState(_) => self.refuse_plain(Unexpected::SessionState),
            TabMessage::SessionActive(_) => self.refuse_plain(Unexpected::SessionActive),
            TabMessage::Error(_) => self.refuse_plain(Unexpected::Error),
            TabMessage::Pong => self.refuse_plain(Unexpected::Pong),
            TabMessage::Unknown(frame) => self.refuse(
                ErrorText::UnknownHeader(frame.header.0),
                &frame.fds,
            ),
        }
    }

    /// Handles a message of the control plane; `None` says that its channel
    /// closed.
    pub fn handle_server_layer_msg(&mut self, s2c_message: Option<S2CMsg>) -> (r: Vec<
        ClientAction,
    >)
        ensures
            final(self)@ == old(self)@.server_message(s2c_message).state,
            r@ == old(self)@.server_message(s2c_message).actions,
            final(self).spec_id() == old(self).spec_id(),
    {
        let message = match s2c_message {
            Some(message) => message,
            None => {
                return self.schedule_shutdown();
            },
        };
        match message {
            S2CMsg::AuthError(e) => ClientTask::just(
                ClientAction::Send(Outgoing::AuthError(AuthFailure::Refused(e))),
            ),
            S2CMsg::BindToSession { session, monitors } => {
                self.connected_session = Some(session.duplicate());
                ClientTask::just(ClientAction::Send(Outgoing::AuthOk { session, monitors }))
            },
            S2CMsg::SessionCreated(token, session) => ClientTask::just(
                ClientAction::Send(Outgoing::SessionCreated { token, session }),
            ),
            S2CMsg::Error { code, error, shutdown } => {
                let mut actions = ClientTask::just(
                    ClientAction::Send(
                        Outgoing::Error {
                            code,
                            message: match error {
                                Some(detail) => Some(ErrorText::Detail(detail)),
                                None => None,
                            },
                        },
                    ),
                );
                if shutdown {
                    self.shutdown = true;
                    actions.push(ClientAction::Forward(C2SMsg::Shutdown));
                    proof {
                        assert(actions@ =~= old(self)@.server_message(s2c_message).actions);
                    }
                }
                actions
            },
            S2CMsg::BufferRelease { buffers } => {
                let mut actions: Vec<ClientAction> = Vec::new();
                let mut i: usize = 0;
                proof {
                    assert(actions@ =~= TaskState::releases(buffers@.take(0)));
                }
                while i < buffers.len()
                    invariant
                        i <= buffers.len(),
                        actions@ == TaskState::releases(buffers@.take(i as int)),
                    decreases buffers.len() - i,
                {
                    actions.push(ClientAction::Send(Outgoing::BufferRelease(buffers[i])));
                    proof {
                        assert(buffers@.take(i + 1) =~= buffers@.take(i as int).push(
                            buffers@[i as int],
                        ));
                        assert(actions@ =~= TaskState::releases(buffers@.take(i + 1)));
                    }
                    i += 1;
                }
                proof {
                    assert(buffers@.take(buffers.len() as int) =~= buffers@);
                }
                actions
            },
            S2CMsg::BufferRequestAck { monitor_id, buffer } => ClientTask::just(
                ClientAction::Send(Outgoing::BufferRequestAck { monitor_id, buffer }),
            ),
            S2CMsg::MonitorAdded { monitor } => ClientTask::just(
                ClientAction::Send(Outgoing::MonitorAdded(monitor)),
            ),
            S2CMsg::MonitorRemoved { monitor_id, name } => ClientTask::just(
                ClientAction::Send(Outgoing::MonitorRemoved { monitor_id, name }),
            ),
        }
    }

    /// Handles a frame that could not be read.
    pub fn handle_protocol_error(&mut self, error: ProtocolError) -> (r: Vec<ClientAction>)
        ensures
            final(self)@ == old(self)@.protocol_error(error).state,
            r@ == old(self)@.protocol_error(error).actions,
            final(self).spec_id() == old(self).spec_id(),
    {
        self.shutdown = true;
        let mut actions = ClientTask::just(
            ClientAction::Send(
                Outgoing::Error {
                    code: ErrorCode::ProtocolViolation,
                    message: Some(ErrorText::Protocol(error)),
                },
            ),
        );
        actions.push(ClientAction::Forward(C2SMsg::Shutdown));
        proof {
            assert(actions@ =~= old(self)@.protocol_error(error).actions);
        }
        actions
    }
}

impl Unexpected {
    /// The name of the message.
    pub fn name(self) -> (r: &'static str)
        ensures
            r@ == self.spec_name(),
    {
        match self {
            Unexpected::Hello => "Hello",
            Unexpected::AuthOk => "AuthOk",
            Unexpected::AuthError => "AuthError",
            Unexpected::BufferRequestAck => "BufferRequestAck",
            Unexpected::BufferRelease => "BufferRelease",
            Unexpected::InputEvent => "InputEvent",
            Unexpected::MonitorAdded => "MonitorAdded",
            Unexpected::MonitorRemoved => "MonitorRemoved",
            Unexpected::SessionSwitch => "SessionSwitch",
            Unexpected::SessionCreated => "SessionCreated",
            Unexpected::SessionReady => "SessionReady",
            Unexpected::SessionState => "SessionState",
            Unexpected::SessionActive => "SessionActive",
            Unexpected::Error => "Error",
            Unexpected::Pong => "Pong",
        }
    }

    /// The name of the message.
    pub open spec fn spec_name(self) -> Seq<char> {
        match self {
            Unexpected::Hello => "Hello"@,
            Unexpected::AuthOk => "AuthOk"@,
            Unexpected::AuthError => "AuthError"@,
            Unexpected::BufferRequestAck => "BufferRequestAck"@,
            Unexpected::BufferRelease => "BufferRelease"@,
            Unexpected::InputEvent => "InputEvent"@,
            Unexpected::MonitorAdded => "MonitorAdded"@,
            Unexpected::MonitorRemoved => "MonitorRemoved"@,
            Unexpected::SessionSwitch => "SessionSwitch"@,
            Unexpected::SessionCreated => "SessionCreated"@,
            Unexpected::SessionReady => "SessionReady"@,
            Unexpected::SessionState => "SessionState"@,
            Unexpected::SessionActive => "SessionActive"@,
            Unexpected::Error => "Error"@,
            Unexpected::Pong => "Pong"@,
        }
    }
}

impl AuthFailure {
    /// What the client is told.
    pub open spec fn wording(self) -> Seq<char> {
        match self {
            AuthFailure::TokenParse => "token parse error"@,
            AuthFailure::Refused(_) => "not_found"@,
        }
    }

    /// What the client is told.
    pub fn text(self) -> (r: String)
        ensures
            r@ == self.wording(),
    {
        match self {
            AuthFailure::TokenParse => "token parse error".to_owned(),
            AuthFailure::Refused(e) => e.as_str().to_owned(),
        }
    }
}

impl ErrorText {
    /// What the client is told.
    pub open spec fn wording(self) -> Seq<char> {
        match self {
            ErrorText::MonitorIdParse => "monitor id parse error"@,
            ErrorText::NeedAdmin => "you need to authenticate as an admin client before being able to create a session"@,
            ErrorText::NeedSession => "you need to authenticate before being able to link framebuffer"@,
            ErrorText::Unexpected(what) => what.spec_name(),
            ErrorText::UnknownHeader(header) => header@,
            ErrorText::Detail(ErrorDetail::NotClientOwned) => "requested buffer is not client-owned"@,
            ErrorText::Detail(ErrorDetail::AlreadyPending) => "buffer request already pending"@,
            ErrorText::Detail(ErrorDetail::RendererUnavailable) => "renderer unavailable"@,
            ErrorText::Detail(ErrorDetail::Rejected(crate::comms::RejectReason::UnknownMonitor)) => "unknown_monitor"@,
            ErrorText::Detail(ErrorDetail::Rejected(crate::comms::RejectReason::UnlinkedBuffer)) => "unlinked_buffer"@,
            ErrorText::Protocol(error) => error.wording(),
        }
    }

    /// What the client is told.
    pub fn text(&self) -> (r: String)
        ensures
            r@ == self.wording(),
    {
        match self {
            ErrorText::MonitorIdParse => "monitor id parse error".to_owned(),
            ErrorText::NeedAdmin => {
                "you need to authenticate as an admin client before being able to create a session".to_owned()
            },
            ErrorText::NeedSession => {
                "you need to authenticate before being able to link framebuffer".to_owned()
            },
            ErrorText::Unexpected(what) => what.name().to_owned(),
            ErrorText::UnknownHeader(header) => header.clone(),
            ErrorText::Detail(detail) => detail.as_str().to_owned(),
            ErrorText::Protocol(error) => error.message(),
        }
    }
}

/// Whether `info` is what a client is told of `monitor`.
pub open spec fn tells_monitor(info: MonitorInfo, monitor: Monitor) -> bool {
    &&& info.id@ == id_text("mon_"@, monitor.id.0)
    &&& info.width == monitor.width
    &&& info.height == monitor.height
    &&& info.refresh_rate == monitor.refresh_rate
    &&& info.name == monitor.name
}

/// What the clients are told of the monitors, in order.
fn monitor_infos(monitors: &Vec<Monitor>) -> (r: Vec<MonitorInfo>)
    ensures
        r@.len() == monitors@.len(),
        forall|i: int| 0 <= i < r@.len() ==> tells_monitor(#[trigger] r@[i], monitors@[i]),
{
    let mut out: Vec<MonitorInfo> = Vec::new();
    let mut i: usize = 0;
    while i < monitors.len()
        invariant
            i <= monitors.len(),
            out@.len() == i,
            forall|j: int| 0 <= j < i ==> tells_monitor(#[trigger] out@[j], monitors@[j]),
        decreases monitors.len() - i,
    {
        out.push(monitors[i].to_protocol_info());
        i += 1;
    }
    out
}

impl Outgoing {
    /// Whether `m` is the message that goes out over the socket: the
    /// identifiers in their text form, the codes as they are written.
    pub open spec fn sent_as(self, m: TabMessage) -> bool {
        match self {
            Outgoing::Pong => m == TabMessage::Pong,
            Outgoing::Error { code, message } => m matches TabMessage::Error(p) && p.code@
                == code.text() && (match message {
                Some(text) => p.message matches Some(t) && t@ == text.wording(),
                None => p.message is None,
            }),
            Outgoing::AuthError(failure) => m matches TabMessage::AuthError(p) && p.error@
                == failure.wording(),
            Outgoing::AuthOk { session, monitors } => m matches TabMessage::AuthOk(p)
                && p.session.id@ == id_text("ses_"@, session.id.0) && p.session.role
                == session.role.on_wire() && p.session.display_name == session.display_name
                && p.session.state == (if session.ready {
                SessionLifecycle::Occupied
            } else {
                SessionLifecycle::Loading
            }) && p.monitors@.len() == monitors@.len() && forall|i: int|
                0 <= i < monitors@.len() ==> tells_monitor(#[trigger] p.monitors@[i], monitors@[i]),
            Outgoing::SessionCreated { token, session } => m matches TabMessage::SessionCreated(p)
                && p.token@ == id_text("tok_"@, token.0) && p.session.id@ == id_text(
                "ses_"@,
                session.id.0,
            ) && p.session.role == session.role.on_wire() && p.session.display_name
                == session.display_name && p.session.state == SessionLifecycle::Pending,
            Outgoing::BufferRequestAck { monitor_id, buffer } => m matches TabMessage::BufferRequestAck(
                p,
            ) && p.monitor_id@ == id_text("mon_"@, monitor_id.0) && p.buffer == buffer,
            Outgoing::BufferRelease(release) => m matches TabMessage::BufferRelease(p)
                && p.monitor_id@ == id_text("mon_"@, release.monitor_id.0) && p.buffer
                == release.buffer,
            Outgoing::MonitorAdded(monitor) => m matches TabMessage::MonitorAdded(p)
                && tells_monitor(p.monitor, monitor),
            Outgoing::MonitorRemoved { monitor_id, name } => m matches TabMessage::MonitorRemoved(p)
                && p.monitor_id@ == id_text("mon_"@, monitor_id.0) && p.name == name,
        }
    }

    /// The message that goes out over the socket.
    pub fn to_message(&self) -> (r: TabMessage)
        ensures
            self.sent_as(r),
    {
        match self {
            Outgoing::Pong => TabMessage::Pong,
            Outgoing::Error { code, message } => TabMessage::Error(
                ErrorPayload {
                    code: code.as_str().to_owned(),
                    message: match message {
                        Some(text) => Some(text.text()),
                        None => None,
                    },
                },
            ),
            Outgoing::AuthError(failure) => TabMessage::AuthError(
                AuthErrorPayload { error: failure.text() },
            ),
            Outgoing::AuthOk { session, monitors } => TabMessage::AuthOk(
                AuthOkPayload { session: session.info(), monitors: monitor_infos(monitors) },
            ),
            Outgoing::SessionCreated { token, session } => TabMessage::SessionCreated(
                SessionCreatedPayload { session: session.info(), token: token.to_text() },
            ),
            Outgoing::BufferRequestAck { monitor_id, buffer } => TabMessage::BufferRequestAck(
                BufferRequestAckPayload { monitor_id: monitor_id.to_text(), buffer: *buffer },
            ),
            Outgoing::BufferRelease(release) => TabMessage::BufferRelease(
                BufferReleasePayload {
                    monitor_id: release.monitor_id.to_text(),
                    buffer: release.buffer,
                },
            ),
            Outgoing::MonitorAdded(monitor) => TabMessage::MonitorAdded(
                MonitorAddedPayload { monitor: monitor.to_protocol_info() },
            ),
            Outgoing::MonitorRemoved { monitor_id, name } => TabMessage::MonitorRemoved(
                MonitorRemovedPayload { monitor_id: monitor_id.to_text(), name: name.clone() },
            ),
        }
    }
}

} // verus!
