//! The control plane as a state machine over mathematical data.
//!
//! Each function gives the state after one event and the actions that the
//! event calls for, in the order in which they are to be carried out.

use crate::comms::{
    AuthError, C2SMsg, ErrorCode, ErrorDetail, RejectReason, RenderCmd, RenderEvt, S2CView,
};
use crate::ids::{id_value, ClientId, MonitorId, SessionId, Token};
use crate::ledger::{BufferRelease, LedgerState, RequestRefusal, Scope, SlotRef};
use crate::monitor::Monitor;
use crate::protocol::{BufferIndex, FramebufferLinkPayload, SessionCreatePayload};
use crate::sessions::{PendingEntry, PendingSession, Role, Session};
use crate::table::{lookup, put, without, Keyed};
use vstd::prelude::*;

verus! {

/// What the control plane knows of a connected client.
#[derive(Clone, Copy, Debug, PartialEq, Eq, Structural)]
pub struct ClientRecord {
    pub id: ClientId,
    /// The session the client is bound to, once authenticated.
    pub session_id: Option<SessionId>,
    /// Whether messages still reach the task of the client.
    pub reachable: bool,
}

impl Keyed for ClientRecord {
    type Key = ClientId;

    type Name = ClientId;

    open spec fn name_of(key: &ClientId) -> ClientId {
        *key
    }

    open spec fn key(&self) -> ClientId {
        self.id
    }

    fn id(&self) -> (r: ClientId) {
        self.id
    }

    fn has_key(&self, key: &ClientId) -> (r: bool) {
        self.id == *key
    }
}

/// Something for the caller to carry out, as mathematical data.
pub enum ActionView {
    /// Hand the message to the task of the client.
    Notify { client_id: ClientId, message: S2CView },
    /// Hand the command to the render loop.
    Render(RenderCmd),
    /// End the task of the client and close its socket.
    Disconnect(ClientId),
    /// Close a file descriptor that goes nowhere.
    Close(i32),
}

/// What the control plane holds.
pub struct ServerState {
    /// The session selected for display.
    pub current_session: Option<SessionId>,
    /// Minted sessions under the tokens that claim them.
    pub pending_sessions: Seq<PendingEntry>,
    /// Claimed sessions.
    pub active_sessions: Seq<Session>,
    /// Connected clients.
    pub clients: Seq<ClientRecord>,
    /// Whether commands still reach the render loop.
    pub renderer_open: bool,
    /// The monitors that the render loop reported.
    pub monitors: Seq<Monitor>,
    /// Who owns which buffer.
    pub ledger: LedgerState,
    /// Accepted buffer requests since the last statistics tick.
    pub swap_buffers_received: u64,
    /// Released buffers since the last statistics tick.
    pub frame_done_emitted: u64,
}

/// The outcome of one event.
pub struct Step {
    pub state: ServerState,
    pub actions: Seq<ActionView>,
}

/// An error told to a client.
pub open spec fn error_to(
    client_id: ClientId,
    code: ErrorCode,
    error: Option<ErrorDetail>,
    shutdown: bool,
) -> ActionView {
    ActionView::Notify { client_id, message: S2CView::Error { code, error, shutdown } }
}

/// Closing the fence of a request that goes nowhere.
pub open spec fn close_fence(fence: Option<i32>) -> Seq<ActionView> {
    match fence {
        Some(fd) => seq![ActionView::Close(fd)],
        None => Seq::empty(),
    }
}

/// The message for every authenticated client, in the order of the clients.
pub open spec fn broadcast(clients: Seq<ClientRecord>, message: S2CView) -> Seq<ActionView>
    decreases clients.len(),
{
    if clients.len() == 0 {
        Seq::empty()
    } else {
        let rest = broadcast(clients.drop_last(), message);
        if clients.last().session_id is Some {
            rest.push(ActionView::Notify { client_id: clients.last().id, message })
        } else {
            rest
        }
    }
}

/// The first client that is bound to `session_id`.
pub open spec fn bound_client(clients: Seq<ClientRecord>, session_id: SessionId) -> Option<
    ClientRecord,
>
    decreases clients.len(),
{
    if clients.len() == 0 {
        None
    } else if clients[0].session_id == Some(session_id) {
        Some(clients[0])
    } else {
        bound_client(clients.drop_first(), session_id)
    }
}

/// The monitors `rows` after each of `more` was put, in order.
pub open spec fn put_all(rows: Seq<Monitor>, more: Seq<Monitor>) -> Seq<Monitor>
    decreases more.len(),
{
    if more.len() == 0 {
        rows
    } else {
        put(put_all(rows, more.drop_last()), more.last())
    }
}

/// The ledger after the monitors flipped one after the other while
/// `session_id` was shown, and the slots that the flips hand back.
pub open spec fn flip_all(l: LedgerState, session_id: SessionId, monitors: Seq<MonitorId>) -> (
    LedgerState,
    Seq<BufferRelease>,
)
    decreases monitors.len(),
{
    if monitors.len() == 0 {
        (l, Seq::empty())
    } else {
        let (before, released) = flip_all(l, session_id, monitors.drop_last());
        let m = monitors.last();
        (
            before.flip(session_id, m),
            match before.released(session_id, m) {
                Some(r) => released.push(r),
                None => released,
            },
        )
    }
}

impl ServerState {
    /// The state of a server that has seen nothing yet.
    pub open spec fn initial() -> ServerState {
        ServerState {
            current_session: None,
            pending_sessions: Seq::empty(),
            active_sessions: Seq::empty(),
            clients: Seq::empty(),
            renderer_open: true,
            monitors: Seq::empty(),
            ledger: LedgerState::empty(),
            swap_buffers_received: 0,
            frame_done_emitted: 0,
        }
    }

    /// The claimed session that a client is bound to.
    pub open spec fn session_of(self, client: ClientRecord) -> Option<Session> {
        match client.session_id {
            Some(session_id) => lookup(self.active_sessions, session_id),
            None => None,
        }
    }

    /// Nothing happens.
    pub open spec fn stay(self) -> Step {
        Step { state: self, actions: Seq::empty() }
    }

    /// The state stays and the actions are carried out.
    pub open spec fn only(self, actions: Seq<ActionView>) -> Step {
        Step { state: self, actions }
    }

    /// A client connected.
    pub open spec fn connect(self, client_id: ClientId) -> ServerState {
        ServerState {
            clients: put(self.clients, ClientRecord { id: client_id, session_id: None, reachable: true }),
            ..self
        }
    }

    /// The caller learned whether messages still reach a client.
    pub open spec fn reach(self, client_id: ClientId, reachable: bool) -> ServerState {
        match lookup(self.clients, client_id) {
            Some(c) => ServerState {
                clients: put(self.clients, ClientRecord { reachable, ..c }),
                ..self
            },
            None => self,
        }
    }

    /// A pending session was filed under a token.
    pub open spec fn file_pending(self, token: Token, session: PendingSession) -> ServerState {
        ServerState {
            pending_sessions: put(self.pending_sessions, PendingEntry { token, session }),
            ..self
        }
    }

    /// Another session, or none, is selected for display.
    pub open spec fn select(self, next: Option<SessionId>) -> Step {
        Step {
            state: ServerState { current_session: next, ..self },
            actions: seq![ActionView::Render(RenderCmd::SetActiveSession { session_id: next })],
        }
    }

    /// A client goes away: its session and everything the ledger holds of it
    /// are dropped, the render loop is told, and the selection is cleared
    /// where that session was shown.
    pub open spec fn disconnect(self, client_id: ClientId) -> Step {
        match lookup(self.clients, client_id) {
            None => self.stay(),
            Some(client) => {
                let gone = ServerState { clients: without(self.clients, client_id), ..self };
                match client.session_id {
                    None => gone.only(seq![ActionView::Disconnect(client_id)]),
                    Some(session_id) => {
                        let purged = ServerState {
                            active_sessions: without(gone.active_sessions, session_id),
                            ledger: gone.ledger.purge_client(client_id, session_id),
                            ..gone
                        };
                        let told = seq![
                            ActionView::Disconnect(client_id),
                            ActionView::Render(RenderCmd::SessionRemoved { session_id }),
                        ];
                        if self.current_session == Some(session_id) {
                            let cleared = purged.select(None);
                            Step { state: cleared.state, actions: told + cleared.actions }
                        } else {
                            purged.only(told)
                        }
                    },
                }
            },
        }
    }

    /// `first` is told to the client; where the client cannot be reached it
    /// is disconnected, else `go_on` happens.
    pub open spec fn tell_or_drop(self, client: ClientRecord, first: ActionView, go_on: Step) -> Step {
        if client.reachable {
            Step { state: go_on.state, actions: seq![first] + go_on.actions }
        } else {
            let dropped = self.disconnect(client.id);
            Step { state: dropped.state, actions: seq![first] + dropped.actions }
        }
    }

    /// A client presents a token.
    pub open spec fn auth(self, client_id: ClientId, token: Token) -> Step {
        match lookup(self.pending_sessions, token) {
            None => match lookup(self.clients, client_id) {
                Some(_) => self.only(
                    seq![
                        ActionView::Notify {
                            client_id,
                            message: S2CView::AuthError(AuthError::NotFound),
                        },
                    ],
                ),
                None => self.stay(),
            },
            Some(entry) => {
                let consumed = ServerState {
                    pending_sessions: without(self.pending_sessions, token),
                    ..self
                };
                let session = entry.session.promoted();
                match lookup(self.clients, client_id) {
                    None => consumed.stay(),
                    Some(client) => {
                        let bound = ServerState {
                            clients: put(
                                consumed.clients,
                                ClientRecord { session_id: Some(session.id), ..client },
                            ),
                            ..consumed
                        };
                        let welcome = ActionView::Notify {
                            client_id,
                            message: S2CView::BindToSession { session, monitors: self.monitors },
                        };
                        let active = ServerState {
                            active_sessions: put(bound.active_sessions, session),
                            ..bound
                        };
                        bound.tell_or_drop(
                            client,
                            welcome,
                            if session.role == Role::Admin && self.current_session is None {
                                active.select(Some(session.id))
                            } else {
                                active.stay()
                            },
                        )
                    },
                }
            },
        }
    }

    /// An admin client asks for a session; `token` and `session_id` are
    /// fresh.
    pub open spec fn create_session(
        self,
        client_id: ClientId,
        request: SessionCreatePayload,
        token: Token,
        session_id: SessionId,
    ) -> Step {
        match lookup(self.clients, client_id) {
            None => self.stay(),
            Some(client) => match self.session_of(client) {
                Some(own) if own.role == Role::Admin => {
                    let session = PendingSession {
                        id: session_id,
                        role: Role::of_protocol(request.role),
                        display_name: request.display_name,
                    };
                    let filed = self.file_pending(token, session);
                    filed.tell_or_drop(
                        client,
                        ActionView::Notify {
                            client_id,
                            message: S2CView::SessionCreated(token, session),
                        },
                        filed.stay(),
                    )
                },
                _ => self.only(seq![error_to(client_id, ErrorCode::Forbidden, None, false)]),
            },
        }
    }

    /// A client asks the compositor to take over a slot.
    pub open spec fn buffer_request(
        self,
        client_id: ClientId,
        monitor_id: MonitorId,
        buffer: BufferIndex,
        fence: Option<i32>,
    ) -> Step {
        match lookup(self.clients, client_id) {
            None => self.only(close_fence(fence)),
            Some(client) => match self.session_of(client) {
                None => self.only(
                    seq![error_to(client_id, ErrorCode::Forbidden, None, false)] + close_fence(
                        fence,
                    ),
                ),
                Some(session) => {
                    let slot = SlotRef { session_id: session.id, monitor_id, buffer };
                    match self.ledger.admission(slot) {
                        Err(RequestRefusal::OwnershipViolation) => self.only(
                            seq![
                                error_to(
                                    client_id,
                                    ErrorCode::OwnershipViolation,
                                    Some(ErrorDetail::NotClientOwned),
                                    false,
                                ),
                            ] + close_fence(fence),
                        ),
                        Err(RequestRefusal::Inflight) => self.only(
                            seq![
                                error_to(
                                    client_id,
                                    ErrorCode::BufferRequestInflight,
                                    Some(ErrorDetail::AlreadyPending),
                                    false,
                                ),
                            ] + close_fence(fence),
                        ),
                        Ok(()) => if self.renderer_open {
                            Step {
                                state: ServerState {
                                    ledger: self.ledger.request(client_id, slot),
                                    ..self
                                },
                                actions: seq![
                                    ActionView::Render(
                                        RenderCmd::SwapBuffers {
                                            monitor_id,
                                            buffer,
                                            session_id: session.id,
                                            acquire_fence: fence,
                                        },
                                    ),
                                ],
                            }
                        } else {
                            self.only(
                                seq![
                                    error_to(
                                        client_id,
                                        ErrorCode::RenderUnavailable,
                                        Some(ErrorDetail::RendererUnavailable),
                                        true,
                                    ),
                                ] + close_fence(fence),
                            )
                        },
                    }
                },
            },
        }
    }

    /// A client links its two buffers for a monitor.
    pub open spec fn framebuffer_link(
        self,
        client_id: ClientId,
        payload: FramebufferLinkPayload,
        dma_bufs: [i32; 2],
    ) -> Step {
        let closed = seq![ActionView::Close(dma_bufs@[0]), ActionView::Close(dma_bufs@[1])];
        match lookup(self.clients, client_id) {
            None => self.only(closed),
            Some(client) => match client.session_id {
                None => self.only(
                    seq![error_to(client_id, ErrorCode::Forbidden, None, false)] + closed,
                ),
                Some(session_id) => if !self.renderer_open {
                    self.only(
                        seq![
                            error_to(
                                client_id,
                                ErrorCode::RenderUnavailable,
                                Some(ErrorDetail::RendererUnavailable),
                                true,
                            ),
                        ] + closed,
                    )
                } else {
                    let forward = seq![
                        ActionView::Render(
                            RenderCmd::FramebufferLink { payload, dma_bufs, session_id },
                        ),
                    ];
                    match id_value("mon_"@, payload.monitor_id@) {
                        None => self.only(forward),
                        Some(m) => Step {
                            state: ServerState {
                                ledger: self.ledger.purge(Scope::Pair(session_id, MonitorId(m))),
                                ..self
                            },
                            actions: forward,
                        },
                    }
                },
            },
        }
    }

    /// A message of a client task; `token` and `session_id` are fresh and
    /// used where a session is minted.
    pub open spec fn client_message(
        self,
        client_id: ClientId,
        message: C2SMsg,
        token: Token,
        session_id: SessionId,
    ) -> Step {
        match message {
            C2SMsg::Shutdown => self.disconnect(client_id),
            C2SMsg::Auth(t) => self.auth(client_id, t),
            C2SMsg::CreateSession(request) => self.create_session(
                client_id,
                request,
                token,
                session_id,
            ),
            C2SMsg::BufferRequest { monitor_id, buffer, acquire_fence } => self.buffer_request(
                client_id,
                monitor_id,
                buffer,
                acquire_fence,
            ),
            C2SMsg::FramebufferLink { payload, dma_bufs } => self.framebuffer_link(
                client_id,
                payload,
                dma_bufs,
            ),
        }
    }

    /// The render loop reports a monitor.  A report that says nothing new of
    /// a known monitor changes nothing and tells nobody.
    pub open spec fn monitor_online(self, monitor: Monitor) -> Step {
        match lookup(self.monitors, monitor.id) {
            Some(known) if known.same_info(monitor) => self.stay(),
            _ => Step {
                state: ServerState { monitors: put(self.monitors, monitor), ..self },
                actions: broadcast(self.clients, S2CView::MonitorAdded { monitor }),
            },
        }
    }

    /// The render loop reports that a monitor is gone.
    pub open spec fn monitor_offline(self, monitor_id: MonitorId) -> Step {
        let purged = ServerState { ledger: self.ledger.purge(Scope::Monitor(monitor_id)), ..self };
        match lookup(self.monitors, monitor_id) {
            Some(known) => Step {
                state: ServerState { monitors: without(self.monitors, monitor_id), ..purged },
                actions: broadcast(
                    self.clients,
                    S2CView::MonitorRemoved { monitor_id, name: known.name },
                ),
            },
            None => purged.stay(),
        }
    }

    /// The render loop accepted a slot.
    pub open spec fn request_acked(self, slot: SlotRef) -> Step {
        match self.ledger.settled(slot) {
            None => self.stay(),
            Some(request) => {
                let acked = ServerState {
                    ledger: self.ledger.ack(slot),
                    swap_buffers_received: self.swap_buffers_received.saturating_add(1),
                    ..self
                };
                match lookup(self.clients, request.client_id) {
                    None => acked.stay(),
                    Some(client) => acked.tell_or_drop(
                        client,
                        ActionView::Notify {
                            client_id: client.id,
                            message: S2CView::BufferRequestAck {
                                monitor_id: slot.monitor_id,
                                buffer: slot.buffer,
                            },
                        },
                        acked.stay(),
                    ),
                }
            },
        }
    }

    /// The render loop turned a slot down.
    pub open spec fn request_rejected(self, slot: SlotRef, reason: RejectReason) -> Step {
        match self.ledger.settled(slot) {
            None => self.stay(),
            Some(request) => {
                let dropped = ServerState { ledger: self.ledger.reject(slot), ..self };
                match lookup(self.clients, request.client_id) {
                    None => dropped.stay(),
                    Some(client) => dropped.only(
                        seq![
                            error_to(
                                client.id,
                                ErrorCode::BufferRequestRejected,
                                Some(ErrorDetail::Rejected(reason)),
                                false,
                            ),
                        ],
                    ),
                }
            },
        }
    }

    /// The sessions after one of them presented a buffer: it is ready from
    /// then on.
    pub open spec fn made_ready(sessions: Seq<Session>, session_id: SessionId) -> Seq<Session> {
        match lookup(sessions, session_id) {
            Some(s) => put(sessions, Session { ready: true, ..s }),
            None => sessions,
        }
    }

    /// Monitors flipped.  Each takes the earliest waiting slot of the shown
    /// session as its front; the fronts they replace go back to the client
    /// of that session in one message.  A session whose buffer is presented
    /// is ready from then on.
    pub open spec fn page_flip(self, monitors: Seq<MonitorId>) -> Step {
        if monitors.len() == 0 {
            self.stay()
        } else {
            match self.current_session {
                None => self.stay(),
                Some(active) => match bound_client(self.clients, active) {
                    None => self.stay(),
                    Some(client) => {
                        let (ledger, released) = flip_all(self.ledger, active, monitors);
                        let flipped = ServerState {
                            ledger,
                            active_sessions: if ledger.waiting.len() < self.ledger.waiting.len() {
                                ServerState::made_ready(self.active_sessions, active)
                            } else {
                                self.active_sessions
                            },
                            ..self
                        };
                        if released.len() == 0 {
                            flipped.stay()
                        } else {
                            Step {
                                state: ServerState {
                                    frame_done_emitted: if client.reachable {
                                        self.frame_done_emitted.saturating_add(
                                            if released.len() > u64::MAX {
                                                u64::MAX
                                            } else {
                                                released.len() as u64
                                            },
                                        )
                                    } else {
                                        self.frame_done_emitted
                                    },
                                    ..flipped
                                },
                                actions: seq![
                                    ActionView::Notify {
                                        client_id: client.id,
                                        message: S2CView::BufferRelease { buffers: released },
                                    },
                                ],
                            }
                        }
                    },
                },
            }
        }
    }

    /// An event of the render loop.
    pub open spec fn render_event(self, event: RenderEvt) -> Step {
        match event {
            RenderEvt::Started { monitors } => (ServerState {
                monitors: put_all(Seq::empty(), monitors@),
                ..self
            }).stay(),
            RenderEvt::MonitorOnline { monitor } => self.monitor_online(monitor),
            RenderEvt::MonitorOffline { monitor_id } => self.monitor_offline(monitor_id),
            RenderEvt::FatalError { reason } => self.stay(),
            RenderEvt::PageFlip { monitors } => self.page_flip(monitors@),
            RenderEvt::BufferRequestAck { session_id, monitor_id, buffer } => self.request_acked(
                SlotRef { session_id, monitor_id, buffer },
            ),
            RenderEvt::BufferRequestRejected {
                session_id,
                monitor_id,
                buffer,
                reason,
            } => self.request_rejected(SlotRef { session_id, monitor_id, buffer }, reason),
        }
    }
}

} // verus!
