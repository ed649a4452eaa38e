//! The control plane: sessions, clients, the buffer ledger and the
//! selection of the session that is shown.
//!
//! The server is driven by events: a message of a client task, an event of
//! the render loop, a client that connects.  It answers each with the
//! actions that the caller is to carry out, and never does any I/O itself.

pub mod model;
pub mod proofs;

use crate::comms::{
    AuthError, C2SMsg, ErrorCode, ErrorDetail, RejectReason, RenderCmd, RenderEvt, S2CMsg,
    S2CView,
};
use crate::ids::{ClientId, MonitorId, SessionId, Token};
use crate::ledger::{BufferLedger, BufferRelease, RequestRefusal, Scope, SlotRef};
use crate::monitor::{copy_monitors, Monitor};
use crate::protocol::{BufferIndex, FramebufferLinkPayload, SessionCreatePayload};
use crate::server::model::{bound_client, broadcast, close_fence, error_to, flip_all, put_all, ActionView, ClientRecord, ServerState};
use crate::sessions::{PendingEntry, PendingSession, Role, Session};
use crate::table::{lookup, put, Table};
use vstd::prelude::*;

verus! {

/// Something for the caller to carry out.
#[derive(Debug, Clone, PartialEq, Eq)]
pub enum ServerAction {
    /// Hand the message to the task of the client.
    Notify { client_id: ClientId, message: S2CMsg },
    /// Hand the command to the render loop.
    Render(RenderCmd),
    /// End the task of the client and close its socket.
    Disconnect(ClientId),
    /// Close a file descriptor that goes nowhere.
    Close(i32),
}

impl View for ServerAction {
    type V = ActionView;

    open spec fn view(&self) -> ActionView {
        match *self {
            ServerAction::Notify { client_id, message } => ActionView::Notify {
                client_id,
                message: message@,
            },
            ServerAction::Render(command) => ActionView::Render(command),
            ServerAction::Disconnect(client_id) => ActionView::Disconnect(client_id),
            ServerAction::Close(fd) => ActionView::Close(fd),
        }
    }
}

/// A list of actions as mathematical data.
pub open spec fn views(actions: Seq<ServerAction>) -> Seq<ActionView> {
    actions.map_values(|a: ServerAction| a@)
}

/// Adds one action to a list.
fn emit(actions: &mut Vec<ServerAction>, action: ServerAction)
    ensures
        views(final(actions)@) == views(old(actions)@).push(action@),
{
    actions.push(action);
    proof {
        assert(views(actions@) =~= views(old(actions)@).push(action@));
    }
}

/// Adds a list of actions to a list.
fn emit_all(actions: &mut Vec<ServerAction>, more: Vec<ServerAction>)
    ensures
        views(final(actions)@) == views(old(actions)@) + views(more@),
{
    let ghost added = more@;
    let mut more = more;
    actions.append(&mut more);
    proof {
        assert(views(actions@) =~= views(old(actions)@) + views(added));
    }
}

/// A list of one action.
fn just(action: ServerAction) -> (r: Vec<ServerAction>)
    ensures
        views(r@) == seq![action@],
{
    let mut actions: Vec<ServerAction> = Vec::new();
    proof {
        assert(views(actions@) =~= Seq::<ActionView>::empty());
    }
    emit(&mut actions, action);
    proof {
        assert(views(actions@) =~= seq![action@]);
    }
    actions
}

/// No action.
fn nothing() -> (r: Vec<ServerAction>)
    ensures
        views(r@) == Seq::<ActionView>::empty(),
{
    let actions: Vec<ServerAction> = Vec::new();
    proof {
        assert(views(actions@) =~= Seq::<ActionView>::empty());
    }
    actions
}

/// An error told to a client.
fn error_for(client_id: ClientId, code: ErrorCode, error: Option<ErrorDetail>, shutdown: bool) -> (r:
    ServerAction)
    ensures
        r@ == error_to(client_id, code, error, shutdown),
{
    ServerAction::Notify { client_id, message: S2CMsg::Error { code, error, shutdown } }
}

/// Closes the fence of a request that goes nowhere.
fn emit_close(actions: &mut Vec<ServerAction>, fence: Option<i32>)
    ensures
        views(final(actions)@) == views(old(actions)@) + close_fence(fence),
{
    match fence {
        Some(fd) => {
            emit(actions, ServerAction::Close(fd));
            proof {
                assert(views(actions@) =~= views(old(actions)@) + close_fence(fence));
            }
        },
        None => {
            proof {
                assert(views(actions@) =~= views(old(actions)@) + close_fence(fence));
            }
        },
    }
}

/// The monitor as news for every authenticated client.
fn tell_monitor_added(clients: &Vec<ClientRecord>, monitor: &Monitor) -> (r: Vec<ServerAction>)
    ensures
        views(r@) == broadcast(clients@, S2CView::MonitorAdded { monitor: *monitor }),
{
    let ghost message = S2CView::MonitorAdded { monitor: *monitor };
    let mut actions = nothing();
    let mut i: usize = 0;
    proof {
        assert(clients@.take(0) =~= Seq::<ClientRecord>::empty());
    }
    while i < clients.len()
        invariant
            i <= clients.len(),
            message == (S2CView::MonitorAdded { monitor: *monitor }),
            views(actions@) == broadcast(clients@.take(i as int), message),
        decreases clients.len() - i,
    {
        proof {
            assert(clients@.take(i + 1).drop_last() =~= clients@.take(i as int));
        }
        if clients[i].session_id.is_some() {
            emit(
                &mut actions,
                ServerAction::Notify {
                    client_id: clients[i].id,
                    message: S2CMsg::MonitorAdded { monitor: monitor.duplicate() },
                },
            );
        }
        i += 1;
    }
    proof {
        assert(clients@.take(clients.len() as int) =~= clients@);
    }
    actions
}

/// The loss of a monitor as news for every authenticated client.
fn tell_monitor_removed(clients: &Vec<ClientRecord>, monitor_id: MonitorId, name: &String) -> (r:
    Vec<ServerAction>)
    ensures
        views(r@) == broadcast(clients@, S2CView::MonitorRemoved { monitor_id, name: *name }),
{
    let ghost message = S2CView::MonitorRemoved { monitor_id, name: *name };
    let mut actions = nothing();
    let mut i: usize = 0;
    proof {
        assert(clients@.take(0) =~= Seq::<ClientRecord>::empty());
    }
    while i < clients.len()
        invariant
            i <= clients.len(),
            message == (S2CView::MonitorRemoved { monitor_id, name: *name }),
            views(actions@) == broadcast(clients@.take(i as int), message),
        decreases clients.len() - i,
    {
        proof {
            assert(clients@.take(i + 1).drop_last() =~= clients@.take(i as int));
        }
        if clients[i].session_id.is_some() {
            emit(
                &mut actions,
                ServerAction::Notify {
                    client_id: clients[i].id,
                    message: S2CMsg::MonitorRemoved { monitor_id, name: name.clone() },
                },
            );
        }
        i += 1;
    }
    proof {
        assert(clients@.take(clients.len() as int) =~= clients@);
    }
    actions
}

/// The first client that is bound to the session.
fn find_bound_client(clients: &Vec<ClientRecord>, session_id: SessionId) -> (r: Option<
    ClientRecord,
>)
    ensures
        r == bound_client(clients@, session_id),
{
    let mut i: usize = 0;
    proof {
        assert(clients@.skip(0) =~= clients@);
    }
    while i < clients.len()
        invariant
            i <= clients.len(),
            bound_client(clients@, session_id) == bound_client(clients@.skip(i as int), session_id),
        decreases clients.len() - i,
    {
        proof {
            assert(clients@.skip(i as int).drop_first() =~= clients@.skip(i + 1));
            assert(clients@.skip(i as int)[0] == clients@[i as int]);
        }
        match clients[i].session_id {
            Some(bound) => {
                if bound == session_id {
                    return Some(clients[i]);
                }
            },
            None => {},
        }
        i += 1;
    }
    None
}

/// Puts every monitor of `more` into the table, in order.
fn put_monitors(table: &mut Table<Monitor>, more: &Vec<Monitor>)
    ensures
        final(table)@ == put_all(old(table)@, more@),
{
    let mut i: usize = 0;
    proof {
        assert(more@.take(0) =~= Seq::<Monitor>::empty());
    }
    while i < more.len()
        invariant
            i <= more.len(),
            table@ == put_all(old(table)@, more@.take(i as int)),
        decreases more.len() - i,
    {
        proof {
            assert(more@.take(i + 1).drop_last() =~= more@.take(i as int));
        }
        table.put(more[i].duplicate());
        i += 1;
    }
    proof {
        assert(more@.take(more.len() as int) =~= more@);
    }
}

/// Flips the monitors one after the other while `session_id` is shown.
fn flip_monitors(ledger: &mut BufferLedger, session_id: SessionId, monitors: &Vec<MonitorId>) -> (r:
    Vec<BufferRelease>)
    ensures
        (final(ledger)@, r@) == flip_all(old(ledger)@, session_id, monitors@),
{
    let mut released: Vec<BufferRelease> = Vec::new();
    let mut i: usize = 0;
    proof {
        assert(monitors@.take(0) =~= Seq::<MonitorId>::empty());
    }
    while i < monitors.len()
        invariant
            i <= monitors.len(),
            (ledger@, released@) == flip_all(old(ledger)@, session_id, monitors@.take(i as int)),
        decreases monitors.len() - i,
    {
        proof {
            assert(monitors@.take(i + 1).drop_last() =~= monitors@.take(i as int));
        }
        match ledger.page_flip(session_id, monitors[i]) {
            Some(release) => {
                released.push(release);
            },
            None => {},
        }
        i += 1;
    }
    proof {
        assert(monitors@.take(monitors.len() as int) =~= monitors@);
    }
    released
}

/// The control plane.
pub struct ShiftServer {
    current_session: Option<SessionId>,
    pending_sessions: Table<PendingEntry>,
    active_sessions: Table<Session>,
    connected_clients: Table<ClientRecord>,
    renderer_open: bool,
    monitors: Table<Monitor>,
    ledger: BufferLedger,
    swap_buffers_received: u64,
    frame_done_emitted: u64,
}

impl View for ShiftServer {
    type V = ServerState;

    closed spec fn view(&self) -> ServerState {
        ServerState {
            current_session: self.current_session,
            pending_sessions: self.pending_sessions@,
            active_sessions: self.active_sessions@,
            clients: self.connected_clients@,
            renderer_open: self.renderer_open,
            monitors: self.monitors@,
            ledger: self.ledger@,
            swap_buffers_received: self.swap_buffers_received,
            frame_done_emitted: self.frame_done_emitted,
        }
    }
}

impl ShiftServer {
    /// A server that has seen nothing yet.
    pub fn new() -> (r: ShiftServer)
        ensures
            r@ == ServerState::initial(),
    {
        ShiftServer {
            current_session: None,
            pending_sessions: Table::new(),
            active_sessions: Table::new(),
            connected_clients: Table::new(),
            renderer_open: true,
            monitors: Table::new(),
            ledger: BufferLedger::new(),
            swap_buffers_received: 0,
            frame_done_emitted: 0,
        }
    }

    /// The session selected for display.
    pub fn current_session(&self) -> (r: Option<SessionId>)
        ensures
            r == self@.current_session,
    {
        self.current_session
    }

    /// The monitors that the render loop reported.
    pub fn monitors(&self) -> (r: &Vec<Monitor>)
        ensures
            r@ == self@.monitors,
    {
        self.monitors.rows()
    }

    /// The connected clients.
    pub fn clients(&self) -> (r: &Vec<ClientRecord>)
        ensures
            r@ == self@.clients,
    {
        self.connected_clients.rows()
    }

    /// The claimed sessions.
    pub fn active_sessions(&self) -> (r: &Vec<Session>)
        ensures
            r@ == self@.active_sessions,
    {
        self.active_sessions.rows()
    }

    /// Number of minted sessions that wait for their client.
    pub fn pending_session_count(&self) -> (r: usize)
        ensures
            r == self@.pending_sessions.len(),
    {
        self.pending_sessions.len()
    }

    /// The buffer ledger.
    pub fn ledger(&self) -> (r: &BufferLedger)
        ensures
            r@ == self@.ledger,
    {
        &self.ledger
    }

    /// What the server knows of a client.
    pub fn client(&self, client_id: ClientId) -> (r: Option<ClientRecord>)
        ensures
            r == lookup(self@.clients, client_id),
            r matches Some(c) ==> c.id == client_id,
    {
        match self.connected_clients.get(&client_id) {
            Some(c) => Some(*c),
            None => None,
        }
    }

    /// Reads the counters of accepted requests and released buffers and
    /// sets them back to zero.
    pub fn take_statistics(&mut self) -> (r: (u64, u64))
        ensures
            r == (old(self)@.swap_buffers_received, old(self)@.frame_done_emitted),
            final(self)@ == (ServerState {
                swap_buffers_received: 0,
                frame_done_emitted: 0,
                ..old(self)@
            }),
    {
        let r = (self.swap_buffers_received, self.frame_done_emitted);
        self.swap_buffers_received = 0;
        self.frame_done_emitted = 0;
        r
    }

    /// A client connected.
    pub fn client_connected(&mut self, client_id: ClientId)
        ensures
            final(self)@ == old(self)@.connect(client_id),
    {
        self.connected_clients.put(ClientRecord { id: client_id, session_id: None, reachable: true });
    }

    /// Notes whether messages still reach the task of a client.
    pub fn set_client_reachable(&mut self, client_id: ClientId, reachable: bool)
        ensures
            final(self)@ == old(self)@.reach(client_id, reachable),
    {
        match self.client(client_id) {
            Some(c) => {
                self.connected_clients.put(
                    ClientRecord { id: c.id, session_id: c.session_id, reachable },
                );
            },
            None => {},
        }
    }

    /// Notes whether commands still reach the render loop.
    pub fn set_renderer_open(&mut self, open: bool)
        ensures
            final(self)@ == (ServerState { renderer_open: open, ..old(self)@ }),
    {
        self.renderer_open = open;
    }

    /// Files a pending session under the token that claims it.
    pub fn register_pending(&mut self, token: Token, session: PendingSession)
        ensures
            final(self)@ == old(self)@.file_pending(token, session),
    {
        self.pending_sessions.put(PendingEntry { token, session });
    }

    /// Mints the admin session that the first client claims, and returns
    /// the token that claims it.
    pub fn add_initial_session(&mut self) -> (token: Token)
        ensures
            exists|session: PendingSession|
                session.role == Role::Admin && (session.display_name matches Some(name) && name@
                    == "Admin"@) && final(self)@ == #[trigger] old(self)@.file_pending(
                    token,
                    session,
                ),
    {
        let (token, session) = PendingSession::admin(Some("Admin".to_owned()));
        proof {
            assert(session.role == Role::Admin);
            assert(session.display_name matches Some(name) && name@ == "Admin"@);
        }
        self.register_pending(token, session);
        token
    }

    /// The role and the identity of the claimed session of a client.
    fn session_of(&self, client: &ClientRecord) -> (r: Option<(SessionId, Role)>)
        ensures
            match self@.session_of(*client) {
                Some(s) => r == Some((s.id, s.role)),
                None => r is None,
            },
    {
        match client.session_id {
            Some(session_id) => match self.active_sessions.get(&session_id) {
                Some(s) => Some((s.id, s.role)),
                None => None,
            },
            None => None,
        }
    }

    /// Selects another session, or none, for display.
    fn update_active_session(&mut self, next: Option<SessionId>) -> (r: Vec<ServerAction>)
        ensures
            final(self)@ == old(self)@.select(next).state,
            views(r@) == old(self)@.select(next).actions,
    {
        self.current_session = next;
        just(ServerAction::Render(RenderCmd::SetActiveSession { session_id: next }))
    }

    /// Drops a client.
    fn disconnect_client(&mut self, client_id: ClientId) -> (r: Vec<ServerAction>)
        ensures
            final(self)@ == old(self)@.disconnect(client_id).state,
            views(r@) == old(self)@.disconnect(client_id).actions,
    {
        let client = match self.connected_clients.take(&client_id) {
            Some(c) => c,
            None => {
                return nothing();
            },
        };
        let mut actions = just(ServerAction::Disconnect(client_id));
        match client.session_id {
            None => {},
            Some(session_id) => {
                let was_shown = self.current_session == Some(session_id);
                self.active_sessions.take(&session_id);
                self.ledger.purge_client(client_id, session_id);
                emit(&mut actions, ServerAction::Render(RenderCmd::SessionRemoved { session_id }));
                proof {
                    assert(views(actions@) =~= seq![
                        ActionView::Disconnect(client_id),
                        ActionView::Render(RenderCmd::SessionRemoved { session_id }),
                    ]);
                }
                if was_shown {
                    let more = self.update_active_session(None);
                    emit_all(&mut actions, more);
                }
            },
        }
        actions
    }

    /// A client presents a token.
    fn handle_auth(&mut self, client_id: ClientId, token: Token) -> (r: Vec<ServerAction>)
        ensures
            final(self)@ == old(self)@.auth(client_id, token).state,
            views(r@) == old(self)@.auth(client_id, token).actions,
    {
        let entry = match self.pending_sessions.take(&token) {
            Some(entry) => entry,
            None => {
                return match self.client(client_id) {
                    Some(_) => just(
                        ServerAction::Notify {
                            client_id,
                            message: S2CMsg::AuthError(AuthError::NotFound),
                        },
                    ),
                    None => nothing(),
                };
            },
        };
        let session = entry.session.promote();
        let client = match self.client(client_id) {
            Some(c) => c,
            None => {
                return nothing();
            },
        };
        self.connected_clients.put(
            ClientRecord { id: client.id, session_id: Some(session.id), reachable: client.reachable },
        );
        let mut actions = just(
            ServerAction::Notify {
                client_id,
                message: S2CMsg::BindToSession {
                    session: session.duplicate(),
                    monitors: copy_monitors(self.monitors.rows()),
                },
            },
        );
        if !client.reachable {
            let more = self.disconnect_client(client_id);
            emit_all(&mut actions, more);
            return actions;
        }
        let becomes_shown = session.role == Role::Admin && self.current_session.is_none();
        let session_id = session.id;
        self.active_sessions.put(session);
        if becomes_shown {
            let more = self.update_active_session(Some(session_id));
            emit_all(&mut actions, more);
        } else {
            proof {
                assert(views(actions@) =~= views(actions@) + Seq::<ActionView>::empty());
            }
        }
        actions
    }

    /// An admin client asks for a session that is filed under the fresh
    /// `token` with the fresh identity `session_id`.
    pub fn create_session(
        &mut self,
        client_id: ClientId,
        request: SessionCreatePayload,
        token: Token,
        session_id: SessionId,
    ) -> (r: Vec<ServerAction>)
        ensures
            final(self)@ == old(self)@.create_session(client_id, request, token, session_id).state,
            views(r@) == old(self)@.create_session(client_id, request, token, session_id).actions,
    {
        let client = match self.client(client_id) {
            Some(c) => c,
            None => {
                return nothing();
            },
        };
        match self.session_of(&client) {
            Some((_, Role::Admin)) => {},
            _ => {
                return just(error_for(client_id, ErrorCode::Forbidden, None, false));
            },
        }
        let session = PendingSession::with_id(
            session_id,
            request.display_name,
            Role::from_protocol(request.role),
        );
        let mut actions = just(
            ServerAction::Notify {
                client_id,
                message: S2CMsg::SessionCreated(token, session.duplicate()),
            },
        );
        self.register_pending(token, session);
        if !client.reachable {
            let more = self.disconnect_client(client_id);
            emit_all(&mut actions, more);
        } else {
            proof {
                assert(views(actions@) =~= views(actions@) + Seq::<ActionView>::empty());
            }
        }
        actions
    }

    /// A client asks the compositor to take over a slot.
    fn handle_buffer_request(
        &mut self,
        client_id: ClientId,
        monitor_id: MonitorId,
        buffer: BufferIndex,
        fence: Option<i32>,
    ) -> (r: Vec<ServerAction>)
        ensures
            final(self)@ == old(self)@.buffer_request(client_id, monitor_id, buffer, fence).state,
            views(r@) == old(self)@.buffer_request(client_id, monitor_id, buffer, fence).actions,
    {
        let client = match self.client(client_id) {
            Some(c) => c,
            None => {
                let mut actions = nothing();
                emit_close(&mut actions, fence);
                proof {
                    assert(views(actions@) =~= close_fence(fence));
                }
                return actions;
            },
        };
        let session_id = match self.session_of(&client) {
            Some((session_id, _)) => session_id,
            None => {
                let mut actions = just(error_for(client_id, ErrorCode::Forbidden, None, false));
                emit_close(&mut actions, fence);
                return actions;
            },
        };
        let slot = SlotRef { session_id, monitor_id, buffer };
        match self.ledger.check_request(slot) {
            Err(RequestRefusal::OwnershipViolation) => {
                let mut actions = just(
                    error_for(
                        client_id,
                        ErrorCode::OwnershipViolation,
                        Some(ErrorDetail::NotClientOwned),
                        false,
                    ),
                );
                emit_close(&mut actions, fence);
                actions
            },
            Err(RequestRefusal::Inflight) => {
                let mut actions = just(
                    error_for(
                        client_id,
                        ErrorCode::BufferRequestInflight,
                        Some(ErrorDetail::AlreadyPending),
                        false,
                    ),
                );
                emit_close(&mut actions, fence);
                actions
            },
            Ok(()) => {
                if self.renderer_open {
                    self.ledger.record_request(client_id, slot);
                    just(
                        ServerAction::Render(
                            RenderCmd::SwapBuffers {
                                monitor_id,
                                buffer,
                                session_id,
                                acquire_fence: fence,
                            },
                        ),
                    )
                } else {
                    let mut actions = just(
                        error_for(
                            client_id,
                            ErrorCode::RenderUnavailable,
                            Some(ErrorDetail::RendererUnavailable),
                            true,
                        ),
                    );
                    emit_close(&mut actions, fence);
                    actions
                }
            },
        }
    }

    /// A client links its two buffers for a monitor.
    fn handle_framebuffer_link(
        &mut self,
        client_id: ClientId,
        payload: FramebufferLinkPayload,
        dma_bufs: [i32; 2],
    ) -> (r: Vec<ServerAction>)
        ensures
            final(self)@ == old(self)@.framebuffer_link(client_id, payload, dma_bufs).state,
            views(r@) == old(self)@.framebuffer_link(client_id, payload, dma_bufs).actions,
    {
        let client = self.client(client_id);
        let session_id = match client {
            Some(ClientRecord { id, session_id: Some(session_id), reachable }) => {
                if self.renderer_open {
                    Some(session_id)
                } else {
                    None
                }
            },
            _ => None,
        };
        let session_id = match session_id {
            Some(session_id) => session_id,
            None => {
                let mut actions = nothing();
                match client {
                    None => {},
                    Some(c) => {
                        if c.session_id.is_none() {
                            emit(
                                &mut actions,
                                error_for(client_id, ErrorCode::Forbidden, None, false),
                            );
                        } else {
                            emit(
                                &mut actions,
                                error_for(
                                    client_id,
                                    ErrorCode::RenderUnavailable,
                                    Some(ErrorDetail::RendererUnavailable),
                                    true,
                                ),
                            );
                        }
                    },
                }
                emit(&mut actions, ServerAction::Close(dma_bufs[0]));
                emit(&mut actions, ServerAction::Close(dma_bufs[1]));
                proof {
                    assert(views(actions@) =~= old(self)@.framebuffer_link(
                        client_id,
                        payload,
                        dma_bufs,
                    ).actions);
                }
                return actions;
            },
        };
        proof {
            reveal_strlit("mon_");
        }
        match MonitorId::parse(payload.monitor_id.as_str()) {
            Ok(monitor_id) => {
                self.ledger.purge(Scope::Pair(session_id, monitor_id));
            },
            Err(_) => {},
        }
        just(ServerAction::Render(RenderCmd::FramebufferLink { payload, dma_bufs, session_id }))
    }

    /// Handles a message of the task of a client.
    ///
    /// A request for a new session draws a fresh token and a fresh session
    /// identity; what happens then is what [`ShiftServer::create_session`]
    /// does with them.
    pub fn handle_client_message(&mut self, client_id: ClientId, message: C2SMsg) -> (r: Vec<
        ServerAction,
    >)
        ensures
            exists|token: Token, session_id: SessionId|
                {
                    let step = #[trigger] old(self)@.client_message(
                        client_id,
                        message,
                        token,
                        session_id,
                    );
                    final(self)@ == step.state && views(r@) == step.actions
                },
    {
        match message {
            C2SMsg::Shutdown => {
                let r = self.disconnect_client(client_id);
                proof {
                    let step = old(self)@.client_message(
                        client_id,
                        message,
                        Token(0),
                        SessionId(0),
                    );
                    assert(self@ == step.state && views(r@) == step.actions);
                }
                r
            },
            C2SMsg::Auth(token) => {
                let r = self.handle_auth(client_id, token);
                proof {
                    let step = old(self)@.client_message(
                        client_id,
                        message,
                        Token(0),
                        SessionId(0),
                    );
                    assert(self@ == step.state && views(r@) == step.actions);
                }
                r
            },
            C2SMsg::CreateSession(request) => {
                let token = Token::rand();
                let session_id = SessionId::rand();
                let r = self.create_session(client_id, request, token, session_id);
                proof {
                    let step = old(self)@.client_message(client_id, message, token, session_id);
                    assert(self@ == step.state && views(r@) == step.actions);
                }
                r
            },
            C2SMsg::BufferRequest { monitor_id, buffer, acquire_fence } => {
                let r = self.handle_buffer_request(client_id, monitor_id, buffer, acquire_fence);
                proof {
                    let step = old(self)@.client_message(
                        client_id,
                        message,
                        Token(0),
                        SessionId(0),
                    );
                    assert(self@ == step.state && views(r@) == step.actions);
                }
                r
            },
            C2SMsg::FramebufferLink { payload, dma_bufs } => {
                let r = self.handle_framebuffer_link(client_id, payload, dma_bufs);
                proof {
                    let step = old(self)@.client_message(
                        client_id,
                        message,
                        Token(0),
                        SessionId(0),
                    );
                    assert(self@ == step.state && views(r@) == step.actions);
                }
                r
            },
        }
    }

    /// The render loop reports a monitor.
    fn handle_monitor_online(&mut self, monitor: Monitor) -> (r: Vec<ServerAction>)
        ensures
            final(self)@ == old(self)@.monitor_online(monitor).state,
            views(r@) == old(self)@.monitor_online(monitor).actions,
    {
        let known = match self.monitors.get(&monitor.id) {
            Some(m) => m.says_the_same(&monitor),
            None => false,
        };
        if known {
            return nothing();
        }
        let actions = tell_monitor_added(self.connected_clients.rows(), &monitor);
        self.monitors.put(monitor);
        actions
    }

    /// The render loop reports that a monitor is gone.
    fn handle_monitor_offline(&mut self, monitor_id: MonitorId) -> (r: Vec<ServerAction>)
        ensures
            final(self)@ == old(self)@.monitor_offline(monitor_id).state,
            views(r@) == old(self)@.monitor_offline(monitor_id).actions,
    {
        self.ledger.purge(Scope::Monitor(monitor_id));
        match self.monitors.take(&monitor_id) {
            Some(known) => tell_monitor_removed(
                self.connected_clients.rows(),
                monitor_id,
                &known.name,
            ),
            None => nothing(),
        }
    }

    /// The render loop accepted a slot.
    fn handle_request_acked(&mut self, slot: SlotRef) -> (r: Vec<ServerAction>)
        ensures
            final(self)@ == old(self)@.request_acked(slot).state,
            views(r@) == old(self)@.request_acked(slot).actions,
    {
        let request = match self.ledger.acknowledge(slot) {
            Some(request) => request,
            None => {
                proof {
                    crate::ledger_proofs::lemma_unanswered(old(self)@.ledger, slot);
                }
                return nothing();
            },
        };
        self.swap_buffers_received = self.swap_buffers_received.saturating_add(1);
        let client = match self.client(request.client_id) {
            Some(c) => c,
            None => {
                return nothing();
            },
        };
        let mut actions = just(
            ServerAction::Notify {
                client_id: client.id,
                message: S2CMsg::BufferRequestAck {
                    monitor_id: slot.monitor_id,
                    buffer: slot.buffer,
                },
            },
        );
        if !client.reachable {
            let more = self.disconnect_client(client.id);
            emit_all(&mut actions, more);
        } else {
            proof {
                assert(views(actions@) =~= views(actions@) + Seq::<ActionView>::empty());
            }
        }
        actions
    }

    /// The render loop turned a slot down.
    fn handle_request_rejected(&mut self, slot: SlotRef, reason: RejectReason) -> (r: Vec<
        ServerAction,
    >)
        ensures
            final(self)@ == old(self)@.request_rejected(slot, reason).state,
            views(r@) == old(self)@.request_rejected(slot, reason).actions,
    {
        let request = match self.ledger.reject(slot) {
            Some(request) => request,
            None => {
                proof {
                    crate::ledger_proofs::lemma_unanswered(old(self)@.ledger, slot);
                }
                return nothing();
            },
        };
        match self.client(request.client_id) {
            Some(client) => just(
                error_for(
                    client.id,
                    ErrorCode::BufferRequestRejected,
                    Some(ErrorDetail::Rejected(reason)),
                    false,
                ),
            ),
            None => nothing(),
        }
    }

    /// Monitors flipped.
    fn handle_page_flip(&mut self, monitors: &Vec<MonitorId>) -> (r: Vec<ServerAction>)
        ensures
            final(self)@ == old(self)@.page_flip(monitors@).state,
            views(r@) == old(self)@.page_flip(monitors@).actions,
    {
        if monitors.len() == 0 {
            return nothing();
        }
        let active = match self.current_session {
            Some(active) => active,
            None => {
                return nothing();
            },
        };
        let client = match find_bound_client(self.connected_clients.rows(), active) {
            Some(client) => client,
            None => {
                return nothing();
            },
        };
        let waiting = self.ledger.waiting_len();
        let released = flip_monitors(&mut self.ledger, active, monitors);
        if self.ledger.waiting_len() < waiting {
            let ready = match self.active_sessions.get(&active) {
                Some(session) => Some(
                    Session {
                        id: session.id,
                        role: session.role,
                        display_name: crate::sessions::copy_name(&session.display_name),
                        ready: true,
                    },
                ),
                None => None,
            };
            match ready {
                Some(session) => {
                    self.active_sessions.put(session);
                },
                None => {},
            }
        }
        if released.len() == 0 {
            return nothing();
        }
        if client.reachable {
            self.frame_done_emitted = self.frame_done_emitted.saturating_add(released.len() as u64);
        }
        just(
            ServerAction::Notify {
                client_id: client.id,
                message: S2CMsg::BufferRelease { buffers: released },
            },
        )
    }

    /// Handles an event of the render loop.
    pub fn handle_render_event(&mut self, event: RenderEvt) -> (r: Vec<ServerAction>)
        ensures
            final(self)@ == old(self)@.render_event(event).state,
            views(r@) == old(self)@.render_event(event).actions,
    {
        match event {
            RenderEvt::Started { monitors } => {
                self.monitors.clear();
                put_monitors(&mut self.monitors, &monitors);
                nothing()
            },
            RenderEvt::MonitorOnline { monitor } => self.handle_monitor_online(monitor),
            RenderEvt::MonitorOffline { monitor_id } => self.handle_monitor_offline(monitor_id),
            RenderEvt::FatalError { reason } => nothing(),
            RenderEvt::PageFlip { monitors } => self.handle_page_flip(&monitors),
            RenderEvt::BufferRequestAck { session_id, monitor_id, buffer } => {
                self.handle_request_acked(SlotRef { session_id, monitor_id, buffer })
            },
            RenderEvt::BufferRequestRejected { session_id, monitor_id, buffer, reason } => {
                self.handle_request_rejected(SlotRef { session_id, monitor_id, buffer }, reason)
            },
        }
    }
}

} // verus!
