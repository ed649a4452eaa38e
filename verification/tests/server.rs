use shift::comms::{
    AuthError, C2SMsg, ErrorCode, ErrorDetail, RejectReason, RenderCmd, RenderEvt, S2CMsg,
};
use shift::ids::{ClientId, MonitorId, SessionId, Token};
use shift::ledger::{BufferOwner, BufferRelease, SlotRef};
use shift::monitor::Monitor;
use shift::protocol::{BufferIndex, FramebufferLinkPayload, SessionCreatePayload, SessionRole};
use shift::server::model::ClientRecord;
use shift::server::{ServerAction, ShiftServer};
use shift::sessions::{PendingSession, Role, Session};

const MON_M: MonitorId = MonitorId(0x4d);
const MON_N: MonitorId = MonitorId(0x4e);
const SES_S: SessionId = SessionId(0x53);
const TOK_A: Token = Token(0xa);
const CLIENT: ClientId = ClientId(1);

fn monitor(id: MonitorId, name: &str) -> Monitor {
    Monitor { id, width: 1920, height: 1080, refresh_rate: 60, name: name.to_string() }
}

fn link_payload(id: MonitorId) -> FramebufferLinkPayload {
    FramebufferLinkPayload {
        monitor_id: id.to_text(),
        width: 1920,
        height: 1080,
        stride: 7680,
        offset: 0,
        fourcc: 0x34325258,
    }
}

fn slot(buffer: BufferIndex) -> SlotRef {
    SlotRef { session_id: SES_S, monitor_id: MON_M, buffer }
}

fn request(buffer: BufferIndex) -> C2SMsg {
    C2SMsg::BufferRequest { monitor_id: MON_M, buffer, acquire_fence: None }
}

fn ack(buffer: BufferIndex) -> RenderEvt {
    RenderEvt::BufferRequestAck { session_id: SES_S, monitor_id: MON_M, buffer }
}

fn notify(message: S2CMsg) -> ServerAction {
    ServerAction::Notify { client_id: CLIENT, message }
}

fn error(code: ErrorCode, error: Option<ErrorDetail>, shutdown: bool) -> ServerAction {
    notify(S2CMsg::Error { code, error, shutdown })
}

/// A server with one monitor and one authenticated admin client.
fn authenticated() -> ShiftServer {
    let mut server = ShiftServer::new();
    server.handle_render_event(RenderEvt::Started { monitors: vec![monitor(MON_M, "Monitor 1")] });
    server.register_pending(TOK_A, PendingSession::with_id(SES_S, Some("Admin".to_string()), Role::Admin));
    server.client_connected(CLIENT);
    server.handle_client_message(CLIENT, C2SMsg::Auth(TOK_A));
    server
}

/// The same after the client linked its buffers for the monitor.
fn linked() -> ShiftServer {
    let mut server = authenticated();
    server.handle_client_message(
        CLIENT,
        C2SMsg::FramebufferLink { payload: link_payload(MON_M), dma_bufs: [10, 11] },
    );
    server
}

#[test]
fn auth_binds_client_and_selects_first_admin() {
    let mut server = ShiftServer::new();
    server.handle_render_event(RenderEvt::Started { monitors: vec![monitor(MON_M, "Monitor 1")] });
    server.register_pending(TOK_A, PendingSession::with_id(SES_S, Some("Admin".to_string()), Role::Admin));
    assert_eq!(server.pending_session_count(), 1);
    server.client_connected(CLIENT);
    let actions = server.handle_client_message(CLIENT, C2SMsg::Auth(TOK_A));
    let session = Session { id: SES_S, role: Role::Admin, display_name: Some("Admin".to_string()), ready: false };
    assert_eq!(
        actions,
        vec![
            notify(S2CMsg::BindToSession {
                session: session.clone(),
                monitors: vec![monitor(MON_M, "Monitor 1")],
            }),
            ServerAction::Render(RenderCmd::SetActiveSession { session_id: Some(SES_S) }),
        ]
    );
    assert_eq!(server.current_session(), Some(SES_S));
    assert_eq!(server.pending_session_count(), 0);
    assert_eq!(server.active_sessions(), &vec![session]);
    assert_eq!(
        server.client(CLIENT),
        Some(ClientRecord { id: CLIENT, session_id: Some(SES_S), reachable: true })
    );
}

#[test]
fn token_is_one_shot() {
    let mut server = authenticated();
    server.client_connected(ClientId(2));
    let actions = server.handle_client_message(ClientId(2), C2SMsg::Auth(TOK_A));
    assert_eq!(
        actions,
        vec![ServerAction::Notify {
            client_id: ClientId(2),
            message: S2CMsg::AuthError(AuthError::NotFound),
        }]
    );
    assert_eq!(server.client(ClientId(2)).unwrap().session_id, None);
}

#[test]
fn unknown_token_is_not_found_and_client_stays() {
    let mut server = ShiftServer::new();
    server.client_connected(CLIENT);
    let actions = server.handle_client_message(CLIENT, C2SMsg::Auth(Token(99)));
    assert_eq!(actions, vec![notify(S2CMsg::AuthError(AuthError::NotFound))]);
    assert!(server.client(CLIENT).is_some());
    assert_eq!(server.current_session(), None);
}

#[test]
fn normal_session_is_not_selected() {
    let mut server = ShiftServer::new();
    server.register_pending(TOK_A, PendingSession::with_id(SES_S, None, Role::Normal));
    server.client_connected(CLIENT);
    let actions = server.handle_client_message(CLIENT, C2SMsg::Auth(TOK_A));
    assert_eq!(actions.len(), 1);
    assert_eq!(server.current_session(), None);
}

#[test]
fn happy_path_single_monitor() {
    let mut server = authenticated();
    let actions = server.handle_client_message(
        CLIENT,
        C2SMsg::FramebufferLink { payload: link_payload(MON_M), dma_bufs: [10, 11] },
    );
    assert_eq!(
        actions,
        vec![ServerAction::Render(RenderCmd::FramebufferLink {
            payload: link_payload(MON_M),
            dma_bufs: [10, 11],
            session_id: SES_S,
        })]
    );
    // buffer_request "mon_M 0"
    let actions = server.handle_client_message(CLIENT, request(BufferIndex::Zero));
    assert_eq!(
        actions,
        vec![ServerAction::Render(RenderCmd::SwapBuffers {
            monitor_id: MON_M,
            buffer: BufferIndex::Zero,
            session_id: SES_S,
            acquire_fence: None,
        })]
    );
    assert_eq!(server.ledger().owner(slot(BufferIndex::Zero)), BufferOwner::Client);
    let actions = server.handle_render_event(ack(BufferIndex::Zero));
    assert_eq!(
        actions,
        vec![notify(S2CMsg::BufferRequestAck { monitor_id: MON_M, buffer: BufferIndex::Zero })]
    );
    assert_eq!(server.ledger().owner(slot(BufferIndex::Zero)), BufferOwner::Compositor);
    // The first page flip has no front to hand back.
    assert!(!server.active_sessions()[0].ready);
    let actions = server.handle_render_event(RenderEvt::PageFlip { monitors: vec![MON_M] });
    assert_eq!(actions, vec![]);
    // The session has presented its first buffer: it is ready.
    assert!(server.active_sessions()[0].ready);
    assert_eq!(server.ledger().front_buffer(SES_S, MON_M), Some(BufferIndex::Zero));
    // buffer_request "mon_M 1"
    assert_eq!(server.handle_client_message(CLIENT, request(BufferIndex::One)).len(), 1);
    let actions = server.handle_render_event(ack(BufferIndex::One));
    assert_eq!(
        actions,
        vec![notify(S2CMsg::BufferRequestAck { monitor_id: MON_M, buffer: BufferIndex::One })]
    );
    let actions = server.handle_render_event(RenderEvt::PageFlip { monitors: vec![MON_M] });
    assert_eq!(
        actions,
        vec![notify(S2CMsg::BufferRelease {
            buffers: vec![BufferRelease { monitor_id: MON_M, buffer: BufferIndex::Zero }],
        })]
    );
    assert_eq!(server.ledger().owner(slot(BufferIndex::Zero)), BufferOwner::Client);
    assert_eq!(server.ledger().owner(slot(BufferIndex::One)), BufferOwner::Compositor);
    assert_eq!(server.ledger().front_buffer(SES_S, MON_M), Some(BufferIndex::One));
    assert_eq!(server.take_statistics(), (2, 1));
    assert_eq!(server.take_statistics(), (0, 0));
}

#[test]
fn double_request_rejection() {
    let mut server = linked();
    assert_eq!(server.handle_client_message(CLIENT, request(BufferIndex::Zero)).len(), 1);
    let actions = server.handle_client_message(
        CLIENT,
        C2SMsg::BufferRequest { monitor_id: MON_M, buffer: BufferIndex::Zero, acquire_fence: Some(33) },
    );
    assert_eq!(
        actions,
        vec![
            error(ErrorCode::BufferRequestInflight, Some(ErrorDetail::AlreadyPending), false),
            ServerAction::Close(33),
        ]
    );
    assert_eq!(server.ledger().pending_len(), 1);
    // The first request still acks normally.
    let actions = server.handle_render_event(ack(BufferIndex::Zero));
    assert_eq!(
        actions,
        vec![notify(S2CMsg::BufferRequestAck { monitor_id: MON_M, buffer: BufferIndex::Zero })]
    );
}

#[test]
fn ownership_violation() {
    let mut server = linked();
    server.handle_client_message(CLIENT, request(BufferIndex::Zero));
    server.handle_render_event(ack(BufferIndex::Zero));
    let actions = server.handle_client_message(CLIENT, request(BufferIndex::Zero));
    // No swap command is forwarded to the renderer.
    assert_eq!(
        actions,
        vec![error(ErrorCode::OwnershipViolation, Some(ErrorDetail::NotClientOwned), false)]
    );
    assert_eq!(server.ledger().pending_len(), 0);
    // Still so once the slot is scanned out.
    server.handle_render_event(RenderEvt::PageFlip { monitors: vec![MON_M] });
    let actions = server.handle_client_message(CLIENT, request(BufferIndex::Zero));
    assert_eq!(
        actions,
        vec![error(ErrorCode::OwnershipViolation, Some(ErrorDetail::NotClientOwned), false)]
    );
}

#[test]
fn buffer_request_of_unauthenticated_client_is_forbidden() {
    let mut server = ShiftServer::new();
    server.client_connected(CLIENT);
    let actions = server.handle_client_message(
        CLIENT,
        C2SMsg::BufferRequest { monitor_id: MON_M, buffer: BufferIndex::Zero, acquire_fence: Some(5) },
    );
    assert_eq!(actions, vec![error(ErrorCode::Forbidden, None, false), ServerAction::Close(5)]);
    let actions = server.handle_client_message(
        CLIENT,
        C2SMsg::FramebufferLink { payload: link_payload(MON_M), dma_bufs: [10, 11] },
    );
    assert_eq!(
        actions,
        vec![error(ErrorCode::Forbidden, None, false), ServerAction::Close(10), ServerAction::Close(11)]
    );
    // A client that is not connected at all gets no answer; its descriptors are closed.
    let actions = server.handle_client_message(
        ClientId(77),
        C2SMsg::FramebufferLink { payload: link_payload(MON_M), dma_bufs: [10, 11] },
    );
    assert_eq!(actions, vec![ServerAction::Close(10), ServerAction::Close(11)]);
}

#[test]
fn renderer_gone_is_render_unavailable() {
    let mut server = linked();
    server.set_renderer_open(false);
    let actions = server.handle_client_message(
        CLIENT,
        C2SMsg::BufferRequest { monitor_id: MON_M, buffer: BufferIndex::Zero, acquire_fence: Some(5) },
    );
    assert_eq!(
        actions,
        vec![
            error(ErrorCode::RenderUnavailable, Some(ErrorDetail::RendererUnavailable), true),
            ServerAction::Close(5),
        ]
    );
    assert_eq!(server.ledger().pending_len(), 0);
    let actions = server.handle_client_message(
        CLIENT,
        C2SMsg::FramebufferLink { payload: link_payload(MON_M), dma_bufs: [10, 11] },
    );
    assert_eq!(
        actions,
        vec![
            error(ErrorCode::RenderUnavailable, Some(ErrorDetail::RendererUnavailable), true),
            ServerAction::Close(10),
            ServerAction::Close(11),
        ]
    );
}

#[test]
fn rejected_request_is_told_and_dropped() {
    let mut server = linked();
    server.handle_client_message(CLIENT, request(BufferIndex::One));
    let actions = server.handle_render_event(RenderEvt::BufferRequestRejected {
        session_id: SES_S,
        monitor_id: MON_M,
        buffer: BufferIndex::One,
        reason: RejectReason::UnlinkedBuffer,
    });
    assert_eq!(
        actions,
        vec![error(
            ErrorCode::BufferRequestRejected,
            Some(ErrorDetail::Rejected(RejectReason::UnlinkedBuffer)),
            false
        )]
    );
    assert_eq!(server.ledger().pending_len(), 0);
    assert_eq!(server.ledger().owner(slot(BufferIndex::One)), BufferOwner::Client);
    // An answer without request is ignored.
    assert_eq!(server.handle_render_event(ack(BufferIndex::One)), vec![]);
}

#[test]
fn monitor_hotplug() {
    let mut server = linked();
    server.client_connected(ClientId(2));
    let mon_n = monitor(MON_N, "Monitor 2");
    let actions = server.handle_render_event(RenderEvt::MonitorOnline { monitor: mon_n.clone() });
    // Only the authenticated client is told.
    assert_eq!(actions, vec![notify(S2CMsg::MonitorAdded { monitor: mon_n.clone() })]);
    assert_eq!(server.monitors().len(), 2);
    // Link and present a slot on the new monitor.
    server.handle_client_message(
        CLIENT,
        C2SMsg::FramebufferLink { payload: link_payload(MON_N), dma_bufs: [20, 21] },
    );
    let on_n = SlotRef { session_id: SES_S, monitor_id: MON_N, buffer: BufferIndex::Zero };
    server.handle_client_message(
        CLIENT,
        C2SMsg::BufferRequest { monitor_id: MON_N, buffer: BufferIndex::Zero, acquire_fence: None },
    );
    server.handle_render_event(RenderEvt::BufferRequestAck {
        session_id: SES_S,
        monitor_id: MON_N,
        buffer: BufferIndex::Zero,
    });
    assert_eq!(server.ledger().owner(on_n), BufferOwner::Compositor);
    let actions = server.handle_render_event(RenderEvt::MonitorOffline { monitor_id: MON_N });
    assert_eq!(
        actions,
        vec![notify(S2CMsg::MonitorRemoved { monitor_id: MON_N, name: "Monitor 2".to_string() })]
    );
    assert_eq!(server.monitors(), &vec![monitor(MON_M, "Monitor 1")]);
    assert_eq!(server.ledger().owner(on_n), BufferOwner::Client);
    assert_eq!(server.ledger().waiting_len(), 0);
    // No further ack or release mentions the monitor.
    assert_eq!(
        server.handle_render_event(RenderEvt::BufferRequestAck {
            session_id: SES_S,
            monitor_id: MON_N,
            buffer: BufferIndex::Zero,
        }),
        vec![]
    );
    assert_eq!(server.handle_render_event(RenderEvt::PageFlip { monitors: vec![MON_N] }), vec![]);
}

#[test]
fn repeated_monitor_added_is_a_no_op() {
    let mut server = authenticated();
    let mon_n = monitor(MON_N, "Monitor 2");
    assert_eq!(server.handle_render_event(RenderEvt::MonitorOnline { monitor: mon_n.clone() }).len(), 1);
    assert_eq!(server.handle_render_event(RenderEvt::MonitorOnline { monitor: mon_n.clone() }), vec![]);
    assert_eq!(server.monitors().len(), 2);
    // Changed information is announced and replaces the old one.
    let renamed = monitor(MON_N, "Other name");
    assert_eq!(
        server.handle_render_event(RenderEvt::MonitorOnline { monitor: renamed.clone() }),
        vec![notify(S2CMsg::MonitorAdded { monitor: renamed.clone() })]
    );
    assert_eq!(server.monitors(), &vec![monitor(MON_M, "Monitor 1"), renamed]);
    // A monitor that was never known is removed silently.
    assert_eq!(server.handle_render_event(RenderEvt::MonitorOffline { monitor_id: MonitorId(9) }), vec![]);
}

#[test]
fn disconnect_cleanup() {
    let mut server = linked();
    for buffer in [BufferIndex::Zero, BufferIndex::One] {
        server.handle_client_message(CLIENT, request(buffer));
        server.handle_render_event(ack(buffer));
    }
    assert_eq!(server.ledger().waiting_len(), 2);
    let actions = server.handle_client_message(CLIENT, C2SMsg::Shutdown);
    assert_eq!(
        actions,
        vec![
            ServerAction::Disconnect(CLIENT),
            ServerAction::Render(RenderCmd::SessionRemoved { session_id: SES_S }),
            ServerAction::Render(RenderCmd::SetActiveSession { session_id: None }),
        ]
    );
    assert_eq!(server.current_session(), None);
    assert_eq!(server.client(CLIENT), None);
    assert!(server.active_sessions().is_empty());
    assert_eq!(server.ledger().waiting_len(), 0);
    assert_eq!(server.ledger().owner(slot(BufferIndex::Zero)), BufferOwner::Client);
    // No buffer_release is emitted for the session after the disconnect.
    assert_eq!(server.handle_render_event(RenderEvt::PageFlip { monitors: vec![MON_M] }), vec![]);
    // A second shutdown of the same client does nothing.
    assert_eq!(server.handle_client_message(CLIENT, C2SMsg::Shutdown), vec![]);
}

#[test]
fn unreachable_client_is_dropped_on_ack() {
    let mut server = linked();
    server.handle_client_message(CLIENT, request(BufferIndex::Zero));
    server.set_client_reachable(CLIENT, false);
    let actions = server.handle_render_event(ack(BufferIndex::Zero));
    assert_eq!(
        actions,
        vec![
            notify(S2CMsg::BufferRequestAck { monitor_id: MON_M, buffer: BufferIndex::Zero }),
            ServerAction::Disconnect(CLIENT),
            ServerAction::Render(RenderCmd::SessionRemoved { session_id: SES_S }),
            ServerAction::Render(RenderCmd::SetActiveSession { session_id: None }),
        ]
    );
    assert_eq!(server.ledger().owner(slot(BufferIndex::Zero)), BufferOwner::Client);
}

#[test]
fn page_flip_needs_active_session_with_client() {
    let mut server = ShiftServer::new();
    assert_eq!(server.handle_render_event(RenderEvt::PageFlip { monitors: vec![MON_M] }), vec![]);
    let mut server = linked();
    assert_eq!(server.handle_render_event(RenderEvt::PageFlip { monitors: vec![] }), vec![]);
    // A flip that belongs to nothing the session presented is ignored.
    assert_eq!(server.handle_render_event(RenderEvt::PageFlip { monitors: vec![MON_M, MON_N] }), vec![]);
    assert!(!server.active_sessions()[0].ready);
    assert_eq!(server.handle_render_event(RenderEvt::FatalError { reason: "gone".to_string() }), vec![]);
}

#[test]
fn relink_resets_the_pair() {
    let mut server = linked();
    server.handle_client_message(CLIENT, request(BufferIndex::Zero));
    server.handle_render_event(ack(BufferIndex::Zero));
    server.handle_render_event(RenderEvt::PageFlip { monitors: vec![MON_M] });
    server.handle_client_message(CLIENT, request(BufferIndex::One));
    assert_eq!(server.ledger().owner(slot(BufferIndex::Zero)), BufferOwner::Compositor);
    server.handle_client_message(
        CLIENT,
        C2SMsg::FramebufferLink { payload: link_payload(MON_M), dma_bufs: [30, 31] },
    );
    assert_eq!(server.ledger().owner(slot(BufferIndex::Zero)), BufferOwner::Client);
    assert_eq!(server.ledger().owner(slot(BufferIndex::One)), BufferOwner::Client);
    assert_eq!(server.ledger().front_buffer(SES_S, MON_M), None);
    assert_eq!(server.ledger().pending_len(), 0);
    // The stale ack of the dropped request is ignored.
    assert_eq!(server.handle_render_event(ack(BufferIndex::One)), vec![]);
    // A link with a monitor identifier that cannot be read is forwarded and resets nothing.
    server.handle_client_message(CLIENT, request(BufferIndex::One));
    let mut odd = link_payload(MON_M);
    odd.monitor_id = "mon_M".to_string();
    let actions = server.handle_client_message(
        CLIENT,
        C2SMsg::FramebufferLink { payload: odd.clone(), dma_bufs: [40, 41] },
    );
    assert_eq!(
        actions,
        vec![ServerAction::Render(RenderCmd::FramebufferLink {
            payload: odd,
            dma_bufs: [40, 41],
            session_id: SES_S,
        })]
    );
    assert_eq!(server.ledger().pending_len(), 1);
}

#[test]
fn admin_creates_session_and_others_may_not() {
    let mut server = authenticated();
    let wanted = SessionCreatePayload { role: SessionRole::Session, display_name: Some("guest".to_string()) };
    let actions = server.create_session(CLIENT, wanted.clone(), Token(0x70), SessionId(0x71));
    let pending = PendingSession { id: SessionId(0x71), role: Role::Normal, display_name: Some("guest".to_string()) };
    assert_eq!(actions, vec![notify(S2CMsg::SessionCreated(Token(0x70), pending))]);
    assert_eq!(server.pending_session_count(), 1);
    // The new session can be claimed, and its client may not create sessions.
    server.client_connected(ClientId(2));
    assert_eq!(server.handle_client_message(ClientId(2), C2SMsg::Auth(Token(0x70))).len(), 1);
    assert_eq!(server.current_session(), Some(SES_S));
    let actions = server.handle_client_message(ClientId(2), C2SMsg::CreateSession(wanted.clone()));
    assert_eq!(
        actions,
        vec![ServerAction::Notify {
            client_id: ClientId(2),
            message: S2CMsg::Error { code: ErrorCode::Forbidden, error: None, shutdown: false },
        }]
    );
    // Through the message handler the token and the identity are fresh.
    let actions = server.handle_client_message(CLIENT, C2SMsg::CreateSession(wanted));
    assert!(matches!(
        &actions[..],
        [ServerAction::Notify { client_id: CLIENT, message: S2CMsg::SessionCreated(_, p) }]
            if p.role == Role::Normal && p.display_name.as_deref() == Some("guest")
    ));
    assert_eq!(server.pending_session_count(), 1);
}

#[test]
fn initial_session_is_an_admin_session() {
    let mut server = ShiftServer::new();
    let token = server.add_initial_session();
    server.client_connected(CLIENT);
    let actions = server.handle_client_message(CLIENT, C2SMsg::Auth(token));
    assert!(matches!(
        &actions[..],
        [
            ServerAction::Notify { message: S2CMsg::BindToSession { session, .. }, .. },
            ServerAction::Render(RenderCmd::SetActiveSession { session_id: Some(id) }),
        ] if session.role == Role::Admin && session.id == *id
            && session.display_name.as_deref() == Some("Admin")
    ));
}

#[test]
fn every_fd_is_forwarded_or_closed_once() {
    fn fds(actions: &[ServerAction]) -> Vec<i32> {
        let mut out = Vec::new();
        for a in actions {
            match a {
                ServerAction::Close(fd) => out.push(*fd),
                ServerAction::Render(RenderCmd::FramebufferLink { dma_bufs, .. }) => {
                    out.extend_from_slice(dma_bufs)
                }
                ServerAction::Render(RenderCmd::SwapBuffers { acquire_fence: Some(fd), .. }) => {
                    out.push(*fd)
                }
                _ => {}
            }
        }
        out
    }
    let mut server = linked();
    let with_fence = |buffer| C2SMsg::BufferRequest { monitor_id: MON_M, buffer, acquire_fence: Some(50) };
    assert_eq!(fds(&server.handle_client_message(CLIENT, with_fence(BufferIndex::Zero))), vec![50]);
    assert_eq!(fds(&server.handle_client_message(CLIENT, with_fence(BufferIndex::Zero))), vec![50]);
    assert_eq!(fds(&server.handle_client_message(ClientId(9), with_fence(BufferIndex::Zero))), vec![50]);
    let link = C2SMsg::FramebufferLink { payload: link_payload(MON_M), dma_bufs: [60, 61] };
    assert_eq!(fds(&server.handle_client_message(CLIENT, link.clone())), vec![60, 61]);
    assert_eq!(fds(&server.handle_client_message(ClientId(9), link)), vec![60, 61]);
}
