use shift::client::{AuthFailure, ClientAction, ClientTask, ErrorText, Outgoing, Unexpected};
use shift::comms::{AuthError, C2SMsg, ErrorCode, ErrorDetail, RejectReason, S2CMsg};
use shift::ids::{ClientId, MonitorId, SessionId, Token};
use shift::ledger::BufferRelease;
use shift::monitor::Monitor;
use shift::protocol::error::ProtocolError;
use shift::protocol::frame::TabMessageFrame;
use shift::protocol::header::MessageHeader;
use shift::protocol::message::{JsonBody, TabMessage};
use shift::protocol::{
    AuthErrorPayload, AuthOkPayload, AuthPayload, BufferIndex, BufferReleasePayload,
    BufferRequestAckPayload, BufferRequestPayload, ErrorPayload, FramebufferLinkPayload,
    HelloPayload, MonitorAddedPayload, MonitorInfo, MonitorRemovedPayload, SessionCreatePayload,
    SessionCreatedPayload, SessionInfo, SessionLifecycle, SessionRole,
};
use shift::render::{RenderAction, RenderState};
use shift::server::{ServerAction, ShiftServer};
use shift::sessions::{PendingSession, Role, Session};

const MON_M: MonitorId = MonitorId(0x4d);
const SES_S: SessionId = SessionId(0x53);

fn session(role: Role) -> Session {
    Session { id: SES_S, role, display_name: Some("Admin".to_string()), ready: false }
}

fn monitor() -> Monitor {
    Monitor { id: MON_M, width: 1920, height: 1080, refresh_rate: 60, name: "Monitor 1".to_string() }
}

fn bound(role: Role) -> ClientTask {
    let mut task = ClientTask::new(ClientId(1));
    task.handle_server_layer_msg(Some(S2CMsg::BindToSession { session: session(role), monitors: vec![] }));
    task
}

fn link() -> TabMessage {
    TabMessage::FramebufferLink {
        payload: FramebufferLinkPayload {
            monitor_id: MON_M.to_text(),
            width: 1920,
            height: 1080,
            stride: 7680,
            offset: 0,
            fourcc: 0x34325258,
        },
        dma_bufs: [10, 11],
    }
}

fn error(code: ErrorCode, message: ErrorText) -> ClientAction {
    ClientAction::Send(Outgoing::Error { code, message: Some(message) })
}

#[test]
fn new_task_is_unbound_and_running() {
    let task = ClientTask::new(ClientId(5));
    assert_eq!(task.id(), ClientId(5));
    assert!(!task.is_shutdown());
    assert_eq!(task.connected_session(), &None);
}

#[test]
fn auth_forwards_token_or_reports_parse_error() {
    let mut task = ClientTask::new(ClientId(1));
    let actions = task.handle_packet(TabMessage::Auth(AuthPayload { token: Token(10).to_text() }));
    assert_eq!(actions, vec![ClientAction::Forward(C2SMsg::Auth(Token(10)))]);
    let actions = task.handle_packet(TabMessage::Auth(AuthPayload { token: "tok_A".to_string() }));
    assert_eq!(actions, vec![ClientAction::Send(Outgoing::AuthError(AuthFailure::TokenParse))]);
    assert!(!task.is_shutdown());
}

#[test]
fn ping_is_answered_with_pong() {
    let mut task = ClientTask::new(ClientId(1));
    assert_eq!(task.handle_packet(TabMessage::Ping), vec![ClientAction::Send(Outgoing::Pong)]);
    assert!(!task.is_shutdown());
}

#[test]
fn buffer_request_needs_a_monitor_id() {
    let mut task = bound(Role::Normal);
    let ok = TabMessage::BufferRequest {
        payload: BufferRequestPayload { monitor_id: MON_M.to_text(), buffer: BufferIndex::One },
        acquire_fence: Some(9),
    };
    assert_eq!(
        task.handle_packet(ok),
        vec![ClientAction::Forward(C2SMsg::BufferRequest {
            monitor_id: MON_M,
            buffer: BufferIndex::One,
            acquire_fence: Some(9),
        })]
    );
    let bad = TabMessage::BufferRequest {
        payload: BufferRequestPayload { monitor_id: "mon_M".to_string(), buffer: BufferIndex::One },
        acquire_fence: Some(9),
    };
    assert_eq!(
        task.handle_packet(bad),
        vec![error(ErrorCode::UnknownMonitor, ErrorText::MonitorIdParse), ClientAction::Close(9)]
    );
    assert!(!task.is_shutdown());
}

#[test]
fn session_create_needs_admin() {
    let request = SessionCreatePayload { role: SessionRole::Session, display_name: None };
    let mut task = ClientTask::new(ClientId(1));
    assert_eq!(
        task.handle_packet(TabMessage::SessionCreate(request.clone())),
        vec![error(ErrorCode::Forbidden, ErrorText::NeedAdmin)]
    );
    let mut task = bound(Role::Normal);
    assert_eq!(
        task.handle_packet(TabMessage::SessionCreate(request.clone())),
        vec![error(ErrorCode::Forbidden, ErrorText::NeedAdmin)]
    );
    let mut task = bound(Role::Admin);
    assert_eq!(
        task.handle_packet(TabMessage::SessionCreate(request.clone())),
        vec![ClientAction::Forward(C2SMsg::CreateSession(request))]
    );
}

#[test]
fn framebuffer_link_needs_session() {
    let mut task = ClientTask::new(ClientId(1));
    assert_eq!(
        task.handle_packet(link()),
        vec![
            error(ErrorCode::Forbidden, ErrorText::NeedSession),
            ClientAction::Close(10),
            ClientAction::Close(11),
        ]
    );
    let mut task = bound(Role::Normal);
    let actions = task.handle_packet(link());
    assert!(matches!(
        &actions[..],
        [ClientAction::Forward(C2SMsg::FramebufferLink { dma_bufs: [10, 11], .. })]
    ));
}

#[test]
fn server_messages_are_refused_and_end_the_task() {
    let mut task = bound(Role::Admin);
    let hello = TabMessage::Hello(HelloPayload { server: "x".to_string(), protocol: "y".to_string() });
    assert_eq!(
        task.handle_packet(hello),
        vec![
            error(ErrorCode::ProtocolViolation, ErrorText::Unexpected(Unexpected::Hello)),
            ClientAction::Forward(C2SMsg::Shutdown),
        ]
    );
    assert!(task.is_shutdown());
    let mut task = ClientTask::new(ClientId(1));
    assert_eq!(
        task.handle_packet(TabMessage::Pong),
        vec![
            error(ErrorCode::ProtocolViolation, ErrorText::Unexpected(Unexpected::Pong)),
            ClientAction::Forward(C2SMsg::Shutdown),
        ]
    );
    let mut task = ClientTask::new(ClientId(1));
    let frame = TabMessageFrame {
        header: MessageHeader("frame_done".to_string()),
        payload: None,
        fds: vec![4, 5],
    };
    assert_eq!(
        task.handle_packet(TabMessage::Unknown(frame)),
        vec![
            error(ErrorCode::ProtocolViolation, ErrorText::UnknownHeader("frame_done".to_string())),
            ClientAction::Close(4),
            ClientAction::Close(5),
            ClientAction::Forward(C2SMsg::Shutdown),
        ]
    );
    assert!(task.is_shutdown());
}

#[test]
fn protocol_error_ends_the_task() {
    let mut task = ClientTask::new(ClientId(1));
    assert_eq!(
        task.handle_protocol_error(ProtocolError::TrailingData),
        vec![
            error(ErrorCode::ProtocolViolation, ErrorText::Protocol(ProtocolError::TrailingData)),
            ClientAction::Forward(C2SMsg::Shutdown),
        ]
    );
    assert!(task.is_shutdown());
}

#[test]
fn bind_to_session_sends_auth_ok_and_remembers_session() {
    let mut task = ClientTask::new(ClientId(1));
    let actions = task.handle_server_layer_msg(Some(S2CMsg::BindToSession {
        session: session(Role::Admin),
        monitors: vec![monitor()],
    }));
    assert_eq!(
        actions,
        vec![ClientAction::Send(Outgoing::AuthOk { session: session(Role::Admin), monitors: vec![monitor()] })]
    );
    assert_eq!(task.connected_session(), &Some(session(Role::Admin)));
}

#[test]
fn server_layer_messages_are_passed_on() {
    let mut task = bound(Role::Admin);
    assert_eq!(
        task.handle_server_layer_msg(Some(S2CMsg::AuthError(AuthError::NotFound))),
        vec![ClientAction::Send(Outgoing::AuthError(AuthFailure::Refused(AuthError::NotFound)))]
    );
    let pending = PendingSession { id: SessionId(2), role: Role::Normal, display_name: None };
    assert_eq!(
        task.handle_server_layer_msg(Some(S2CMsg::SessionCreated(Token(3), pending.clone()))),
        vec![ClientAction::Send(Outgoing::SessionCreated { token: Token(3), session: pending })]
    );
    assert_eq!(
        task.handle_server_layer_msg(Some(S2CMsg::BufferRequestAck { monitor_id: MON_M, buffer: BufferIndex::Zero })),
        vec![ClientAction::Send(Outgoing::BufferRequestAck { monitor_id: MON_M, buffer: BufferIndex::Zero })]
    );
    let releases = vec![
        BufferRelease { monitor_id: MON_M, buffer: BufferIndex::Zero },
        BufferRelease { monitor_id: MonitorId(2), buffer: BufferIndex::One },
    ];
    assert_eq!(
        task.handle_server_layer_msg(Some(S2CMsg::BufferRelease { buffers: releases.clone() })),
        vec![
            ClientAction::Send(Outgoing::BufferRelease(releases[0])),
            ClientAction::Send(Outgoing::BufferRelease(releases[1])),
        ]
    );
    assert_eq!(
        task.handle_server_layer_msg(Some(S2CMsg::MonitorAdded { monitor: monitor() })),
        vec![ClientAction::Send(Outgoing::MonitorAdded(monitor()))]
    );
    assert_eq!(
        task.handle_server_layer_msg(Some(S2CMsg::MonitorRemoved { monitor_id: MON_M, name: "n".to_string() })),
        vec![ClientAction::Send(Outgoing::MonitorRemoved { monitor_id: MON_M, name: "n".to_string() })]
    );
    assert!(!task.is_shutdown());
}

#[test]
fn error_with_shutdown_ends_the_task() {
    let mut task = bound(Role::Normal);
    let actions = task.handle_server_layer_msg(Some(S2CMsg::Error {
        code: ErrorCode::OwnershipViolation,
        error: Some(ErrorDetail::NotClientOwned),
        shutdown: false,
    }));
    assert_eq!(
        actions,
        vec![error(ErrorCode::OwnershipViolation, ErrorText::Detail(ErrorDetail::NotClientOwned))]
    );
    assert!(!task.is_shutdown());
    let actions = task.handle_server_layer_msg(Some(S2CMsg::Error {
        code: ErrorCode::RenderUnavailable,
        error: None,
        shutdown: true,
    }));
    assert_eq!(
        actions,
        vec![
            ClientAction::Send(Outgoing::Error { code: ErrorCode::RenderUnavailable, message: None }),
            ClientAction::Forward(C2SMsg::Shutdown),
        ]
    );
    assert!(task.is_shutdown());
}

#[test]
fn closed_channel_ends_the_task() {
    let mut task = bound(Role::Normal);
    assert_eq!(task.handle_server_layer_msg(None), vec![ClientAction::Forward(C2SMsg::Shutdown)]);
    assert!(task.is_shutdown());
    let mut task = ClientTask::new(ClientId(1));
    assert_eq!(task.schedule_shutdown(), vec![ClientAction::Forward(C2SMsg::Shutdown)]);
    assert!(task.is_shutdown());
}

#[test]
fn outgoing_messages_in_wire_form() {
    assert_eq!(Outgoing::Pong.to_message(), TabMessage::Pong);
    assert_eq!(
        Outgoing::Error { code: ErrorCode::BufferRequestInflight, message: Some(ErrorText::Detail(ErrorDetail::AlreadyPending)) }
            .to_message(),
        TabMessage::Error(ErrorPayload {
            code: "buffer_request_inflight".to_string(),
            message: Some("buffer request already pending".to_string()),
        })
    );
    assert_eq!(
        Outgoing::Error { code: ErrorCode::Forbidden, message: None }.to_message(),
        TabMessage::Error(ErrorPayload { code: "forbidden".to_string(), message: None })
    );
    assert_eq!(
        Outgoing::AuthError(AuthFailure::Refused(AuthError::NotFound)).to_message(),
        TabMessage::AuthError(AuthErrorPayload { error: "not_found".to_string() })
    );
    assert_eq!(
        Outgoing::BufferRequestAck { monitor_id: MON_M, buffer: BufferIndex::Zero }.to_message(),
        TabMessage::BufferRequestAck(BufferRequestAckPayload {
            monitor_id: "mon_0000000000000000000000000000004d".to_string(),
            buffer: BufferIndex::Zero,
        })
    );
    assert_eq!(
        Outgoing::BufferRelease(BufferRelease { monitor_id: MON_M, buffer: BufferIndex::One }).to_message(),
        TabMessage::BufferRelease(BufferReleasePayload {
            monitor_id: "mon_0000000000000000000000000000004d".to_string(),
            buffer: BufferIndex::One,
        })
    );
    let info = MonitorInfo {
        id: "mon_0000000000000000000000000000004d".to_string(),
        width: 1920,
        height: 1080,
        refresh_rate: 60,
        name: "Monitor 1".to_string(),
    };
    assert_eq!(
        Outgoing::MonitorAdded(monitor()).to_message(),
        TabMessage::MonitorAdded(MonitorAddedPayload { monitor: info.clone() })
    );
    assert_eq!(
        Outgoing::MonitorRemoved { monitor_id: MON_M, name: "Monitor 1".to_string() }.to_message(),
        TabMessage::MonitorRemoved(MonitorRemovedPayload {
            monitor_id: "mon_0000000000000000000000000000004d".to_string(),
            name: "Monitor 1".to_string(),
        })
    );
    assert_eq!(
        Outgoing::AuthOk { session: session(Role::Admin), monitors: vec![monitor()] }.to_message(),
        TabMessage::AuthOk(AuthOkPayload {
            session: SessionInfo {
                id: "ses_00000000000000000000000000000053".to_string(),
                role: SessionRole::Admin,
                display_name: Some("Admin".to_string()),
                state: SessionLifecycle::Loading,
            },
            monitors: vec![info],
        })
    );
    let pending = PendingSession { id: SessionId(2), role: Role::Normal, display_name: None };
    assert_eq!(
        Outgoing::SessionCreated { token: Token(3), session: pending }.to_message(),
        TabMessage::SessionCreated(SessionCreatedPayload {
            session: SessionInfo {
                id: "ses_00000000000000000000000000000002".to_string(),
                role: SessionRole::Session,
                display_name: None,
                state: SessionLifecycle::Pending,
            },
            token: "tok_00000000000000000000000000000003".to_string(),
        })
    );
}

#[test]
fn error_texts_and_codes() {
    assert_eq!(ErrorCode::ProtocolViolation.as_str(), "protocol_violation");
    assert_eq!(ErrorCode::NotFound.as_str(), "not_found");
    assert_eq!(ErrorCode::UnknownMonitor.as_str(), "unknown_monitor");
    assert_eq!(ErrorCode::UnlinkedBuffer.as_str(), "unlinked_buffer");
    assert_eq!(ErrorCode::BufferRequestRejected.as_str(), "buffer_request_rejected");
    assert_eq!(ErrorDetail::Rejected(RejectReason::UnlinkedBuffer).as_str(), "unlinked_buffer");
    assert_eq!(ErrorDetail::RendererUnavailable.as_str(), "renderer unavailable");
    assert_eq!(ErrorText::Unexpected(Unexpected::SessionSwitch).text(), "SessionSwitch");
    assert_eq!(ErrorText::Protocol(ProtocolError::Truncated).text(), ProtocolError::Truncated.message());
    assert_eq!(AuthFailure::TokenParse.text(), "token parse error");
}

/// What the compositor answers to a datagram of the client, as datagrams.
fn exchange(
    task: &mut ClientTask,
    server: &mut ShiftServer,
    render: &mut RenderState,
    bytes: &[u8],
    fds: Vec<i32>,
) -> Vec<Vec<u8>> {
    let client_id = task.id();
    let frame = TabMessageFrame::from_datagram(bytes, fds, false).unwrap();
    let decoded = if frame.header.0 == "auth" {
        Ok(JsonBody::Auth(AuthPayload { token: Token(10).to_text() }))
    } else if frame.header.0 == "framebuffer_link" {
        Ok(JsonBody::FramebufferLink(FramebufferLinkPayload {
            monitor_id: MON_M.to_text(),
            width: 1920,
            height: 1080,
            stride: 7680,
            offset: 0,
            fourcc: 0x34325258,
        }))
    } else {
        Err(String::new())
    };
    let (message, unused) = TabMessage::parse_message_frame(frame, decoded);
    assert!(unused.is_empty());
    let mut out = Vec::new();
    let mut to_server = Vec::new();
    for action in task.handle_packet(message.unwrap()) {
        match action {
            ClientAction::Forward(m) => to_server.push(m),
            ClientAction::Send(o) => out.push(o),
            ClientAction::Close(_) => {}
        }
    }
    let mut to_client = Vec::new();
    for m in to_server {
        for action in server.handle_client_message(client_id, m) {
            match action {
                ServerAction::Notify { message, .. } => to_client.push(message),
                ServerAction::Render(cmd) => {
                    for a in render.handle_command(cmd).0 {
                        match a {
                            RenderAction::Emit(event) => {
                                for action in server.handle_render_event(event) {
                                    if let ServerAction::Notify { message, .. } = action {
                                        to_client.push(message);
                                    }
                                }
                            }
                            RenderAction::Import { key, .. } => render.texture_imported(key),
                            _ => {}
                        }
                    }
                }
                _ => {}
            }
        }
    }
    for m in to_client {
        for action in task.handle_server_layer_msg(Some(m)) {
            if let ClientAction::Send(o) = action {
                out.push(o);
            }
        }
    }
    out.into_iter()
        .map(|o| o.to_message().into_frame(Some("{}".to_string())).encode())
        .collect()
}

#[test]
fn request_travels_from_socket_to_socket() {
    let client_id = ClientId(1);
    let mut server = ShiftServer::new();
    let mut render = RenderState::new();
    let mut task = ClientTask::new(client_id);
    let started = render.start(vec![monitor()]);
    server.handle_render_event(started);
    server.register_pending(Token(10), PendingSession::with_id(SES_S, None, Role::Admin));
    server.client_connected(client_id);

    let auth = format!("auth\n{{\"token\":\"{}\"}}\n", Token(10).to_text());
    assert_eq!(
        exchange(&mut task, &mut server, &mut render, auth.as_bytes(), vec![]),
        vec![b"auth_ok\n{}\n".to_vec()]
    );
    assert_eq!(render.current_session(), Some(SES_S));
    let request = format!("buffer_request\n{} 0\n", MON_M.to_text());
    // Before the buffers are linked the renderer turns the request down.
    assert_eq!(
        exchange(&mut task, &mut server, &mut render, request.as_bytes(), vec![]),
        vec![b"error\n{}\n".to_vec()]
    );
    assert_eq!(
        exchange(&mut task, &mut server, &mut render, b"framebuffer_link\n{}\n", vec![10, 11]),
        Vec::<Vec<u8>>::new()
    );
    let ack = format!("buffer_request_ack\n{} 0\n", MON_M.to_text());
    assert_eq!(
        exchange(&mut task, &mut server, &mut render, request.as_bytes(), vec![]),
        vec![ack.into_bytes()]
    );
    assert_eq!(
        exchange(&mut task, &mut server, &mut render, b"ping\n\0\0\0\0\n", vec![]),
        vec![b"pong\n\0\0\0\0\n".to_vec()]
    );
}
