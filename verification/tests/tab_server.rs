use shift::protocol::frame::TabMessageFrame;
use shift::protocol::message::TabMessage;
use shift::protocol::{
    AuthPayload, BufferIndex, BufferRequestPayload, FramebufferLinkPayload, MonitorAddedPayload,
    MonitorInfo, MonitorRemovedPayload, SessionCreatePayload, SessionLifecycle,
    SessionReadyPayload, SessionRole, SessionStatePayload, SessionSwitchPayload,
};
use shift::registry::SessionRegistry;
use shift::tab_server::client::{Client, ClientSession, Handled, ServerEvent};
use shift::tab_server::monitor::{Monitor, Output};
use shift::tab_server::server::{duration_ticks, infos_agree, Outbound, SessionTransitionState, TabServer};

type Texture = u32;

fn info(id: &str) -> MonitorInfo {
    MonitorInfo { id: id.to_string(), width: 1920, height: 1080, refresh_rate: 60, name: format!("Connector {id}") }
}

fn link_payload() -> FramebufferLinkPayload {
    FramebufferLinkPayload { monitor_id: "mon_M".to_string(), width: 1920, height: 1080, stride: 7680, offset: 0, fourcc: 1 }
}

fn swap(buffer: BufferIndex) -> TabMessage {
    TabMessage::BufferRequest {
        payload: BufferRequestPayload { monitor_id: "mon_M".to_string(), buffer },
        acquire_fence: None,
    }
}

fn auth(token: &str) -> TabMessage {
    TabMessage::Auth(AuthPayload { token: token.to_string() })
}

/// A server with one monitor, a pending admin session and a pending
/// session, and two connected clients.
fn server() -> TabServer<Texture> {
    let mut server = TabServer::new();
    server.register_monitor(info("mon_M"));
    server.register_session("ses_A".to_string(), "adm_A".to_string(), SessionRole::Admin, Some("admin".to_string()));
    server.register_session("ses_S".to_string(), "tok_S".to_string(), SessionRole::Session, None);
    server.add_client(Client::with_id("cli_1".to_string()));
    server.add_client(Client::with_id("cli_2".to_string()));
    server
}

#[test]
fn output_presents_one_swap_per_page_flip() {
    let mut output: Output<Texture> = Output::new([100, 101]);
    assert_eq!(output.borrow_current_texture(), None);
    assert_eq!(output.take_page_flip(5), None);
    output.swap(BufferIndex::One, 10);
    assert_eq!(output.borrow_current_texture(), Some(&101));
    assert!(output.pending_page_flip);
    output.swap(BufferIndex::Zero, 12);
    output.swap(BufferIndex::One, 13);
    // The queued swaps wait; the first one is still current.
    assert_eq!(output.current, Some(BufferIndex::One));
    assert_eq!(output.queue, vec![(BufferIndex::Zero, 12), (BufferIndex::One, 13)]);
    assert_eq!(output.take_page_flip(25), Some(15));
    assert_eq!(output.current, Some(BufferIndex::Zero));
    assert_eq!(output.current_swap_started, Some(12));
    assert_eq!(output.take_page_flip(30), Some(18));
    assert_eq!(output.borrow_current_texture(), Some(&101));
    assert_eq!(output.take_page_flip(31), Some(18));
    assert!(!output.pending_page_flip);
    assert_eq!(output.take_page_flip(40), None);
    // A clock that ran backwards gives no negative latency.
    output.swap(BufferIndex::Zero, 50);
    assert_eq!(output.take_page_flip(40), Some(0));
}

#[test]
fn monitor_keeps_outputs_by_session() {
    let mut monitor: Monitor<Texture> = Monitor::new(info("mon_M"));
    assert_eq!(monitor.info(), &info("mon_M"));
    let a = "ses_A".to_string();
    let b = "ses_B".to_string();
    assert!(!monitor.swap_buffers(&a, BufferIndex::Zero, 1));
    monitor.framebuffer_link(a.clone(), [1, 2]);
    monitor.framebuffer_link(b.clone(), [3, 4]);
    assert_eq!(monitor.current_buffer_for_session(&a), None);
    assert!(monitor.swap_buffers(&a, BufferIndex::One, 1));
    assert_eq!(monitor.current_buffer_for_session(&a), Some(&2));
    assert_eq!(monitor.current_buffer_for_session(&b), None);
    assert_eq!(monitor.take_pending_page_flip(&b, 5), None);
    assert_eq!(monitor.take_pending_page_flip(&a, 5), Some(4));
    assert_eq!(monitor.take_pending_page_flip(&"ses_C".to_string(), 5), None);
    // Linking anew starts over.
    monitor.framebuffer_link(a.clone(), [5, 6]);
    assert_eq!(monitor.current_buffer_for_session(&a), None);
    let removed = monitor.remove_session(&a).unwrap();
    assert_eq!(removed.buffers, [5, 6]);
    assert!(monitor.remove_session(&a).is_none());
    assert!(!monitor.swap_buffers(&a, BufferIndex::Zero, 1));
    monitor.update_info(info("mon_N"));
    assert_eq!(monitor.info(), &info("mon_N"));
}

#[test]
fn client_authenticates_against_registry() {
    let mut sessions = SessionRegistry::new();
    sessions.insert_pending("ses_A".to_string(), "adm_A".to_string(), SessionRole::Admin, None);
    sessions.insert_pending("ses_S".to_string(), "tok_S".to_string(), SessionRole::Session, None);
    let monitors = vec![info("mon_M")];
    let mut client = Client::with_id("cli_1".to_string());
    assert_eq!(client.session, ClientSession::new());
    let handled: Handled<Texture> = client.handle_message(auth("nope"), &mut sessions, &monitors, None);
    assert!(handled.events.is_empty());
    assert!(matches!(&handled.replies[..], [TabMessage::AuthError(p)] if p.error == "Unknown or expired token nope"));
    assert!(!client.session.authenticated);
    // An admin session is occupied as soon as it is claimed.
    let handled: Handled<Texture> = client.handle_message(auth("adm_A"), &mut sessions, &monitors, None);
    let told = match &handled.replies[..] {
        [TabMessage::AuthOk(p)] => {
            assert_eq!(p.monitors, monitors);
            assert_eq!(p.session.id, "ses_A");
            assert_eq!(p.session.state, SessionLifecycle::Occupied);
            p.session.clone()
        }
        other => panic!("{other:?}"),
    };
    assert_eq!(handled.events, vec![ServerEvent::SessionState { session: told, exclude_client_id: None }]);
    assert_eq!(
        client.session,
        ClientSession {
            authenticated: true,
            token: Some("adm_A".to_string()),
            session_id: Some("ses_A".to_string()),
            role: Some(SessionRole::Admin),
        }
    );
    // A session of a client is loading until the client says it is ready.
    let mut other = Client::with_id("cli_2".to_string());
    let handled: Handled<Texture> = other.handle_message(auth("tok_S"), &mut sessions, &monitors, None);
    assert!(matches!(&handled.replies[..], [TabMessage::AuthOk(p)] if p.session.state == SessionLifecycle::Loading));
    let ready = TabMessage::SessionReady(SessionReadyPayload { session_id: "ses_S".to_string() });
    let handled: Handled<Texture> = other.handle_message(ready, &mut sessions, &monitors, None);
    assert!(handled.replies.is_empty());
    assert!(matches!(
        &handled.events[..],
        [ServerEvent::SessionState { session, exclude_client_id: None }]
            if session.id == "ses_S" && session.state == SessionLifecycle::Occupied
    ));
    assert_eq!(sessions.get("ses_S").unwrap().state(), SessionLifecycle::Occupied);
}

#[test]
fn session_ready_is_checked() {
    let mut sessions = SessionRegistry::new();
    sessions.insert_pending("ses_A".to_string(), "adm_A".to_string(), SessionRole::Admin, None);
    sessions.insert_pending("ses_S".to_string(), "tok_S".to_string(), SessionRole::Session, None);
    let monitors = Vec::new();
    let ready = |id: &str| TabMessage::SessionReady(SessionReadyPayload { session_id: id.to_string() });
    let code = |handled: Handled<Texture>| match &handled.replies[..] {
        [TabMessage::Error(p)] if handled.events.is_empty() => p.code.clone(),
        other => panic!("{other:?}"),
    };
    let mut client = Client::with_id("cli_1".to_string());
    assert_eq!(code(client.handle_message(ready("ses_S"), &mut sessions, &monitors, None)), "not_authenticated");
    let _: Handled<Texture> = client.handle_message(auth("adm_A"), &mut sessions, &monitors, None);
    assert_eq!(code(client.handle_message(ready("ses_A"), &mut sessions, &monitors, None)), "invalid_role");
    let mut client = Client::with_id("cli_2".to_string());
    let _: Handled<Texture> = client.handle_message(auth("tok_S"), &mut sessions, &monitors, None);
    assert_eq!(code(client.handle_message(ready("ses_A"), &mut sessions, &monitors, None)), "session_mismatch");
}

#[test]
fn registry_session_create_needs_admin() {
    let mut sessions = SessionRegistry::new();
    sessions.insert_pending("ses_A".to_string(), "adm_A".to_string(), SessionRole::Admin, None);
    sessions.insert_pending("ses_S".to_string(), "tok_S".to_string(), SessionRole::Session, None);
    let monitors = Vec::new();
    let create = || TabMessage::SessionCreate(SessionCreatePayload { role: SessionRole::Session, display_name: Some("guest".to_string()) });
    let mut client = Client::with_id("cli_1".to_string());
    let handled: Handled<Texture> = client.handle_message(create(), &mut sessions, &monitors, None);
    assert!(matches!(&handled.replies[..], [TabMessage::Error(p)] if p.code == "not_authenticated"));
    let _: Handled<Texture> = client.handle_message(auth("tok_S"), &mut sessions, &monitors, None);
    let handled: Handled<Texture> = client.handle_message(create(), &mut sessions, &monitors, None);
    assert!(matches!(&handled.replies[..], [TabMessage::Error(p)] if p.code == "not_admin"));
    let mut admin = Client::with_id("cli_2".to_string());
    let _: Handled<Texture> = admin.handle_message(auth("adm_A"), &mut sessions, &monitors, None);
    let handled: Handled<Texture> = admin.handle_message(create(), &mut sessions, &monitors, None);
    let (session, token) = match &handled.replies[..] {
        [TabMessage::SessionCreated(p)] => (p.session.clone(), p.token.clone()),
        other => panic!("{other:?}"),
    };
    assert_eq!(session.role, SessionRole::Session);
    assert_eq!(session.state, SessionLifecycle::Pending);
    assert_eq!(session.display_name.as_deref(), Some("guest"));
    assert!(sessions.contains(&session.id));
    assert_eq!(
        handled.events,
        vec![ServerEvent::SessionState { session: session.clone(), exclude_client_id: Some("cli_2".to_string()) }]
    );
    assert_eq!(sessions.authenticate_with_token(&token), Some(session.id));
}

#[test]
fn framebuffer_link_and_swap_need_a_session() {
    let mut sessions = SessionRegistry::new();
    sessions.insert_pending("ses_S".to_string(), "tok_S".to_string(), SessionRole::Session, None);
    let monitors = Vec::new();
    let link = || TabMessage::FramebufferLink { payload: link_payload(), dma_bufs: [10, 11] };
    let mut client = Client::with_id("cli_1".to_string());
    assert!(!client.needs_textures(&link()));
    let handled: Handled<Texture> = client.handle_message(link(), &mut sessions, &monitors, Some([1, 2]));
    assert_eq!(handled, Handled { events: vec![], replies: vec![] });
    let handled: Handled<Texture> = client.handle_message(swap(BufferIndex::Zero), &mut sessions, &monitors, None);
    assert_eq!(handled, Handled { events: vec![], replies: vec![] });
    let _: Handled<Texture> = client.handle_message(auth("tok_S"), &mut sessions, &monitors, None);
    assert!(client.needs_textures(&link()));
    assert!(!client.needs_textures(&TabMessage::Ping));
    let handled: Handled<Texture> = client.handle_message(link(), &mut sessions, &monitors, Some([1, 2]));
    assert_eq!(
        handled.events,
        vec![ServerEvent::FramebufferLinked {
            monitor_id: "mon_M".to_string(),
            session_id: "ses_S".to_string(),
            buffers: [1, 2],
        }]
    );
    // Textures that could not be loaded link nothing.
    let handled: Handled<Texture> = client.handle_message(link(), &mut sessions, &monitors, None);
    assert!(handled.events.is_empty());
    let handled: Handled<Texture> = client.handle_message(swap(BufferIndex::One), &mut sessions, &monitors, None);
    assert_eq!(
        handled.events,
        vec![ServerEvent::SwapBuffers {
            session_id: "ses_S".to_string(),
            payload: BufferRequestPayload { monitor_id: "mon_M".to_string(), buffer: BufferIndex::One },
        }]
    );
    let switch = SessionSwitchPayload { session_id: "ses_T".to_string(), animation: None, duration_secs: 0, duration_nanos: 0 };
    let handled: Handled<Texture> = client.handle_message(TabMessage::SessionSwitch(switch.clone()), &mut sessions, &monitors, None);
    assert_eq!(handled.events, vec![ServerEvent::SessionSwitch(switch)]);
    let handled: Handled<Texture> = client.handle_message(TabMessage::Ping, &mut sessions, &monitors, None);
    assert_eq!(handled, Handled { events: vec![], replies: vec![] });
}

#[test]
fn register_monitor_announces_changes_only() {
    let mut server = server();
    assert_eq!(server.monitor_infos(), vec![info("mon_M")]);
    // Nobody is authenticated yet: nobody is told.
    assert_eq!(server.register_monitor(info("mon_N")), vec![]);
    server.handle_client_message(0, auth("adm_A"), None, 0);
    assert_eq!(server.register_monitor(info("mon_N")), vec![]);
    let mut changed = info("mon_N");
    changed.width = 1280;
    assert_eq!(
        server.register_monitor(changed.clone()),
        vec![Outbound {
            client_id: "cli_1".to_string(),
            message: TabMessage::MonitorAdded(MonitorAddedPayload { monitor: changed.clone() }),
        }]
    );
    assert_eq!(server.register_monitor(changed.clone()), vec![]);
    assert_eq!(server.monitor_infos().len(), 2);
    assert!(server.monitor_infos().contains(&changed));
    assert_eq!(
        server.remove_monitor(&"mon_N".to_string()),
        vec![Outbound {
            client_id: "cli_1".to_string(),
            message: TabMessage::MonitorRemoved(MonitorRemovedPayload {
                monitor_id: "mon_N".to_string(),
                name: "Connector mon_N".to_string(),
            }),
        }]
    );
    assert_eq!(server.remove_monitor(&"mon_N".to_string()), vec![]);
    assert_eq!(server.monitor_infos(), vec![info("mon_M")]);
    assert!(infos_agree(&info("a"), &info("a")));
    assert!(!infos_agree(&info("a"), &info("b")));
}

#[test]
fn server_presents_swapped_buffers() {
    let mut server = server();
    server.handle_client_message(0, auth("adm_A"), None, 0);
    let out = server.handle_client_message(1, auth("tok_S"), None, 0);
    // The client gets its answer, the admin the state of the session.
    assert_eq!(out.len(), 2);
    assert_eq!(out[0].client_id, "cli_2");
    assert!(matches!(&out[0].message, TabMessage::AuthOk(_)));
    assert_eq!(out[1].client_id, "cli_1");
    assert!(matches!(&out[1].message, TabMessage::SessionState(SessionStatePayload { session }) if session.id == "ses_S"));
    let link = TabMessage::FramebufferLink { payload: link_payload(), dma_bufs: [10, 11] };
    assert_eq!(server.handle_client_message(1, link, Some([7, 8]), 1), vec![]);
    let monitor = "mon_M".to_string();
    let session = "ses_S".to_string();
    assert_eq!(server.monitor_texture(&monitor, &session), None);
    assert_eq!(server.current_session_id(), None);
    assert_eq!(server.handle_client_message(1, swap(BufferIndex::One), None, 10), vec![]);
    assert_eq!(server.monitor_texture(&monitor, &session), Some(&8));
    // The first session that presents a buffer is shown.
    assert_eq!(server.current_session_id(), Some("ses_S"));
    let snapshot = server.render_snapshot();
    assert_eq!(snapshot.len(), 1);
    assert_eq!(snapshot[0].monitor_id, "mon_M");
    assert_eq!(snapshot[0].info, &info("mon_M"));
    assert_eq!(snapshot[0].active_texture, Some(&8));
    assert_eq!(snapshot[0].previous_texture, None);
    let frames = vec![(monitor.clone(), session.clone()), ("mon_X".to_string(), session.clone())];
    assert_eq!(
        server.notify_frame_rendered(&frames, 20),
        vec![Outbound {
            client_id: "cli_2".to_string(),
            message: TabMessage::Unknown(TabMessageFrame::raw("frame_done", "mon_M")),
        }]
    );
    assert_eq!(server.notify_frame_rendered(&frames, 21), vec![]);
}

#[test]
fn session_switch_starts_a_transition() {
    let mut server = server();
    let switch = |id: &str, animation: Option<&str>| {
        ServerEvent::SessionSwitch(SessionSwitchPayload {
            session_id: id.to_string(),
            animation: animation.map(|a| a.to_string()),
            duration_secs: 1,
            duration_nanos: 500,
        })
    };
    assert_eq!(server.dispatch_event(switch("ses_A", None), 5), vec![]);
    assert_eq!(server.current_session_id(), Some("ses_A"));
    assert_eq!(server.transition(), &None);
    server.dispatch_event(switch("ses_S", Some("blur")), 100);
    assert_eq!(server.current_session_id(), Some("ses_S"));
    let t = server.transition().clone().unwrap();
    assert_eq!(t.animation(), "blur");
    assert_eq!(t.old_session_id(), Some("ses_A"));
    assert_eq!(t.elapsed_of(100), (0, 1_000_000_500));
    assert_eq!(t.elapsed_of(600), (500, 1_000_000_500));
    assert_eq!(t.elapsed_of(50), (0, 1_000_000_500));
    assert!(!t.is_over(600));
    assert!(t.is_over(1_000_000_600));
    server.dispatch_event(switch("ses_A", None), 700);
    assert_eq!(server.transition(), &None);
    assert_eq!(duration_ticks(2, 3), 2_000_000_003);
    assert_eq!(duration_ticks(u64::MAX, 0), u64::MAX);
    let direct = SessionTransitionState::new("fade".to_string(), 10, None, 3);
    assert_eq!(direct.old_session_id(), None);
    assert!(direct.is_over(13));
}

#[test]
fn dropped_client_consumes_its_session() {
    let mut server = server();
    server.handle_client_message(0, auth("adm_A"), None, 0);
    server.handle_client_message(1, auth("tok_S"), None, 0);
    let link = TabMessage::FramebufferLink { payload: link_payload(), dma_bufs: [10, 11] };
    server.handle_client_message(1, link, Some([7, 8]), 1);
    server.handle_client_message(1, swap(BufferIndex::Zero), None, 2);
    let out = server.drop_client(1);
    assert_eq!(out.len(), 1);
    assert_eq!(out[0].client_id, "cli_1");
    assert!(matches!(
        &out[0].message,
        TabMessage::SessionState(SessionStatePayload { session })
            if session.id == "ses_S" && session.state == SessionLifecycle::Consumed
    ));
    assert_eq!(server.clients().len(), 1);
    assert_eq!(server.monitor_texture(&"mon_M".to_string(), &"ses_S".to_string()), None);
    assert_eq!(server.sessions().get("ses_S").unwrap().state(), SessionLifecycle::Consumed);
    // A client without session leaves without a trace.
    server.add_client(Client::new());
    assert_eq!(server.drop_client(1), vec![]);
    assert_eq!(server.clients().len(), 1);
}

#[test]
fn new_client_has_a_minted_identity() {
    let a = Client::new();
    let b = Client::new();
    assert!(a.id.starts_with("cli_"));
    // Two UUIDs of 16 bytes each, 22 base64 characters without padding.
    assert_eq!(a.id.len(), 4 + 22 + 22);
    assert!(a.id[4..].chars().all(|c| c.is_ascii_alphanumeric() || c == '+' || c == '/'));
    assert_ne!(a.id, b.id);
    assert!(!a.session.authenticated);
    assert_eq!(a.session.session_id, None);
}
