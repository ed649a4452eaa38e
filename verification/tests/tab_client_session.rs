use shift::protocol::frame::TabMessageFrame;
use shift::protocol::message::TabMessage;
use shift::protocol::{
    AuthErrorPayload, AuthOkPayload, BufferIndex, BufferReleasePayload, ErrorPayload,
    HelloPayload, MonitorAddedPayload, MonitorInfo, MonitorRemovedPayload, SessionInfo,
    SessionLifecycle, SessionReadyPayload, SessionRole, SessionStatePayload, PROTOCOL_VERSION,
};
use shift::tab_client::session::{
    auth_outcome, buffer_released, buffer_size, check_hello, monitor_added, ready_payload,
    render_node_candidates, Outputs, TabClientError,
};
use shift::tab_client::{MonitorEvent, MonitorState, RenderEvent, TabEvent};

fn info(id: &str) -> MonitorInfo {
    MonitorInfo { id: id.to_string(), width: 1920, height: 1080, refresh_rate: 60, name: "n".to_string() }
}

fn session() -> SessionInfo {
    SessionInfo { id: "ses_S".to_string(), role: SessionRole::Session, display_name: None, state: SessionLifecycle::Loading }
}

fn release(id: &str) -> TabMessage {
    TabMessage::BufferRelease(BufferReleasePayload { monitor_id: id.to_string(), buffer: BufferIndex::Zero })
}

#[test]
fn hello_must_speak_this_protocol() {
    let hello = HelloPayload { server: "shift".to_string(), protocol: PROTOCOL_VERSION.to_string() };
    assert_eq!(check_hello(TabMessage::Hello(hello.clone())), Ok(hello));
    let old = HelloPayload { server: "shift".to_string(), protocol: "tab/v0".to_string() };
    assert_eq!(
        check_hello(TabMessage::Hello(old)),
        Err(TabClientError::UnsupportedProtocol("tab/v0".to_string()))
    );
    assert_eq!(check_hello(TabMessage::Ping), Err(TabClientError::UnexpectedHeader("ping".to_string())));
    assert_eq!(
        check_hello(TabMessage::Unknown(TabMessageFrame::no_payload("welcome"))),
        Err(TabClientError::UnexpectedHeader("welcome".to_string()))
    );
}

#[test]
fn auth_outcomes() {
    let ok = AuthOkPayload { session: session(), monitors: vec![info("mon_M")] };
    assert_eq!(auth_outcome(TabMessage::AuthOk(ok.clone())), Ok(ok));
    assert_eq!(
        auth_outcome(TabMessage::AuthError(AuthErrorPayload { error: "not_found".to_string() })),
        Err(TabClientError::AuthRejected("not_found".to_string()))
    );
    assert_eq!(
        auth_outcome(TabMessage::Error(ErrorPayload { code: "forbidden".to_string(), message: None })),
        Err(TabClientError::AuthRejected("forbidden".to_string()))
    );
    assert_eq!(
        auth_outcome(TabMessage::Error(ErrorPayload {
            code: "forbidden".to_string(),
            message: Some("no".to_string()),
        })),
        Err(TabClientError::AuthRejected("no".to_string()))
    );
    assert_eq!(auth_outcome(TabMessage::Pong), Err(TabClientError::UnexpectedMessage(TabMessage::Pong)));
}

#[test]
fn ready_needs_a_session() {
    assert_eq!(ready_payload(&None), Err(TabClientError::NotAuthenticated));
    assert_eq!(
        ready_payload(&Some(session())),
        Ok(SessionReadyPayload { session_id: "ses_S".to_string() })
    );
}

#[test]
fn buffer_size_rejects_negative_dimensions() {
    assert_eq!(buffer_size(&info("m")), Ok((1920, 1080)));
    let mut bad = info("m");
    bad.width = -1;
    assert_eq!(buffer_size(&bad), Err(TabClientError::InvalidMonitorDimensions));
    let mut empty = info("m");
    empty.height = 0;
    assert_eq!(buffer_size(&empty), Ok((1920, 0)));
}

#[test]
fn outputs_cycle_their_buffers() {
    let mut outputs = Outputs::new();
    let m = "mon_M".to_string();
    assert_eq!(outputs.acquire_frame(&m), Err(TabClientError::UnknownMonitor("mon_M".to_string())));
    assert_eq!(outputs.begin_swap(&m), Err(TabClientError::UnknownMonitor("mon_M".to_string())));
    outputs.create_output(info("mon_M"));
    outputs.create_output(info("mon_N"));
    assert_eq!(outputs.monitor_ids(), vec!["mon_M".to_string(), "mon_N".to_string()]);
    assert_eq!(outputs.begin_swap(&m), Err(TabClientError::NoFreeBuffers("mon_M".to_string())));
    assert_eq!(outputs.acquire_frame(&m), Ok(0));
    assert_eq!(outputs.begin_swap(&m), Ok(0));
    assert_eq!(outputs.acquire_frame(&m), Ok(1));
    assert_eq!(outputs.acquire_frame(&m), Err(TabClientError::NoFreeBuffers("mon_M".to_string())));
    // The released buffer is free again.
    assert_eq!(
        outputs.handle_event_message(release("mon_M")),
        vec![TabEvent::FrameDone { monitor_id: "mon_M".to_string() }]
    );
    assert_eq!(outputs.handle_event_message(release("mon_M")), vec![]);
    assert_eq!(outputs.handle_event_message(release("mon_X")), vec![]);
    assert_eq!(outputs.acquire_frame(&m), Ok(0));
}

#[test]
fn events_of_the_compositor() {
    let mut outputs = Outputs::new();
    outputs.create_output(info("mon_M"));
    assert_eq!(
        outputs.handle_event_message(TabMessage::MonitorAdded(MonitorAddedPayload { monitor: info("mon_N") })),
        vec![TabEvent::MonitorAdded(info("mon_N"))]
    );
    // The output of a new monitor is made by the caller.
    assert_eq!(outputs.monitor_ids(), vec!["mon_M".to_string()]);
    assert_eq!(
        outputs.handle_event_message(TabMessage::MonitorRemoved(MonitorRemovedPayload {
            monitor_id: "mon_M".to_string(),
            name: "n".to_string(),
        })),
        vec![TabEvent::MonitorRemoved("mon_M".to_string())]
    );
    assert!(outputs.monitor_ids().is_empty());
    assert_eq!(
        outputs.handle_event_message(TabMessage::SessionState(SessionStatePayload { session: session() })),
        vec![TabEvent::SessionState(session())]
    );
    assert_eq!(outputs.take_error(), None);
    let error = TabMessage::Error(ErrorPayload { code: "forbidden".to_string(), message: None });
    assert_eq!(outputs.handle_event_message(error), vec![]);
    assert_eq!(outputs.take_error(), Some("forbidden".to_string()));
    assert_eq!(outputs.take_error(), None);
    assert_eq!(outputs.handle_event_message(TabMessage::Ping), vec![]);
}

#[test]
fn render_nodes_to_try() {
    assert_eq!(render_node_candidates(Some("/dev/dri/card0"), Some("/x")), vec!["/dev/dri/card0".to_string()]);
    assert_eq!(render_node_candidates(None, Some("/x")), vec!["/x".to_string()]);
    let all = render_node_candidates(None, None);
    assert_eq!(all.len(), 8);
    assert_eq!(all[0], "/dev/dri/renderD128");
    assert_eq!(all[7], "/dev/dri/renderD135");
    assert_eq!(
        buffer_released("mon_M".to_string(), BufferIndex::One),
        RenderEvent::BufferReleased { monitor_id: "mon_M".to_string(), buffer: BufferIndex::One }
    );
    assert_eq!(monitor_added(info("m")), MonitorEvent::Added(MonitorState::new(info("m"))));
}
