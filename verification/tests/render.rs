use shift::comms::{RejectReason, RenderCmd, RenderEvt};
use shift::ids::{MonitorId, SessionId};
use shift::ledger::SlotRef;
use shift::monitor::Monitor;
use shift::protocol::{BufferIndex, FramebufferLinkPayload};
use shift::render::{BufferSlot, FenceEvent, MonitorSurfaceState, RenderAction, RenderState, SlotKey};

const MON_M: MonitorId = MonitorId(0x4d);
const MON_N: MonitorId = MonitorId(0x4e);
const SES_S: SessionId = SessionId(0x53);

fn monitor(id: MonitorId) -> Monitor {
    Monitor { id, width: 1920, height: 1080, refresh_rate: 60, name: "Monitor".to_string() }
}

fn key(buffer: BufferIndex) -> SlotRef {
    SlotRef { session_id: SES_S, monitor_id: MON_M, buffer }
}

fn payload(monitor_id: &str) -> FramebufferLinkPayload {
    FramebufferLinkPayload {
        monitor_id: monitor_id.to_string(),
        width: 1920,
        height: 1080,
        stride: 7680,
        offset: 0,
        fourcc: 0x34325258,
    }
}

fn swap(buffer: BufferIndex, acquire_fence: Option<i32>) -> RenderCmd {
    RenderCmd::SwapBuffers { monitor_id: MON_M, buffer, session_id: SES_S, acquire_fence }
}

fn ack(buffer: BufferIndex) -> RenderAction {
    RenderAction::Emit(RenderEvt::BufferRequestAck { session_id: SES_S, monitor_id: MON_M, buffer })
}

/// A render loop with one monitor, the session shown and both slots linked.
fn linked() -> RenderState {
    let mut render = RenderState::new();
    render.start(vec![monitor(MON_M)]);
    render.handle_command(RenderCmd::SetActiveSession { session_id: Some(SES_S) });
    render.texture_imported(key(BufferIndex::Zero));
    render.texture_imported(key(BufferIndex::One));
    render
}

#[test]
fn buffer_slot_conversions() {
    assert_eq!(BufferSlot::from_index(0), Some(BufferSlot::Zero));
    assert_eq!(BufferSlot::from_index(1), Some(BufferSlot::One));
    assert_eq!(BufferSlot::from_index(2), None);
    assert_eq!(BufferSlot::Zero.to_index(), BufferIndex::Zero);
    assert_eq!(BufferSlot::of_index(BufferIndex::One), BufferSlot::One);
    let k = SlotKey::new(MON_M, SES_S, BufferSlot::One);
    assert_eq!(k, SlotKey { monitor_id: MON_M, session_id: SES_S, buffer: BufferSlot::One });
    assert_eq!(k.to_slot(), key(BufferIndex::One));
}

#[test]
fn start_reports_monitors() {
    let mut render = RenderState::new();
    let event = render.start(vec![monitor(MON_M), monitor(MON_N)]);
    assert_eq!(event, RenderEvt::Started { monitors: vec![monitor(MON_M), monitor(MON_N)] });
    assert_eq!(render.known_monitors().len(), 2);
    assert_eq!(render.current_session(), None);
}

#[test]
fn framebuffer_link_asks_for_two_imports() {
    let mut render = linked();
    let (actions, go_on) = render.handle_command(RenderCmd::FramebufferLink {
        payload: payload(&MON_M.to_text()),
        dma_bufs: [10, 11],
        session_id: SES_S,
    });
    assert!(go_on);
    assert_eq!(
        actions,
        vec![
            RenderAction::Import { key: key(BufferIndex::Zero), payload: payload(&MON_M.to_text()), fd: 10 },
            RenderAction::Import { key: key(BufferIndex::One), payload: payload(&MON_M.to_text()), fd: 11 },
        ]
    );
    let (actions, _) = render.handle_command(RenderCmd::FramebufferLink {
        payload: payload("mon_M"),
        dma_bufs: [10, 11],
        session_id: SES_S,
    });
    assert_eq!(actions, vec![RenderAction::Close(10), RenderAction::Close(11)]);
}

#[test]
fn swap_without_fence_promotes_at_once() {
    let mut render = linked();
    let (actions, go_on) = render.handle_command(swap(BufferIndex::Zero, None));
    assert!(go_on);
    assert_eq!(actions, vec![ack(BufferIndex::Zero)]);
    assert_eq!(
        render.surface(MON_M, SES_S),
        MonitorSurfaceState { current_buffer: Some(BufferIndex::Zero), pending_buffer: None }
    );
    assert_eq!(render.texture_for_monitor(MON_M), Some(key(BufferIndex::Zero)));
    assert_eq!(render.texture_for_monitor(MON_N), None);
}

#[test]
fn swap_is_rejected_for_unknown_monitor_or_unlinked_slot() {
    let mut render = RenderState::new();
    let (actions, go_on) = render.handle_command(swap(BufferIndex::Zero, Some(7)));
    assert!(go_on);
    assert_eq!(
        actions,
        vec![
            RenderAction::Emit(RenderEvt::BufferRequestRejected {
                session_id: SES_S,
                monitor_id: MON_M,
                buffer: BufferIndex::Zero,
                reason: RejectReason::UnknownMonitor,
            }),
            RenderAction::Close(7),
        ]
    );
    render.start(vec![monitor(MON_M)]);
    let (actions, _) = render.handle_command(swap(BufferIndex::Zero, None));
    assert_eq!(
        actions,
        vec![RenderAction::Emit(RenderEvt::BufferRequestRejected {
            session_id: SES_S,
            monitor_id: MON_M,
            buffer: BufferIndex::Zero,
            reason: RejectReason::UnlinkedBuffer,
        })]
    );
    assert_eq!(render.surface(MON_M, SES_S), MonitorSurfaceState { current_buffer: None, pending_buffer: None });
}

#[test]
fn fence_gating() {
    let mut render = linked();
    render.handle_command(swap(BufferIndex::Zero, None));
    // The request with a fence is accepted, but the slot is not promoted.
    let (actions, _) = render.handle_command(swap(BufferIndex::One, Some(42)));
    assert_eq!(
        actions,
        vec![RenderAction::WaitFence { key: key(BufferIndex::One), fd: 42 }, ack(BufferIndex::One)]
    );
    assert_eq!(
        render.surface(MON_M, SES_S),
        MonitorSurfaceState { current_buffer: Some(BufferIndex::Zero), pending_buffer: Some(BufferIndex::One) }
    );
    assert_eq!(render.texture_for_monitor(MON_M), Some(key(BufferIndex::Zero)));
    assert!(render.awaits_fence(key(BufferIndex::One)));
    // Once the fence signals, the slot is drawn.
    render.handle_fence_event(FenceEvent::Signaled { key: key(BufferIndex::One) });
    assert_eq!(
        render.surface(MON_M, SES_S),
        MonitorSurfaceState { current_buffer: Some(BufferIndex::One), pending_buffer: None }
    );
    assert_eq!(render.texture_for_monitor(MON_M), Some(key(BufferIndex::One)));
    assert!(!render.awaits_fence(key(BufferIndex::One)));
}

#[test]
fn failed_fence_promotes_anyway() {
    let mut render = linked();
    render.handle_command(swap(BufferIndex::One, Some(42)));
    assert_eq!(render.texture_for_monitor(MON_M), None);
    render.handle_fence_event(FenceEvent::Failed { key: key(BufferIndex::One), reason: "poll".to_string() });
    assert_eq!(render.texture_for_monitor(MON_M), Some(key(BufferIndex::One)));
}

#[test]
fn stale_fence_does_not_promote() {
    let mut render = linked();
    render.handle_command(swap(BufferIndex::Zero, Some(42)));
    // The other slot is presented without fence before the first fence signals.
    let (actions, _) = render.handle_command(swap(BufferIndex::One, None));
    assert_eq!(actions, vec![ack(BufferIndex::One)]);
    render.handle_fence_event(FenceEvent::Signaled { key: key(BufferIndex::Zero) });
    assert_eq!(
        render.surface(MON_M, SES_S),
        MonitorSurfaceState { current_buffer: Some(BufferIndex::One), pending_buffer: None }
    );
    // A swap without fence for a slot that is waited for stops the waiter.
    render.handle_command(swap(BufferIndex::Zero, Some(43)));
    let (actions, _) = render.handle_command(swap(BufferIndex::Zero, None));
    assert_eq!(actions, vec![RenderAction::AbortFence(key(BufferIndex::Zero)), ack(BufferIndex::Zero)]);
    assert!(!render.awaits_fence(key(BufferIndex::Zero)));
    // A report for a pair that is not known changes nothing.
    render.handle_fence_event(FenceEvent::Signaled {
        key: SlotRef { session_id: SessionId(9), monitor_id: MON_M, buffer: BufferIndex::Zero },
    });
    assert_eq!(render.texture_for_monitor(MON_M), Some(key(BufferIndex::Zero)));
}

#[test]
fn session_removed_forgets_everything_of_it() {
    let mut render = linked();
    render.handle_command(swap(BufferIndex::Zero, None));
    render.handle_command(swap(BufferIndex::One, Some(42)));
    let other = SlotRef { session_id: SessionId(2), monitor_id: MON_M, buffer: BufferIndex::Zero };
    render.texture_imported(other);
    let (actions, go_on) = render.handle_command(RenderCmd::SessionRemoved { session_id: SES_S });
    assert!(go_on);
    assert_eq!(actions, vec![RenderAction::ForgetSession(SES_S)]);
    assert_eq!(render.current_session(), None);
    assert!(!render.has_texture(key(BufferIndex::Zero)));
    assert!(!render.has_texture(key(BufferIndex::One)));
    assert!(!render.awaits_fence(key(BufferIndex::One)));
    assert!(render.has_texture(other));
    assert_eq!(render.surface(MON_M, SES_S), MonitorSurfaceState { current_buffer: None, pending_buffer: None });
}

#[test]
fn shutdown_stops_the_loop() {
    let mut render = linked();
    assert_eq!(render.handle_command(RenderCmd::Shutdown), (vec![], false));
    let (actions, go_on) = render.handle_command(RenderCmd::SetActiveSession { session_id: None });
    assert!(actions.is_empty() && go_on);
    assert_eq!(render.current_session(), None);
}

#[test]
fn sync_monitors_reports_hotplug() {
    let mut render = linked();
    render.handle_command(swap(BufferIndex::Zero, None));
    let actions = render.sync_monitors(vec![monitor(MON_M), monitor(MON_N)]);
    assert_eq!(actions, vec![RenderAction::Emit(RenderEvt::MonitorOnline { monitor: monitor(MON_N) })]);
    assert_eq!(render.known_monitors().len(), 2);
    assert_eq!(render.sync_monitors(vec![monitor(MON_M), monitor(MON_N)]), vec![]);
    let actions = render.sync_monitors(vec![monitor(MON_N)]);
    assert_eq!(
        actions,
        vec![
            RenderAction::Emit(RenderEvt::MonitorOffline { monitor_id: MON_M }),
            RenderAction::ForgetMonitor(MON_M),
        ]
    );
    assert!(!render.has_texture(key(BufferIndex::Zero)));
    assert_eq!(render.texture_for_monitor(MON_M), None);
    assert_eq!(render.known_monitors(), &vec![monitor(MON_N)]);
    // A swap for the monitor that is gone is turned down.
    let (actions, _) = render.handle_command(swap(BufferIndex::Zero, None));
    assert!(matches!(
        &actions[..],
        [RenderAction::Emit(RenderEvt::BufferRequestRejected { reason: RejectReason::UnknownMonitor, .. })]
    ));
}
