use shift::protocol::{BufferIndex, FramebufferLinkPayload, MonitorInfo};
use shift::tab_client::config::TabClientConfig;
use shift::tab_client::swapchain::{TabBuffer, TabSwapchain};
use shift::tab_client::{FrameQueue, FrameTarget, MonitorState};

fn buffer(index: BufferIndex, fd: i32) -> TabBuffer {
    TabBuffer { index, width: 1920, height: 1080, stride: 7680, offset: 0, fourcc: 0x34325258, fd }
}

fn swapchain() -> TabSwapchain {
    TabSwapchain::new("mon_M".to_string(), [buffer(BufferIndex::Zero, 10), buffer(BufferIndex::One, 11)])
}

#[test]
fn config_builder() {
    let config = TabClientConfig::new("tok_A");
    assert_eq!(config.token(), "tok_A");
    assert_eq!(config.socket_path_ref(), "/tmp/shift.sock");
    assert_eq!(config.render_node_path(), None);
    let config = config.socket_path("/run/shift.sock").render_node("/dev/dri/renderD128");
    assert_eq!(config.token(), "tok_A");
    assert_eq!(config.socket_path_ref(), "/run/shift.sock");
    assert_eq!(config.render_node_path(), Some("/dev/dri/renderD128"));
}

#[test]
fn frame_target_getters() {
    let target = FrameTarget::new(3, 4, 1920, 1080);
    assert_eq!(target.framebuffer(), 3);
    assert_eq!(target.texture(), 4);
    assert_eq!(target.size(), (1920, 1080));
    let info = MonitorInfo { id: "mon_M".to_string(), width: 1, height: 2, refresh_rate: 3, name: "n".to_string() };
    assert_eq!(MonitorState::new(info.clone()).info, info);
}

#[test]
fn swapchain_alternates_between_free_buffers() {
    let mut chain = swapchain();
    assert_eq!(chain.current(), BufferIndex::Zero);
    assert_eq!(chain.acquire_next(), Some(BufferIndex::One));
    assert_eq!(chain.current(), BufferIndex::One);
    assert_eq!(chain.acquire_next(), Some(BufferIndex::Zero));
    chain.mark_busy(BufferIndex::Zero);
    assert_eq!(chain.acquire_next(), Some(BufferIndex::One));
    chain.mark_busy(BufferIndex::One);
    assert_eq!(chain.acquire_next(), None);
    assert_eq!(chain.current(), BufferIndex::One);
    chain.mark_released(BufferIndex::Zero);
    assert_eq!(chain.acquire_next(), Some(BufferIndex::Zero));
}

#[test]
fn swapchain_keeps_current_when_other_is_busy() {
    let mut chain = swapchain();
    chain.mark_busy(BufferIndex::One);
    assert_eq!(chain.acquire_next(), Some(BufferIndex::Zero));
    assert_eq!(chain.acquire_next(), Some(BufferIndex::Zero));
}

#[test]
fn swapchain_rollback_returns_to_acquired_buffer() {
    let mut chain = swapchain();
    assert_eq!(chain.acquire_next(), Some(BufferIndex::One));
    chain.rollback();
    assert_eq!(chain.current(), BufferIndex::Zero);
    assert_eq!(chain.acquire_next(), Some(BufferIndex::One));
    // After the buffer was sent there is nothing to roll back.
    chain.mark_busy(BufferIndex::One);
    chain.rollback();
    assert_eq!(chain.current(), BufferIndex::One);
    chain.rollback();
    assert_eq!(chain.current(), BufferIndex::One);
}

#[test]
fn swapchain_exports_layout_and_fds() {
    let chain = swapchain();
    assert_eq!(chain.export_fds(), [10, 11]);
    assert_eq!(
        chain.framebuffer_link_payload(),
        FramebufferLinkPayload {
            monitor_id: "mon_M".to_string(),
            width: 1920,
            height: 1080,
            stride: 7680,
            offset: 0,
            fourcc: 0x34325258,
        }
    );
    assert_eq!(chain.buffer(BufferIndex::One).fd(), 11);
    assert_eq!(chain.buffer(BufferIndex::Zero).index, BufferIndex::Zero);
    let b = buffer(BufferIndex::One, 7);
    assert_eq!((b.width(), b.height(), b.stride(), b.offset(), b.fourcc()), (1920, 1080, 7680, 0, 0x34325258));
}

#[test]
fn frame_queue_cycles_buffers() {
    let mut queue = FrameQueue::new();
    assert_eq!(queue.begin_swap(), None);
    assert!(!queue.complete_frame());
    assert_eq!(queue.acquire_frame(), Some(0));
    assert_eq!(queue.begin_swap(), Some(0));
    assert_eq!(queue.begin_swap(), None);
    assert_eq!(queue.acquire_frame(), Some(1));
    assert_eq!(queue.acquire_frame(), None);
    assert!(queue.complete_frame());
    assert!(!queue.complete_frame());
    assert_eq!(queue.acquire_frame(), Some(0));
    assert_eq!(queue.begin_swap(), Some(0));
    assert!(queue.complete_frame());
    assert_eq!(queue.acquire_frame(), Some(0));
}
