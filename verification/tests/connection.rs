use shift::input::{open_mode, transform_size, AccessFlags, DeviceIds, OpenMode};
use shift::protocol::connection::FrameBuffer;
use shift::protocol::error::ProtocolError;
use shift::protocol::frame::TabMessageFrame;

#[test]
fn frame_buffer_keeps_what_follows_a_frame() {
    let mut buffer = FrameBuffer::new();
    assert_eq!(buffer.try_parse_buffer(), Ok(None));
    let first = buffer.receive(b"ping\n\0\0\0\0\npong\n\0\0\0\0\nhel", vec![], false);
    assert_eq!(first, Ok(TabMessageFrame::no_payload("ping")));
    assert_eq!(buffer.len(), 13);
    assert_eq!(buffer.try_parse_buffer(), Ok(Some(TabMessageFrame::no_payload("pong"))));
    assert_eq!(buffer.len(), 3);
    // The rest is no whole frame yet.
    assert_eq!(buffer.try_parse_buffer(), Ok(None));
    assert_eq!(buffer.len(), 3);
    let next = buffer.receive(b"auth\n{}\n", vec![], false);
    assert_eq!(next, Ok(TabMessageFrame::raw("auth", "{}")));
    assert_eq!(buffer.len(), 3);
}

#[test]
fn frame_buffer_reports_failures() {
    let mut buffer = FrameBuffer::new();
    assert_eq!(buffer.receive(b"", vec![], false), Err(ProtocolError::UnexpectedEof));
    assert_eq!(buffer.receive(b"ping\n\0\0\0\0\n", vec![], true), Err(ProtocolError::Truncated));
    assert_eq!(buffer.receive(b"ping\n", vec![], false), Err(ProtocolError::UnexpectedEof));
    assert_eq!(buffer.receive(b"pi\xffng\n\n", vec![], false), Err(ProtocolError::Utf8));
    // File descriptors belong to one frame only.
    assert_eq!(
        buffer.receive(b"ping\n\0\0\0\0\npong\n", vec![3], false),
        Err(ProtocolError::TrailingData)
    );
    assert_eq!(buffer.len(), 0);
    let mut with_fd = TabMessageFrame::raw("buffer_request", "mon_M 0");
    with_fd.fds = vec![3];
    assert_eq!(buffer.receive(b"buffer_request\nmon_M 0\n", vec![3], false), Ok(with_fd));
}

#[test]
fn frame_buffer_rejects_bad_utf8_in_kept_bytes() {
    let mut buffer = FrameBuffer::new();
    assert!(buffer.receive(b"ping\n\0\0\0\0\n\xff\n\n", vec![], false).is_ok());
    assert_eq!(buffer.try_parse_buffer(), Err(ProtocolError::Utf8));
    assert_eq!(buffer.len(), 3);
}

#[test]
fn device_ids_count_from_one() {
    let mut ids = DeviceIds::new();
    assert_eq!(ids.device_id_for(0xdead), 1);
    assert_eq!(ids.device_id_for(0xbeef), 2);
    assert_eq!(ids.device_id_for(0xdead), 1);
    ids.forget(0xdead);
    assert_eq!(ids.device_id_for(0xdead), 3);
    assert_eq!(ids.device_id_for(0xbeef), 2);
    ids.forget(0x1);
    assert_eq!(ids.device_id_for(0x1), 4);
}

#[test]
fn open_mode_follows_the_flags() {
    let bits = AccessFlags { read_write: 2, write_only: 1, read_only: 0 };
    assert_eq!(open_mode(2, bits), OpenMode { read: true, write: true });
    assert_eq!(open_mode(2 | 0o4000, bits), OpenMode { read: true, write: true });
    assert_eq!(open_mode(1, bits), OpenMode { read: false, write: true });
    assert_eq!(open_mode(0, bits), OpenMode { read: true, write: false });
    assert_eq!(open_mode(0o4000, bits), OpenMode { read: true, write: false });
    assert_eq!(transform_size(0, 5), (1, 5));
    assert_eq!(transform_size(1920, 0), (1920, 1));
}
