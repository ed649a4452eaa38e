use shift::protocol::error::{signed, ProtocolError};
use shift::protocol::frame::TabMessageFrame;
use shift::protocol::header::{self, MessageHeader};
use shift::protocol::message::{JsonBody, MessageKind, PayloadShape, TabMessage};
use shift::protocol::text::{decimal, same_text, skip_spaces, skip_word, split_two_words};
use shift::protocol::{
    AuthPayload, BufferIndex, BufferReleasePayload, BufferRequestAckPayload,
    BufferRequestPayload, ErrorPayload, FramebufferLinkPayload, HelloPayload,
    DEFAULT_SOCKET_PATH, PROTOCOL_VERSION,
};

fn frame(header: &str, payload: Option<&str>, fds: Vec<i32>) -> TabMessageFrame {
    TabMessageFrame {
        header: MessageHeader(header.to_string()),
        payload: payload.map(|p| p.to_string()),
        fds,
    }
}

fn no_json() -> Result<JsonBody, String> {
    Err(String::new())
}

#[test]
fn constants_are_what_the_wire_says() {
    assert_eq!(DEFAULT_SOCKET_PATH, "/tmp/shift.sock");
    assert!(PROTOCOL_VERSION.starts_with("tab/v"));
    assert_eq!(header::BUFFER_REQUEST_ACK, "buffer_request_ack");
    assert_eq!(header::FRAMEBUFFER_LINK, "framebuffer_link");
    assert_eq!(header::PING, "ping");
}

#[test]
fn buffer_index_reads_zero_and_one() {
    assert_eq!("0".parse::<BufferIndex>(), Ok(BufferIndex::Zero));
    assert_eq!("1".parse::<BufferIndex>(), Ok(BufferIndex::One));
    assert_eq!("2".parse::<BufferIndex>(), Err(()));
    assert_eq!("".parse::<BufferIndex>(), Err(()));
    assert_eq!("01".parse::<BufferIndex>(), Err(()));
    assert_eq!(BufferIndex::Zero.other(), BufferIndex::One);
    assert_eq!(BufferIndex::One.other(), BufferIndex::Zero);
    assert_eq!(BufferIndex::Zero.index(), 0);
    assert_eq!(BufferIndex::One.index(), 1);
}

#[test]
fn encode_writes_header_line_and_payload_line() {
    assert_eq!(TabMessageFrame::raw("buffer_request", "mon_M 0").encode(), b"buffer_request\nmon_M 0\n");
    assert_eq!(TabMessageFrame::no_payload("ping").encode(), b"ping\n\0\0\0\0\n");
}

#[test]
fn encode_trims_header_and_payload_ends() {
    assert_eq!(TabMessageFrame::raw("hello \t\n", "{}\n\n").encode(), b"hello\n{}\n");
    // Only line feeds are cut off the payload.
    assert_eq!(TabMessageFrame::raw("hello", "{} \n").encode(), b"hello\n{} \n");
    assert_eq!(TabMessageFrame::raw(" hello\u{a0}", "x").encode(), b" hello\nx\n");
}

#[test]
fn parse_from_bytes_reads_two_lines() {
    let parsed = TabMessageFrame::parse_from_bytes(b"hello\n{\"a\":1}\nrest", vec![3, 4]);
    assert_eq!(
        parsed,
        Ok(Some((frame("hello", Some("{\"a\":1}"), vec![3, 4]), 14)))
    );
}

#[test]
fn parse_from_bytes_reads_sentinel_as_no_payload() {
    let parsed = TabMessageFrame::parse_from_bytes(b"ping\n\0\0\0\0\n", vec![]);
    assert_eq!(parsed, Ok(Some((frame("ping", None, vec![]), 10))));
    // Three or five zero bytes are a payload.
    let parsed = TabMessageFrame::parse_from_bytes(b"ping\n\0\0\0\n", vec![]);
    assert_eq!(parsed, Ok(Some((frame("ping", Some("\0\0\0"), vec![]), 9))));
}

#[test]
fn parse_from_bytes_wants_two_line_feeds() {
    assert_eq!(TabMessageFrame::parse_from_bytes(b"", vec![]), Ok(None));
    assert_eq!(TabMessageFrame::parse_from_bytes(b"hello", vec![]), Ok(None));
    assert_eq!(TabMessageFrame::parse_from_bytes(b"hello\n{}", vec![]), Ok(None));
    assert_eq!(
        TabMessageFrame::parse_from_bytes(b"\n\n", vec![]),
        Ok(Some((frame("", Some(""), vec![]), 2)))
    );
}

#[test]
fn parse_from_bytes_rejects_bad_utf8() {
    assert_eq!(
        TabMessageFrame::parse_from_bytes(b"he\xffllo\n{}\n", vec![]),
        Err(ProtocolError::Utf8)
    );
    assert_eq!(
        TabMessageFrame::parse_from_bytes(b"hello\n\xc3\n", vec![]),
        Err(ProtocolError::Utf8)
    );
}

#[test]
fn parse_reads_back_what_encode_wrote() {
    for f in [
        frame("buffer_request", Some("mon_M 0"), vec![5]),
        frame("ping", None, vec![]),
        frame("auth", Some("{\"token\":\"tok_A\"}"), vec![]),
        frame("h\u{e9}llo", Some("\u{4e16}\u{754c}"), vec![1, 2, 3]),
        frame("x", Some(""), vec![]),
    ] {
        let bytes = f.encode();
        let parsed = TabMessageFrame::parse_from_bytes(&bytes, f.fds.clone());
        assert_eq!(parsed, Ok(Some((f, bytes.len()))));
    }
}

#[test]
fn from_datagram_reports_each_failure() {
    assert_eq!(
        TabMessageFrame::from_datagram(b"", vec![], false),
        Err(ProtocolError::UnexpectedEof)
    );
    assert_eq!(
        TabMessageFrame::from_datagram(b"ping\n\0\0\0\0\n", vec![], true),
        Err(ProtocolError::Truncated)
    );
    assert_eq!(
        TabMessageFrame::from_datagram(b"ping\n", vec![], false),
        Err(ProtocolError::UnexpectedEof)
    );
    assert_eq!(
        TabMessageFrame::from_datagram(b"ping\n\xff\n", vec![], false),
        Err(ProtocolError::Utf8)
    );
    assert_eq!(
        TabMessageFrame::from_datagram(b"ping\n\0\0\0\0\nx", vec![], false),
        Err(ProtocolError::TrailingData)
    );
    assert_eq!(
        TabMessageFrame::from_datagram(b"ping\n\0\0\0\0\n\0\0x", vec![], false),
        Err(ProtocolError::TrailingData)
    );
}

#[test]
fn from_datagram_accepts_zero_padding() {
    assert_eq!(
        TabMessageFrame::from_datagram(b"ping\n\0\0\0\0\n\0\0\0", vec![9], false),
        Ok(frame("ping", None, vec![9]))
    );
    assert_eq!(
        TabMessageFrame::from_datagram(b"auth\n{}\n", vec![], false),
        Ok(frame("auth", Some("{}"), vec![]))
    );
}

#[test]
fn expect_n_fds_counts() {
    assert_eq!(frame("x", None, vec![1, 2]).expect_n_fds(2), Ok(()));
    assert_eq!(frame("x", None, vec![]).expect_n_fds(0), Ok(()));
    assert_eq!(
        frame("x", None, vec![1]).expect_n_fds(2),
        Err(ProtocolError::ExpectedFds { expected: 2, found: 1 })
    );
    assert_eq!(
        frame("x", None, vec![1, 2, 3]).expect_n_fds(0),
        Err(ProtocolError::ExpectedFds { expected: 0, found: 3 })
    );
}

#[test]
fn message_kind_of_header() {
    assert_eq!(MessageKind::of_header("hello"), MessageKind::Hello);
    assert_eq!(MessageKind::of_header("auth_ok"), MessageKind::AuthOk);
    assert_eq!(MessageKind::of_header("buffer_request"), MessageKind::BufferRequest);
    assert_eq!(MessageKind::of_header("buffer_request_ack"), MessageKind::BufferRequestAck);
    assert_eq!(MessageKind::of_header("session_created"), MessageKind::SessionCreated);
    assert_eq!(MessageKind::of_header("pong"), MessageKind::Pong);
    assert_eq!(MessageKind::of_header("Hello"), MessageKind::Unknown);
    assert_eq!(MessageKind::of_header(""), MessageKind::Unknown);
    assert_eq!(MessageKind::of_header("frame_done"), MessageKind::Unknown);
    for kind in [
        MessageKind::Hello,
        MessageKind::Auth,
        MessageKind::AuthOk,
        MessageKind::AuthError,
        MessageKind::FramebufferLink,
        MessageKind::BufferRequest,
        MessageKind::BufferRequestAck,
        MessageKind::BufferRelease,
        MessageKind::InputEvent,
        MessageKind::MonitorAdded,
        MessageKind::MonitorRemoved,
        MessageKind::SessionSwitch,
        MessageKind::SessionCreate,
        MessageKind::SessionCreated,
        MessageKind::SessionReady,
        MessageKind::SessionState,
        MessageKind::SessionActive,
        MessageKind::Error,
        MessageKind::Ping,
        MessageKind::Pong,
    ] {
        assert_eq!(MessageKind::of_header(kind.header()), kind);
    }
    assert_eq!(MessageKind::BufferRelease.shape(), PayloadShape::SlotLiteral);
    assert_eq!(MessageKind::InputEvent.shape(), PayloadShape::Opaque);
    assert_eq!(MessageKind::Ping.shape(), PayloadShape::Nothing);
    assert_eq!(MessageKind::AuthOk.shape(), PayloadShape::Json);
}

#[test]
fn parse_ping_pong_and_unknown() {
    assert_eq!(
        TabMessage::parse_message_frame(frame("ping", None, vec![]), no_json()),
        (Ok(TabMessage::Ping), vec![])
    );
    assert_eq!(
        TabMessage::parse_message_frame(frame("pong", Some("ignored"), vec![]), no_json()),
        (Ok(TabMessage::Pong), vec![])
    );
    // A message that takes no file descriptors must come without.
    assert_eq!(
        TabMessage::parse_message_frame(frame("pong", None, vec![4]), no_json()),
        (Err(ProtocolError::ExpectedFds { expected: 0, found: 1 }), vec![4])
    );
    assert_eq!(
        TabMessage::parse_message_frame(frame("buffer_release", Some("mon_M 0"), vec![4, 5]), no_json()),
        (Err(ProtocolError::ExpectedFds { expected: 0, found: 2 }), vec![4, 5])
    );
    let unknown = frame("frame_done", Some("x"), vec![7]);
    assert_eq!(
        TabMessage::parse_message_frame(unknown.clone(), no_json()),
        (Ok(TabMessage::Unknown(unknown)), vec![])
    );
}

#[test]
fn parse_buffer_request_with_and_without_fence() {
    let expected = BufferRequestPayload { monitor_id: "mon_M".to_string(), buffer: BufferIndex::Zero };
    assert_eq!(
        TabMessage::parse_message_frame(frame("buffer_request", Some("mon_M 0"), vec![]), no_json()),
        (Ok(TabMessage::BufferRequest { payload: expected.clone(), acquire_fence: None }), vec![])
    );
    assert_eq!(
        TabMessage::parse_message_frame(frame("buffer_request", Some("  mon_M \t 0 "), vec![12]), no_json()),
        (Ok(TabMessage::BufferRequest { payload: expected, acquire_fence: Some(12) }), vec![])
    );
    assert_eq!(
        TabMessage::parse_message_frame(frame("buffer_request", Some("mon_M 1"), vec![1, 2]), no_json()),
        (Err(ProtocolError::ExpectedFds { expected: 1, found: 2 }), vec![1, 2])
    );
}

#[test]
fn parse_buffer_ack_and_release() {
    assert_eq!(
        TabMessage::parse_message_frame(frame("buffer_request_ack", Some("mon_M 1"), vec![]), no_json()).0,
        Ok(TabMessage::BufferRequestAck(BufferRequestAckPayload {
            monitor_id: "mon_M".to_string(),
            buffer: BufferIndex::One,
        }))
    );
    assert_eq!(
        TabMessage::parse_message_frame(frame("buffer_release", Some("m\u{f6}n 0"), vec![]), no_json()).0,
        Ok(TabMessage::BufferRelease(BufferReleasePayload {
            monitor_id: "m\u{f6}n".to_string(),
            buffer: BufferIndex::Zero,
        }))
    );
}

#[test]
fn parse_buffer_messages_rejects_bad_payloads() {
    assert_eq!(
        TabMessage::parse_message_frame(frame("buffer_request", None, vec![3]), no_json()),
        (Err(ProtocolError::ExpectedPayload), vec![3])
    );
    for bad in ["", "mon_M", "mon_M 2", "mon_M 0 1", "mon_M zero", "   "] {
        let (result, left) =
            TabMessage::parse_message_frame(frame("buffer_request", Some(bad), vec![3]), no_json());
        assert!(matches!(result, Err(ProtocolError::InvalidPayload(_))), "{bad:?}");
        assert_eq!(left, vec![3]);
        let (result, _) =
            TabMessage::parse_message_frame(frame("buffer_release", Some(bad), vec![]), no_json());
        assert!(matches!(result, Err(ProtocolError::InvalidPayload(_))), "{bad:?}");
    }
}

#[test]
fn parse_json_messages_takes_decoded_body() {
    let hello = HelloPayload { server: "shift".to_string(), protocol: PROTOCOL_VERSION.to_string() };
    assert_eq!(
        TabMessage::parse_message_frame(frame("hello", Some("{}"), vec![]), Ok(JsonBody::Hello(hello.clone()))).0,
        Ok(TabMessage::Hello(hello.clone()))
    );
    let auth = AuthPayload { token: "tok_A".to_string() };
    assert_eq!(
        TabMessage::parse_message_frame(frame("auth", Some("{}"), vec![]), Ok(JsonBody::Auth(auth.clone()))),
        (Ok(TabMessage::Auth(auth.clone())), vec![])
    );
    assert_eq!(
        TabMessage::parse_message_frame(frame("auth", Some("{}"), vec![8]), Ok(JsonBody::Auth(auth))),
        (Err(ProtocolError::ExpectedFds { expected: 0, found: 1 }), vec![8])
    );
    assert_eq!(
        TabMessage::parse_message_frame(frame("auth", None, vec![]), Ok(JsonBody::Hello(hello.clone()))).0,
        Err(ProtocolError::ExpectedPayload)
    );
    assert_eq!(
        TabMessage::parse_message_frame(frame("auth", Some("{"), vec![]), Err("EOF while parsing".to_string())).0,
        Err(ProtocolError::Json("EOF while parsing".to_string()))
    );
    assert!(matches!(
        TabMessage::parse_message_frame(frame("auth", Some("{}"), vec![]), Ok(JsonBody::Hello(hello))).0,
        Err(ProtocolError::Json(_))
    ));
}

#[test]
fn parse_framebuffer_link_wants_two_fds() {
    let payload = FramebufferLinkPayload {
        monitor_id: "mon_M".to_string(),
        width: 1920,
        height: 1080,
        stride: 7680,
        offset: 0,
        fourcc: 0x34325258,
    };
    let body = || Ok(JsonBody::FramebufferLink(payload.clone()));
    assert_eq!(
        TabMessage::parse_message_frame(frame("framebuffer_link", Some("{}"), vec![10, 11]), body()),
        (Ok(TabMessage::FramebufferLink { payload: payload.clone(), dma_bufs: [10, 11] }), vec![])
    );
    assert_eq!(
        TabMessage::parse_message_frame(frame("framebuffer_link", Some("{}"), vec![10]), body()),
        (Err(ProtocolError::ExpectedFds { expected: 2, found: 1 }), vec![10])
    );
    assert_eq!(
        TabMessage::parse_message_frame(frame("framebuffer_link", Some("{}"), vec![1, 2, 3]), body()),
        (Err(ProtocolError::ExpectedFds { expected: 2, found: 3 }), vec![1, 2, 3])
    );
}

#[test]
fn parse_input_event_is_opaque() {
    assert_eq!(
        TabMessage::parse_message_frame(frame("input_event", Some("{\"kind\":\"key\"}"), vec![]), no_json()).0,
        Ok(TabMessage::InputEvent("{\"kind\":\"key\"}".to_string()))
    );
    assert_eq!(
        TabMessage::parse_message_frame(frame("input_event", None, vec![]), no_json()).0,
        Err(ProtocolError::ExpectedPayload)
    );
}

#[test]
fn into_frame_and_back_for_buffer_messages() {
    for message in [
        TabMessage::BufferRequest {
            payload: BufferRequestPayload { monitor_id: "mon_M".to_string(), buffer: BufferIndex::One },
            acquire_fence: Some(5),
        },
        TabMessage::BufferRequest {
            payload: BufferRequestPayload { monitor_id: "mon_M".to_string(), buffer: BufferIndex::Zero },
            acquire_fence: None,
        },
        TabMessage::BufferRequestAck(BufferRequestAckPayload {
            monitor_id: "mon_0000000000000000000000000000004d".to_string(),
            buffer: BufferIndex::Zero,
        }),
        TabMessage::BufferRelease(BufferReleasePayload {
            monitor_id: "m".to_string(),
            buffer: BufferIndex::One,
        }),
        TabMessage::Ping,
        TabMessage::Pong,
    ] {
        let framed = message.clone().into_frame(None);
        let bytes = framed.encode();
        let received = TabMessageFrame::from_datagram(&bytes, framed.fds.clone(), false);
        assert_eq!(received, Ok(framed));
        let (read, left) = TabMessage::parse_message_frame(received.unwrap(), no_json());
        assert_eq!(read, Ok(message));
        assert!(left.is_empty());
    }
}

#[test]
fn into_frame_writes_literal_payload_and_json() {
    let ack = TabMessage::BufferRequestAck(BufferRequestAckPayload {
        monitor_id: "mon_M".to_string(),
        buffer: BufferIndex::Zero,
    });
    assert_eq!(ack.into_frame(None).encode(), b"buffer_request_ack\nmon_M 0\n");
    let error = TabMessage::Error(ErrorPayload { code: "forbidden".to_string(), message: None });
    assert_eq!(
        error.into_frame(Some("{\"code\":\"forbidden\"}".to_string())).encode(),
        b"error\n{\"code\":\"forbidden\"}\n"
    );
    assert_eq!(
        TabMessage::slot_frame("buffer_release", "mon_M", BufferIndex::One),
        frame("buffer_release", Some("mon_M 1"), vec![])
    );
}

#[test]
fn words_and_spaces() {
    assert_eq!(skip_spaces(b"  a", 0), 2);
    assert_eq!(skip_spaces(b"\t\n\x0c\r a", 0), 5);
    // A vertical tab is no space.
    assert_eq!(skip_spaces(b"\x0ba", 0), 0);
    assert_eq!(skip_word(b"abc def", 0), 3);
    assert_eq!(skip_word(b"abc", 1), 3);
    assert_eq!(split_two_words(b"a b"), Some((b"a".to_vec(), b"b".to_vec())));
    assert_eq!(split_two_words(b" ab\tcd "), Some((b"ab".to_vec(), b"cd".to_vec())));
    assert_eq!(split_two_words(b"a"), None);
    assert_eq!(split_two_words(b"a b c"), None);
    assert_eq!(split_two_words(b""), None);
    assert!(same_text("abc", "abc"));
    assert!(!same_text("abc", "abd"));
    assert!(!same_text("abc", "ab"));
}

#[test]
fn numbers_in_words() {
    assert_eq!(decimal(0), "0");
    assert_eq!(decimal(7), "7");
    assert_eq!(decimal(10), "10");
    assert_eq!(decimal(4294967295), "4294967295");
    assert_eq!(signed(-1), "-1");
    assert_eq!(signed(i32::MIN), "-2147483648");
    assert_eq!(signed(11), "11");
}

#[test]
fn errors_in_words() {
    assert_eq!(ProtocolError::UnexpectedEof.message(), "unexpected end of stream");
    assert_eq!(ProtocolError::Io("broken pipe".to_string()).message(), "io error: broken pipe");
    assert_eq!(ProtocolError::Json("eof".to_string()).message(), "json error: eof");
    assert_eq!(
        ProtocolError::InvalidPayload("two words".to_string()).message(),
        "invalid payload error: two words"
    );
    assert_eq!(ProtocolError::Nix(11).message(), "nix error: 11");
    assert_eq!(ProtocolError::TrailingData.message(), "unexpected extra data after payload");
    assert_eq!(ProtocolError::WouldBlock.message(), "operation would block (try again later)");
    assert_eq!(
        ProtocolError::Truncated.message(),
        "message payload was truncated (buffer too small)"
    );
    assert_eq!(
        ProtocolError::ExpectedPayload.message(),
        "The received message header requires a payload but none was received"
    );
    assert_eq!(
        ProtocolError::ExpectedFds { expected: 2, found: 10 }.message(),
        "Expected the received message to contain exactly 2 attached file descriptors, got 10"
    );
    assert!(ProtocolError::Utf8.message().starts_with("utf8 error"));
}

#[test]
fn bad_slot_literal_names_the_message() {
    let (result, _) =
        TabMessage::parse_message_frame(frame("buffer_request_ack", Some("mon_M"), vec![]), no_json());
    assert_eq!(
        result,
        Err(ProtocolError::InvalidPayload(
            "\"buffer_request_ack\" event requires 2 arguments: <monitor_id> <0 or 1 (buffer index)>"
                .to_string()
        ))
    );
    let (result, _) =
        TabMessage::parse_message_frame(frame("buffer_request", Some("mon_M 7"), vec![]), no_json());
    assert_eq!(
        result,
        Err(ProtocolError::InvalidPayload(
            "\"buffer_request\" request requires 2 arguments: <monitor_id> <0 or 1 (buffer index)>"
                .to_string()
        ))
    );
}
