//! What holds of the codec: a frame that was encoded is read back as it
//! was, and so is a message.

use crate::protocol::frame::{encoded, lemma_line_run, parsed, sentinel, FrameView, Parsed};
use crate::protocol::header;
use crate::protocol::message::{message_kind, slot_literal, MessageKind};
use crate::protocol::text::{is_space, lemma_two_words_joined, trimmed_end, without_line_ends};
use crate::protocol::BufferIndex;
use vstd::prelude::*;
use vstd::utf8::*;

verus! {

/// A byte below 0x80 in the encoding of a scalar is the scalar itself.
pub proof fn lemma_scalar_bytes(v: u32, i: int)
    requires
        is_scalar(v),
        0 <= i < encode_scalar(v).len(),
        encode_scalar(v)[i] < 0x80,
    ensures
        has_width_1_encoding(v),
        encode_scalar(v)[i] as u32 == v,
{
    if has_width_1_encoding(v) {
        assert(((v & 0x7F) as u8) as u32 == v) by (bit_vector)
            requires
                v <= 0x7F,
        ;
    } else {
        let a2 = ((v >> 6) & 0x1F) as u8;
        let a3 = ((v >> 12) & 0x0F) as u8;
        let a4 = ((v >> 18) & 0x7) as u8;
        let c1 = (v & 0x3F) as u8;
        let c2 = ((v >> 6) & 0x3F) as u8;
        let c3 = ((v >> 12) & 0x3F) as u8;
        assert(0xC0u8 | a2 >= 0x80) by (bit_vector);
        assert(0xE0u8 | a3 >= 0x80) by (bit_vector);
        assert(0xF0u8 | a4 >= 0x80) by (bit_vector);
        assert(0x80u8 | c1 >= 0x80) by (bit_vector);
        assert(0x80u8 | c2 >= 0x80) by (bit_vector);
        assert(0x80u8 | c3 >= 0x80) by (bit_vector);
    }
}

/// A byte below 0x80 in the encoding of a text is a character of the text.
pub proof fn lemma_ascii_byte_is_char(s: Seq<char>, i: int)
    requires
        0 <= i < encode_utf8(s).len(),
        encode_utf8(s)[i] < 0x80,
    ensures
        exists|j: int| 0 <= j < s.len() && (#[trigger] s[j]) as u32 == encode_utf8(s)[i] as u32,
    decreases s.len(),
{
    if s.len() > 0 {
        let head = encode_scalar(s[0] as u32);
        let rest = s.drop_first();
        char_is_scalar(s[0]);
        if i < head.len() {
            assert(encode_utf8(s)[i] == head[i]);
            lemma_scalar_bytes(s[0] as u32, i);
        } else {
            assert(encode_utf8(s)[i] == encode_utf8(rest)[i - head.len()]);
            lemma_ascii_byte_is_char(rest, i - head.len());
            let j = choose|j: int|
                0 <= j < rest.len() && (#[trigger] rest[j]) as u32 == encode_utf8(rest)[i
                    - head.len()] as u32;
            assert(s[j + 1] == rest[j]);
        }
    }
}

/// The encoding of a text without line feed holds no line feed byte.
pub proof fn lemma_no_line_feed(s: Seq<char>)
    requires
        !s.contains('\n'),
    ensures
        forall|i: int| 0 <= i < encode_utf8(s).len() ==> #[trigger] encode_utf8(s)[i] != 10,
{
    assert forall|i: int| 0 <= i < encode_utf8(s).len() implies #[trigger] encode_utf8(s)[i]
        != 10 by {
        if encode_utf8(s)[i] == 10 {
            lemma_ascii_byte_is_char(s, i);
            let j = choose|j: int|
                0 <= j < s.len() && (#[trigger] s[j]) as u32 == encode_utf8(s)[i] as u32;
            char_u32_cast(s[j], 10u32);
            assert(s[j] == '\n');
            assert(s.contains(s[j]));
        }
    }
}

/// The encoding of two texts, one after the other.
pub proof fn lemma_encode_add(a: Seq<char>, b: Seq<char>)
    ensures
        encode_utf8(a + b) == encode_utf8(a) + encode_utf8(b),
    decreases a.len(),
{
    if a.len() == 0 {
        assert(a + b =~= b);
        assert(encode_utf8(a) + encode_utf8(b) =~= encode_utf8(b));
    } else {
        assert((a + b).drop_first() =~= a.drop_first() + b);
        assert((a + b)[0] == a[0]);
        lemma_encode_add(a.drop_first(), b);
        assert(encode_utf8(a + b) =~= encode_utf8(a) + encode_utf8(b));
    }
}

/// The text of "no payload": four NUL characters.
pub open spec fn sentinel_text() -> Seq<char> {
    seq!['\0', '\0', '\0', '\0']
}

/// The four zero bytes are the encoding of four NUL characters.
pub proof fn lemma_sentinel()
    ensures
        encode_utf8(sentinel_text()) == sentinel(),
{
    let t = sentinel_text();
    assert(is_ascii_chars(t));
    is_ascii_chars_encode_utf8(t);
    assert(encode_utf8(t) =~= sentinel());
}

/// A frame that survives the wire unchanged: its header holds no line feed
/// and ends in no white space, and its payload, if any, holds no line feed
/// and is not the four NUL characters that stand for "no payload".
pub open spec fn wire_stable(f: FrameView) -> bool {
    &&& !f.header.contains('\n')
    &&& trimmed_end(f.header) == f.header
    &&& f.payload matches Some(p) ==> !p.contains('\n') && p != sentinel_text()
}

/// A text without line feed at its end is sent as it is.
pub proof fn lemma_no_line_ends(p: Seq<char>)
    requires
        !p.contains('\n'),
    ensures
        without_line_ends(p) == p,
{
    if p.len() > 0 {
        assert(p.contains(p.last()));
    }
}

/// Encoding a frame and reading the bytes back gives the frame, and takes
/// all the bytes.
pub proof fn lemma_frame_round_trip(f: FrameView)
    requires
        wire_stable(f),
    ensures
        parsed(encoded(f), f.fds) == Parsed::Frame(f, encoded(f).len() as int),
{
    let h = encode_utf8(f.header);
    let p = match f.payload {
        Some(p) => encode_utf8(p),
        None => sentinel(),
    };
    let bytes = encoded(f);
    lemma_no_line_feed(f.header);
    match f.payload {
        Some(text) => {
            lemma_no_line_feed(text);
            lemma_no_line_ends(text);
            encode_utf8_valid_utf8(text);
            encode_utf8_decode_utf8(text);
            lemma_sentinel();
            encode_utf8_decode_utf8(sentinel_text());
            if p == sentinel() {
                assert(decode_utf8(p) == sentinel_text());
            }
        },
        None => {
            lemma_sentinel();
            encode_utf8_valid_utf8(sentinel_text());
        },
    }
    encode_utf8_valid_utf8(f.header);
    encode_utf8_decode_utf8(f.header);
    assert(bytes =~= h + seq![10u8] + p + seq![10u8]);
    let a = h.len() as int;
    let b = a + 1 + p.len();
    assert forall|i: int| 0 <= i < a implies #[trigger] bytes[i] != 10 by {
        assert(bytes[i] == h[i]);
    }
    assert(bytes[a] == 10);
    lemma_line_run(bytes, 0, a);
    assert forall|i: int| a + 1 <= i < b implies #[trigger] bytes[i] != 10 by {
        assert(bytes[i] == p[i - a - 1]);
    }
    assert(bytes[b] == 10);
    lemma_line_run(bytes, a + 1, b);
    assert(bytes.subrange(0, a) =~= h);
    assert(bytes.subrange(a + 1, b) =~= p);
    assert(bytes.len() == b + 1);
}

/// The characters that separate the words of a payload.
pub open spec fn is_space_char(c: char) -> bool {
    c == ' ' || c == '\t' || c == '\n' || c == '\u{c}' || c == '\r'
}

/// A monitor identifier that can stand in a buffer message: not empty, and
/// without space, tab, line feed, form feed or carriage return.
pub open spec fn is_word(s: Seq<char>) -> bool {
    &&& s.len() > 0
    &&& forall|j: int| 0 <= j < s.len() ==> !is_space_char(#[trigger] s[j])
}

/// The encoding of a text without space holds no space byte.
pub proof fn lemma_no_space(s: Seq<char>)
    requires
        forall|j: int| 0 <= j < s.len() ==> !is_space_char(#[trigger] s[j]),
    ensures
        forall|i: int| 0 <= i < encode_utf8(s).len() ==> !is_space(#[trigger] encode_utf8(s)[i]),
{
    assert forall|i: int| 0 <= i < encode_utf8(s).len() implies !is_space(
        #[trigger] encode_utf8(s)[i],
    ) by {
        let b = encode_utf8(s)[i];
        if is_space(b) {
            lemma_ascii_byte_is_char(s, i);
            let j = choose|j: int| 0 <= j < s.len() && (#[trigger] s[j]) as u32 == b as u32;
            char_u32_cast(s[j], b as u32);
            assert(s[j] == (b as u32) as char);
            assert((32u32 as char) == ' ');
            assert((9u32 as char) == '\t');
            assert((10u32 as char) == '\n');
            assert((12u32 as char) == '\u{c}');
            assert((13u32 as char) == '\r');
            assert(is_space_char(s[j]));
        }
    }
}

/// The payload of a buffer message is read back as the monitor and the slot
/// that it was written for.
pub proof fn lemma_slot_literal_round_trip(monitor_id: Seq<char>, buffer: BufferIndex)
    requires
        is_word(monitor_id),
    ensures
        slot_literal(encode_utf8(monitor_id + seq![' '] + seq![buffer.digit() as char])) == Some(
            (encode_utf8(monitor_id), buffer),
        ),
        decode_utf8(encode_utf8(monitor_id)) == monitor_id,
{
    let digit = seq![buffer.digit() as char];
    let space = seq![' '];
    lemma_encode_add(monitor_id + space, digit);
    lemma_encode_add(monitor_id, space);
    assert(is_ascii_chars(space));
    is_ascii_chars_encode_utf8(space);
    assert(encode_utf8(space) =~= seq![32u8]);
    assert(is_ascii_chars(digit));
    is_ascii_chars_encode_utf8(digit);
    assert(encode_utf8(digit) =~= seq![buffer.digit()]);
    lemma_no_space(monitor_id);
    let first = encode_utf8(monitor_id);
    assert(first.len() > 0) by {
        char_is_scalar(monitor_id[0]);
        assert(encode_scalar(monitor_id[0] as u32).len() > 0);
    }
    lemma_two_words_joined(first, seq![buffer.digit()]);
    encode_utf8_valid_utf8(monitor_id);
    encode_utf8_decode_utf8(monitor_id);
}

/// Every header names its own message and no other.
pub proof fn lemma_header_names(kind: MessageKind)
    requires
        kind != MessageKind::Unknown,
    ensures
        message_kind(kind.header_text()) == kind,
{
    reveal_strlit("hello");
    reveal_strlit("auth");
    reveal_strlit("auth_ok");
    reveal_strlit("auth_error");
    reveal_strlit("framebuffer_link");
    reveal_strlit("buffer_request");
    reveal_strlit("buffer_request_ack");
    reveal_strlit("buffer_release");
    reveal_strlit("input_event");
    reveal_strlit("monitor_added");
    reveal_strlit("monitor_removed");
    reveal_strlit("session_switch");
    reveal_strlit("session_create");
    reveal_strlit("session_created");
    reveal_strlit("session_ready");
    reveal_strlit("session_state");
    reveal_strlit("session_active");
    reveal_strlit("error");
    reveal_strlit("ping");
    reveal_strlit("pong");
    assert(header::HELLO@.len() == 5);
    assert(header::HELLO@[0] == 'h');
    assert(header::HELLO@[1] == 'e');
    assert(header::AUTH@.len() == 4);
    assert(header::AUTH@[0] == 'a');
    assert(header::AUTH@[1] == 'u');
    assert(header::AUTH_OK@.len() == 7);
    assert(header::AUTH_OK@[0] == 'a');
    assert(header::AUTH_OK@[1] == 'u');
    assert(header::AUTH_ERROR@.len() == 10);
    assert(header::AUTH_ERROR@[0] == 'a');
    assert(header::AUTH_ERROR@[1] == 'u');
    assert(header::AUTH_ERROR@[8] == 'o');
    assert(header::AUTH_ERROR@[9] == 'r');
    assert(header::FRAMEBUFFER_LINK@.len() == 16);
    assert(header::FRAMEBUFFER_LINK@[0] == 'f');
    assert(header::FRAMEBUFFER_LINK@[1] == 'r');
    assert(header::FRAMEBUFFER_LINK@[8] == 'f');
    assert(header::FRAMEBUFFER_LINK@[9] == 'e');
    assert(header::BUFFER_REQUEST@.len() == 14);
    assert(header::BUFFER_REQUEST@[0] == 'b');
    assert(header::BUFFER_REQUEST@[1] == 'u');
    assert(header::BUFFER_REQUEST@[8] == 'e');
    assert(header::BUFFER_REQUEST@[9] == 'q');
    assert(header::BUFFER_REQUEST_ACK@.len() == 18);
    assert(header::BUFFER_REQUEST_ACK@[0] == 'b');
    assert(header::BUFFER_REQUEST_ACK@[1] == 'u');
    assert(header::BUFFER_REQUEST_ACK@[8] == 'e');
    assert(header::BUFFER_REQUEST_ACK@[9] == 'q');
    assert(header::BUFFER_RELEASE@.len() == 14);
    assert(header::BUFFER_RELEASE@[0] == 'b');
    assert(header::BUFFER_RELEASE@[1] == 'u');
    assert(header::BUFFER_RELEASE@[8] == 'e');
    assert(header::BUFFER_RELEASE@[9] == 'l');
    assert(header::INPUT_EVENT@.len() == 11);
    assert(header::INPUT_EVENT@[0] == 'i');
    assert(header::INPUT_EVENT@[1] == 'n');
    assert(header::INPUT_EVENT@[8] == 'e');
    assert(header::INPUT_EVENT@[9] == 'n');
    assert(header::MONITOR_ADDED@.len() == 13);
    assert(header::MONITOR_ADDED@[0] == 'm');
    assert(header::MONITOR_ADDED@[1] == 'o');
    assert(header::MONITOR_ADDED@[8] == 'a');
    assert(header::MONITOR_ADDED@[9] == 'd');
    assert(header::MONITOR_REMOVED@.len() == 15);
    assert(header::MONITOR_REMOVED@[0] == 'm');
    assert(header::MONITOR_REMOVED@[1] == 'o');
    assert(header::MONITOR_REMOVED@[8] == 'r');
    assert(header::MONITOR_REMOVED@[9] == 'e');
    assert(header::SESSION_SWITCH@.len() == 14);
    assert(header::SESSION_SWITCH@[0] == 's');
    assert(header::SESSION_SWITCH@[1] == 'e');
    assert(header::SESSION_SWITCH@[8] == 's');
    assert(header::SESSION_SWITCH@[9] == 'w');
    assert(header::SESSION_CREATE@.len() == 14);
    assert(header::SESSION_CREATE@[0] == 's');
    assert(header::SESSION_CREATE@[1] == 'e');
    assert(header::SESSION_CREATE@[8] == 'c');
    assert(header::SESSION_CREATE@[9] == 'r');
    assert(header::SESSION_CREATED@.len() == 15);
    assert(header::SESSION_CREATED@[0] == 's');
    assert(header::SESSION_CREATED@[1] == 'e');
    assert(header::SESSION_CREATED@[8] == 'c');
    assert(header::SESSION_CREATED@[9] == 'r');
    assert(header::SESSION_READY@.len() == 13);
    assert(header::SESSION_READY@[0] == 's');
    assert(header::SESSION_READY@[1] == 'e');
    assert(header::SESSION_READY@[8] == 'r');
    assert(header::SESSION_READY@[9] == 'e');
    assert(header::SESSION_STATE@.len() == 13);
    assert(header::SESSION_STATE@[0] == 's');
    assert(header::SESSION_STATE@[1] == 'e');
    assert(header::SESSION_STATE@[8] == 's');
    assert(header::SESSION_STATE@[9] == 't');
    assert(header::SESSION_ACTIVE@.len() == 14);
    assert(header::SESSION_ACTIVE@[0] == 's');
    assert(header::SESSION_ACTIVE@[1] == 'e');
    assert(header::SESSION_ACTIVE@[8] == 'a');
    assert(header::SESSION_ACTIVE@[9] == 'c');
    assert(header::ERROR@.len() == 5);
    assert(header::ERROR@[0] == 'e');
    assert(header::ERROR@[1] == 'r');
    assert(header::PING@.len() == 4);
    assert(header::PING@[0] == 'p');
    assert(header::PING@[1] == 'i');
    assert(header::PONG@.len() == 4);
    assert(header::PONG@[0] == 'p');
    assert(header::PONG@[1] == 'o');
}

/// A buffer message that was framed is read back as the message it was:
/// the same monitor, the same slot, the same fence.
pub proof fn lemma_buffer_message_round_trip(
    message: crate::protocol::message::TabMessage,
    frame: crate::protocol::frame::TabMessageFrame,
    decoded: Result<crate::protocol::message::JsonBody, String>,
)
    requires
        frame@ == message.framed(None),
        message matches crate::protocol::message::TabMessage::BufferRequest { payload, .. }
            ==> is_word(payload.monitor_id@),
        message matches crate::protocol::message::TabMessage::BufferRequestAck(payload) ==> is_word(
            payload.monitor_id@,
        ),
        message matches crate::protocol::message::TabMessage::BufferRelease(payload) ==> is_word(
            payload.monitor_id@,
        ),
        message.kind().spec_shape() == crate::protocol::message::PayloadShape::SlotLiteral ||
            message.kind() == MessageKind::Ping || message.kind() == MessageKind::Pong,
    ensures
        match message {
            crate::protocol::message::TabMessage::BufferRequest { payload, acquire_fence } =>
                crate::protocol::message::reading(frame, decoded)
                    == crate::protocol::message::Reading::Slot(
                    MessageKind::BufferRequest,
                    encode_utf8(payload.monitor_id@),
                    payload.buffer,
                    acquire_fence,
                ) && decode_utf8(encode_utf8(payload.monitor_id@)) == payload.monitor_id@,
            crate::protocol::message::TabMessage::BufferRequestAck(payload) =>
                crate::protocol::message::reading(frame, decoded)
                    == crate::protocol::message::Reading::Slot(
                    MessageKind::BufferRequestAck,
                    encode_utf8(payload.monitor_id@),
                    payload.buffer,
                    None,
                ) && decode_utf8(encode_utf8(payload.monitor_id@)) == payload.monitor_id@,
            crate::protocol::message::TabMessage::BufferRelease(payload) =>
                crate::protocol::message::reading(frame, decoded)
                    == crate::protocol::message::Reading::Slot(
                    MessageKind::BufferRelease,
                    encode_utf8(payload.monitor_id@),
                    payload.buffer,
                    None,
                ) && decode_utf8(encode_utf8(payload.monitor_id@)) == payload.monitor_id@,
            _ => crate::protocol::message::reading(frame, decoded)
                == crate::protocol::message::Reading::Message(message),
        },
{
    lemma_header_names(message.kind());
    match message {
        crate::protocol::message::TabMessage::BufferRequest { payload, acquire_fence } => {
            lemma_slot_literal_round_trip(payload.monitor_id@, payload.buffer);
        },
        crate::protocol::message::TabMessage::BufferRequestAck(payload) => {
            lemma_slot_literal_round_trip(payload.monitor_id@, payload.buffer);
        },
        crate::protocol::message::TabMessage::BufferRelease(payload) => {
            lemma_slot_literal_round_trip(payload.monitor_id@, payload.buffer);
        },
        _ => {},
    }
}

/// Whether `body` is the payload that the message holds.
pub open spec fn carries(
    message: crate::protocol::message::TabMessage,
    body: crate::protocol::message::JsonBody,
) -> bool {
    match message {
        crate::protocol::message::TabMessage::FramebufferLink { payload, dma_bufs } => body
            == crate::protocol::message::JsonBody::FramebufferLink(payload),
        _ => crate::protocol::message::json_message(message.kind(), body) == Some(message),
    }
}

/// A message with a JSON payload that was framed is read back as the
/// message it was, with the file descriptors it held, where its payload is
/// decoded as the body that the message holds.
pub proof fn lemma_json_message_round_trip(
    message: crate::protocol::message::TabMessage,
    body: crate::protocol::message::JsonBody,
    json: String,
    frame: crate::protocol::frame::TabMessageFrame,
)
    requires
        frame@ == message.framed(Some(json)),
        carries(message, body),
    ensures
        crate::protocol::message::reading(frame, Ok(body))
            == crate::protocol::message::Reading::Message(message),
{
    lemma_header_names(message.kind());
    match message {
        crate::protocol::message::TabMessage::FramebufferLink { payload, dma_bufs } => {
            assert(frame.fds@ == dma_bufs@);
            assert([frame.fds@[0], frame.fds@[1]]@ =~= dma_bufs@);
            assert([frame.fds@[0], frame.fds@[1]] == dma_bufs);
        },
        _ => {},
    }
}

} // verus!
