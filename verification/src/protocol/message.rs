//! Typed messages, and how a frame becomes one.
//!
//! The header of a frame names the message.  JSON payloads are decoded by
//! the caller, who hands the decoded body in; the buffer messages carry
//! `<monitor_id> <slot>` and are read here.

use crate::protocol::error::ProtocolError;
use crate::protocol::frame::{FrameView, TabMessageFrame};
use crate::protocol::header;
use crate::protocol::text::{same_text, split_two_words, string_from_utf8, two_words};
use crate::protocol::{
    AuthErrorPayload, AuthOkPayload, AuthPayload, BufferIndex, BufferReleasePayload,
    BufferRequestAckPayload, BufferRequestPayload, ErrorPayload, FramebufferLinkPayload,
    HelloPayload, MonitorAddedPayload, MonitorRemovedPayload, SessionActivePayload,
    SessionCreatePayload, SessionCreatedPayload, SessionReadyPayload, SessionStatePayload,
    SessionSwitchPayload,
};
use vstd::prelude::*;
use vstd::utf8::*;

verus! {

/// The message that a header announces.
#[derive(Debug, Clone, Copy, PartialEq, Eq, Structural)]
pub enum MessageKind {
    Hello,
    Auth,
    AuthOk,
    AuthError,
    FramebufferLink,
    BufferRequest,
    BufferRequestAck,
    BufferRelease,
    InputEvent,
    MonitorAdded,
    MonitorRemoved,
    SessionSwitch,
    SessionCreate,
    SessionCreated,
    SessionReady,
    SessionState,
    SessionActive,
    Error,
    Ping,
    Pong,
    Unknown,
}

/// How the payload line of a message is to be read.
#[derive(Debug, Clone, Copy, PartialEq, Eq, Structural)]
pub enum PayloadShape {
    /// A JSON object.
    Json,
    /// `<monitor_id> <slot>`.
    SlotLiteral,
    /// Text that is passed on unread.
    Opaque,
    /// No payload is read.
    Nothing,
}

/// The message that the header text `h` announces.
pub open spec fn message_kind(h: Seq<char>) -> MessageKind {
    if h == header::HELLO@ {
        MessageKind::Hello
    } else if h == header::AUTH@ {
        MessageKind::Auth
    } else if h == header::AUTH_OK@ {
        MessageKind::AuthOk
    } else if h == header::AUTH_ERROR@ {
        MessageKind::AuthError
    } else if h == header::FRAMEBUFFER_LINK@ {
        MessageKind::FramebufferLink
    } else if h == header::BUFFER_REQUEST@ {
        MessageKind::BufferRequest
    } else if h == header::BUFFER_REQUEST_ACK@ {
        MessageKind::BufferRequestAck
    } else if h == header::BUFFER_RELEASE@ {
        MessageKind::BufferRelease
    } else if h == header::INPUT_EVENT@ {
        MessageKind::InputEvent
    } else if h == header::MONITOR_ADDED@ {
        MessageKind::MonitorAdded
    } else if h == header::MONITOR_REMOVED@ {
        MessageKind::MonitorRemoved
    } else if h == header::SESSION_SWITCH@ {
        MessageKind::SessionSwitch
    } else if h == header::SESSION_CREATE@ {
        MessageKind::SessionCreate
    } else if h == header::SESSION_CREATED@ {
        MessageKind::SessionCreated
    } else if h == header::SESSION_READY@ {
        MessageKind::SessionReady
    } else if h == header::SESSION_STATE@ {
        MessageKind::SessionState
    } else if h == header::SESSION_ACTIVE@ {
        MessageKind::SessionActive
    } else if h == header::ERROR@ {
        MessageKind::Error
    } else if h == header::PING@ {
        MessageKind::Ping
    } else if h == header::PONG@ {
        MessageKind::Pong
    } else {
        MessageKind::Unknown
    }
}

impl MessageKind {
    /// The message that `header` announces.
    pub fn of_header(h: &str) -> (r: MessageKind)
        ensures
            r == message_kind(h@),
    {
        if same_text(h, header::HELLO) {
            MessageKind::Hello
        } else if same_text(h, header::AUTH) {
            MessageKind::Auth
        } else if same_text(h, header::AUTH_OK) {
            MessageKind::AuthOk
        } else if same_text(h, header::AUTH_ERROR) {
            MessageKind::AuthError
        } else if same_text(h, header::FRAMEBUFFER_LINK) {
            MessageKind::FramebufferLink
        } else if same_text(h, header::BUFFER_REQUEST) {
            MessageKind::BufferRequest
        } else if same_text(h, header::BUFFER_REQUEST_ACK) {
            MessageKind::BufferRequestAck
        } else if same_text(h, header::BUFFER_RELEASE) {
            MessageKind::BufferRelease
        } else if same_text(h, header::INPUT_EVENT) {
            MessageKind::InputEvent
        } else if same_text(h, header::MONITOR_ADDED) {
            MessageKind::MonitorAdded
        } else if same_text(h, header::MONITOR_REMOVED) {
            MessageKind::MonitorRemoved
        } else if same_text(h, header::SESSION_SWITCH) {
            MessageKind::SessionSwitch
        } else if same_text(h, header::SESSION_CREATE) {
            MessageKind::SessionCreate
        } else if same_text(h, header::SESSION_CREATED) {
            MessageKind::SessionCreated
        } else if same_text(h, header::SESSION_READY) {
            MessageKind::SessionReady
        } else if same_text(h, header::SESSION_STATE) {
            MessageKind::SessionState
        } else if same_text(h, header::SESSION_ACTIVE) {
            MessageKind::SessionActive
        } else if same_text(h, header::ERROR) {
            MessageKind::Error
        } else if same_text(h, header::PING) {
            MessageKind::Ping
        } else if same_text(h, header::PONG) {
            MessageKind::Pong
        } else {
            MessageKind::Unknown
        }
    }

    /// How the payload line of the message is to be read.
    pub open spec fn spec_shape(self) -> PayloadShape {
        match self {
            MessageKind::BufferRequest | MessageKind::BufferRequestAck
            | MessageKind::BufferRelease => PayloadShape::SlotLiteral,
            MessageKind::InputEvent => PayloadShape::Opaque,
            MessageKind::Ping | MessageKind::Pong | MessageKind::Unknown => PayloadShape::Nothing,
            _ => PayloadShape::Json,
        }
    }

    /// How the payload line of the message is to be read.
    #[verifier::when_used_as_spec(spec_shape)]
    pub fn shape(self) -> (r: PayloadShape)
        ensures
            r == self.spec_shape(),
    {
        match self {
            MessageKind::BufferRequest | MessageKind::BufferRequestAck
            | MessageKind::BufferRelease => PayloadShape::SlotLiteral,
            MessageKind::InputEvent => PayloadShape::Opaque,
            MessageKind::Ping | MessageKind::Pong | MessageKind::Unknown => PayloadShape::Nothing,
            _ => PayloadShape::Json,
        }
    }

    /// The header of the message; none for a message that is not known.
    pub fn header(self) -> (r: &'static str)
        ensures
            r@ == self.header_text(),
    {
        proof {
            reveal_strlit("");
        }
        match self {
            MessageKind::Hello => header::HELLO,
            MessageKind::Auth => header::AUTH,
            MessageKind::AuthOk => header::AUTH_OK,
            MessageKind::AuthError => header::AUTH_ERROR,
            MessageKind::FramebufferLink => header::FRAMEBUFFER_LINK,
            MessageKind::BufferRequest => header::BUFFER_REQUEST,
            MessageKind::BufferRequestAck => header::BUFFER_REQUEST_ACK,
            MessageKind::BufferRelease => header::BUFFER_RELEASE,
            MessageKind::InputEvent => header::INPUT_EVENT,
            MessageKind::MonitorAdded => header::MONITOR_ADDED,
            MessageKind::MonitorRemoved => header::MONITOR_REMOVED,
            MessageKind::SessionSwitch => header::SESSION_SWITCH,
            MessageKind::SessionCreate => header::SESSION_CREATE,
            MessageKind::SessionCreated => header::SESSION_CREATED,
            MessageKind::SessionReady => header::SESSION_READY,
            MessageKind::SessionState => header::SESSION_STATE,
            MessageKind::SessionActive => header::SESSION_ACTIVE,
            MessageKind::Error => header::ERROR,
            MessageKind::Ping => header::PING,
            MessageKind::Pong => header::PONG,
            MessageKind::Unknown => "",
        }
    }

    /// The text of the header of the message.
    pub open spec fn header_text(self) -> Seq<char> {
        match self {
            MessageKind::Hello => header::HELLO@,
            MessageKind::Auth => header::AUTH@,
            MessageKind::AuthOk => header::AUTH_OK@,
            MessageKind::AuthError => header::AUTH_ERROR@,
            MessageKind::FramebufferLink => header::FRAMEBUFFER_LINK@,
            MessageKind::BufferRequest => header::BUFFER_REQUEST@,
            MessageKind::BufferRequestAck => header::BUFFER_REQUEST_ACK@,
            MessageKind::BufferRelease => header::BUFFER_RELEASE@,
            MessageKind::InputEvent => header::INPUT_EVENT@,
            MessageKind::MonitorAdded => header::MONITOR_ADDED@,
            MessageKind::MonitorRemoved => header::MONITOR_REMOVED@,
            MessageKind::SessionSwitch => header::SESSION_SWITCH@,
            MessageKind::SessionCreate => header::SESSION_CREATE@,
            MessageKind::SessionCreated => header::SESSION_CREATED@,
            MessageKind::SessionReady => header::SESSION_READY@,
            MessageKind::SessionState => header::SESSION_STATE@,
            MessageKind::SessionActive => header::SESSION_ACTIVE@,
            MessageKind::Error => header::ERROR@,
            MessageKind::Ping => header::PING@,
            MessageKind::Pong => header::PONG@,
            MessageKind::Unknown => Seq::empty(),
        }
    }
}

/// A JSON payload after decoding.
#[derive(Debug, Clone, PartialEq, Eq)]
pub enum JsonBody {
    Hello(HelloPayload),
    Auth(AuthPayload),
    AuthOk(AuthOkPayload),
    AuthError(AuthErrorPayload),
    FramebufferLink(FramebufferLinkPayload),
    MonitorAdded(MonitorAddedPayload),
    MonitorRemoved(MonitorRemovedPayload),
    SessionSwitch(SessionSwitchPayload),
    SessionCreate(SessionCreatePayload),
    SessionCreated(SessionCreatedPayload),
    SessionReady(SessionReadyPayload),
    SessionState(SessionStatePayload),
    SessionActive(SessionActivePayload),
    Error(ErrorPayload),
}

/// Parsed, semantic message.  File descriptors are plain numbers; whoever
/// holds the message owns them.
#[derive(Debug, Clone, PartialEq, Eq)]
pub enum TabMessage {
    Hello(HelloPayload),
    Auth(AuthPayload),
    AuthOk(AuthOkPayload),
    AuthError(AuthErrorPayload),
    FramebufferLink { payload: FramebufferLinkPayload, dma_bufs: [i32; 2] },
    BufferRequest { payload: BufferRequestPayload, acquire_fence: Option<i32> },
    BufferRequestAck(BufferRequestAckPayload),
    BufferRelease(BufferReleasePayload),
    /// Input events are passed on unread: the payload text.
    InputEvent(String),
    MonitorAdded(MonitorAddedPayload),
    MonitorRemoved(MonitorRemovedPayload),
    SessionSwitch(SessionSwitchPayload),
    SessionCreate(SessionCreatePayload),
    SessionCreated(SessionCreatedPayload),
    SessionReady(SessionReadyPayload),
    SessionState(SessionStatePayload),
    SessionActive(SessionActivePayload),
    Error(ErrorPayload),
    Ping,
    Pong,
    Unknown(TabMessageFrame),
}

/// The message of a JSON payload, where the body is of the kind that the
/// header announces.  A framebuffer link takes file descriptors as well and
/// is not built here.
pub open spec fn json_message(kind: MessageKind, body: JsonBody) -> Option<TabMessage> {
    match (kind, body) {
        (MessageKind::Hello, JsonBody::Hello(p)) => Some(TabMessage::Hello(p)),
        (MessageKind::Auth, JsonBody::Auth(p)) => Some(TabMessage::Auth(p)),
        (MessageKind::AuthOk, JsonBody::AuthOk(p)) => Some(TabMessage::AuthOk(p)),
        (MessageKind::AuthError, JsonBody::AuthError(p)) => Some(TabMessage::AuthError(p)),
        (MessageKind::MonitorAdded, JsonBody::MonitorAdded(p)) => Some(
            TabMessage::MonitorAdded(p),
        ),
        (MessageKind::MonitorRemoved, JsonBody::MonitorRemoved(p)) => Some(
            TabMessage::MonitorRemoved(p),
        ),
        (MessageKind::SessionSwitch, JsonBody::SessionSwitch(p)) => Some(
            TabMessage::SessionSwitch(p),
        ),
        (MessageKind::SessionCreate, JsonBody::SessionCreate(p)) => Some(
            TabMessage::SessionCreate(p),
        ),
        (MessageKind::SessionCreated, JsonBody::SessionCreated(p)) => Some(
            TabMessage::SessionCreated(p),
        ),
        (MessageKind::SessionReady, JsonBody::SessionReady(p)) => Some(
            TabMessage::SessionReady(p),
        ),
        (MessageKind::SessionState, JsonBody::SessionState(p)) => Some(
            TabMessage::SessionState(p),
        ),
        (MessageKind::SessionActive, JsonBody::SessionActive(p)) => Some(
            TabMessage::SessionActive(p),
        ),
        (MessageKind::Error, JsonBody::Error(p)) => Some(TabMessage::Error(p)),
        _ => None,
    }
}

/// The monitor and the slot that the payload `<monitor_id> <slot>` names:
/// two words, the second of them `0` or `1`.
pub open spec fn slot_literal(payload: Seq<u8>) -> Option<(Seq<u8>, BufferIndex)> {
    match two_words(payload) {
        Some((monitor, slot)) => match BufferIndex::of_word(slot) {
            Some(buffer) => if valid_utf8(monitor) {
                Some((monitor, buffer))
            } else {
                None
            },
            None => None,
        },
        None => None,
    }
}

/// The file descriptors that a message holds.
pub open spec fn message_fds(m: TabMessage) -> Seq<i32> {
    match m {
        TabMessage::FramebufferLink { payload, dma_bufs } => dma_bufs@,
        TabMessage::BufferRequest { payload, acquire_fence } => match acquire_fence {
            Some(fd) => seq![fd],
            None => Seq::empty(),
        },
        TabMessage::Unknown(frame) => frame.fds@,
        _ => Seq::empty(),
    }
}

/// What reading a frame comes to, as far as the header and the shape of the
/// payload decide it.
pub enum Reading {
    /// The message is fully determined.
    Message(TabMessage),
    /// A buffer message for this monitor and slot.
    Slot(MessageKind, Seq<u8>, BufferIndex, Option<i32>),
    /// The frame lacks the payload that its header announces.
    ExpectedPayload,
    /// The payload of this buffer message is not `<monitor_id> <slot>`.
    InvalidPayload(MessageKind),
    /// The payload is not the JSON of the message; the text says why, where
    /// the caller gave one.
    Json(Option<String>),
    /// The frame carries the wrong number of file descriptors.
    ExpectedFds { expected: u32, found: u32 },
}

/// What a buffer message with a payload that cannot be read is answered.
pub open spec fn invalid_payload_text(kind: MessageKind) -> Seq<char> {
    match kind {
        MessageKind::BufferRequest => "\"buffer_request\" request requires 2 arguments: <monitor_id> <0 or 1 (buffer index)>"@,
        MessageKind::BufferRequestAck => "\"buffer_request_ack\" event requires 2 arguments: <monitor_id> <0 or 1 (buffer index)>"@,
        _ => "\"buffer_release\" event requires 2 arguments: <monitor_id> <0 or 1 (buffer index)>"@,
    }
}

/// The number `n` as a count of file descriptors.
pub open spec fn fd_count(n: nat) -> u32 {
    if n > u32::MAX {
        u32::MAX
    } else {
        n as u32
    }
}

/// A message that takes no file descriptors is read only off a frame that
/// carries none.
pub open spec fn without_fds(msg: TabMessageFrame, m: TabMessage) -> Reading {
    if msg.fds@.len() == 0 {
        Reading::Message(m)
    } else {
        Reading::ExpectedFds { expected: 0, found: fd_count(msg.fds@.len()) }
    }
}

/// What reading the frame `msg` comes to, given the decoded JSON body.
pub open spec fn reading(msg: TabMessageFrame, decoded: Result<JsonBody, String>) -> Reading {
    let kind = message_kind(msg.header.0@);
    match kind.spec_shape() {
        PayloadShape::Nothing => match kind {
            MessageKind::Ping => without_fds(msg, TabMessage::Ping),
            MessageKind::Pong => without_fds(msg, TabMessage::Pong),
            _ => Reading::Message(TabMessage::Unknown(msg)),
        },
        PayloadShape::Opaque => match msg.payload {
            Some(p) => without_fds(msg, TabMessage::InputEvent(p)),
            None => Reading::ExpectedPayload,
        },
        PayloadShape::SlotLiteral => match msg.payload {
            None => Reading::ExpectedPayload,
            Some(p) => match slot_literal(encode_utf8(p@)) {
                None => Reading::InvalidPayload(kind),
                Some((monitor, buffer)) => if kind == MessageKind::BufferRequest {
                    if msg.fds@.len() == 0 {
                        Reading::Slot(kind, monitor, buffer, None)
                    } else if msg.fds@.len() == 1 {
                        Reading::Slot(kind, monitor, buffer, Some(msg.fds@[0]))
                    } else {
                        Reading::ExpectedFds { expected: 1, found: fd_count(msg.fds@.len()) }
                    }
                } else if msg.fds@.len() == 0 {
                    Reading::Slot(kind, monitor, buffer, None)
                } else {
                    Reading::ExpectedFds { expected: 0, found: fd_count(msg.fds@.len()) }
                },
            },
        },
        PayloadShape::Json => match msg.payload {
            None => Reading::ExpectedPayload,
            Some(_) => match decoded {
                Err(e) => Reading::Json(Some(e)),
                Ok(body) => if kind == MessageKind::FramebufferLink {
                    match body {
                        JsonBody::FramebufferLink(payload) => if msg.fds@.len() == 2 {
                            Reading::Message(
                                TabMessage::FramebufferLink {
                                    payload,
                                    dma_bufs: [msg.fds@[0], msg.fds@[1]],
                                },
                            )
                        } else {
                            Reading::ExpectedFds { expected: 2, found: fd_count(msg.fds@.len()) }
                        },
                        _ => Reading::Json(None),
                    }
                } else {
                    match json_message(kind, body) {
                        Some(m) => without_fds(msg, m),
                        None => Reading::Json(None),
                    }
                },
            },
        },
    }
}

/// Whether the result `r` of reading a frame is what `reading` says.
pub open spec fn agrees(r: Result<TabMessage, ProtocolError>, reading: Reading) -> bool {
    match reading {
        Reading::Message(m) => r == Ok::<TabMessage, ProtocolError>(m),
        Reading::Slot(kind, monitor, buffer, fence) => match kind {
            MessageKind::BufferRequest => r matches Ok(
                TabMessage::BufferRequest { payload, acquire_fence },
            ) && payload.monitor_id@ == decode_utf8(monitor) && payload.buffer == buffer
                && acquire_fence == fence,
            MessageKind::BufferRequestAck => r matches Ok(TabMessage::BufferRequestAck(payload))
                && payload.monitor_id@ == decode_utf8(monitor) && payload.buffer == buffer,
            _ => r matches Ok(TabMessage::BufferRelease(payload)) && payload.monitor_id@
                == decode_utf8(monitor) && payload.buffer == buffer,
        },
        Reading::ExpectedPayload => r matches Err(ProtocolError::ExpectedPayload),
        Reading::InvalidPayload(kind) => r matches Err(ProtocolError::InvalidPayload(why)) && why@
            == invalid_payload_text(kind),
        Reading::Json(Some(e)) => r == Err::<TabMessage, ProtocolError>(ProtocolError::Json(e)),
        Reading::Json(None) => r matches Err(ProtocolError::Json(why)) && why@
            == "payload does not belong to the announced message"@,
        Reading::ExpectedFds { expected, found } => r == Err::<TabMessage, ProtocolError>(
            ProtocolError::ExpectedFds { expected, found },
        ),
    }
}

/// The file descriptors of a frame that the message read from it does not
/// hold: all of them where reading failed.
pub open spec fn left_over(fds: Seq<i32>, r: Result<TabMessage, ProtocolError>) -> Seq<i32> {
    match r {
        Ok(m) => if message_fds(m) == fds {
            Seq::empty()
        } else {
            fds
        },
        Err(_) => fds,
    }
}

/// The number of file descriptors, capped at `u32::MAX`.
fn count_fds(fds: &Vec<i32>) -> (r: u32)
    ensures
        r == fd_count(fds@.len()),
{
    let n = fds.len();
    if n > u32::MAX as usize {
        u32::MAX
    } else {
        n as u32
    }
}

/// Reads `<monitor_id> <slot>`.
fn read_slot_literal(payload: &str) -> (r: Option<(String, BufferIndex)>)
    ensures
        match slot_literal(encode_utf8(payload@)) {
            Some((monitor, buffer)) => r matches Some((m, b)) && m@ == decode_utf8(monitor) && b
                == buffer,
            None => r is None,
        },
{
    let (monitor, slot) = match split_two_words(payload.as_bytes()) {
        Some(words) => words,
        None => {
            return None;
        },
    };
    let buffer = match BufferIndex::parse_word(slot.as_slice()) {
        Some(b) => b,
        None => {
            return None;
        },
    };
    match string_from_utf8(monitor) {
        Ok(m) => Some((m, buffer)),
        Err(_) => None,
    }
}

impl TabMessage {
    /// Reads the typed message of a frame.
    ///
    /// `decoded` is what decoding the payload as the JSON of the announced
    /// message came to; it is looked at only where the header announces a
    /// JSON payload and the frame has a payload.  Beside the message come
    /// the file descriptors of the frame that the message does not hold;
    /// they are the caller's to close.
    pub fn parse_message_frame(msg: TabMessageFrame, decoded: Result<JsonBody, String>) -> (r: (
        Result<TabMessage, ProtocolError>,
        Vec<i32>,
    ))
        ensures
            agrees(r.0, reading(msg, decoded)),
            r.1@ == left_over(msg.fds@, r.0),
            r.0 matches Ok(m) ==> message_fds(m) + r.1@ == msg.fds@,
            r.0 is Err ==> r.1@ == msg.fds@,
    {
        let kind = MessageKind::of_header(msg.header.as_str());
        match kind.shape() {
            PayloadShape::Nothing => match kind {
                MessageKind::Ping => TabMessage::without_fds(msg.fds, TabMessage::Ping),
                MessageKind::Pong => TabMessage::without_fds(msg.fds, TabMessage::Pong),
                _ => {
                    proof {
                        assert(message_fds(TabMessage::Unknown(msg)) + Seq::<i32>::empty()
                            =~= msg.fds@);
                    }
                    (Ok(TabMessage::Unknown(msg)), Vec::new())
                },
            },
            PayloadShape::Opaque => match msg.payload {
                Some(p) => TabMessage::without_fds(msg.fds, TabMessage::InputEvent(p)),
                None => (Err(ProtocolError::ExpectedPayload), msg.fds),
            },
            PayloadShape::SlotLiteral => {
                let text = match &msg.payload {
                    Some(p) => p,
                    None => {
                        return (Err(ProtocolError::ExpectedPayload), msg.fds);
                    },
                };
                let (monitor_id, buffer) = match read_slot_literal(text.as_str()) {
                    Some(found) => found,
                    None => {
                        let why = match kind {
                            MessageKind::BufferRequest => "\"buffer_request\" request requires 2 arguments: <monitor_id> <0 or 1 (buffer index)>",
                            MessageKind::BufferRequestAck => "\"buffer_request_ack\" event requires 2 arguments: <monitor_id> <0 or 1 (buffer index)>",
                            _ => "\"buffer_release\" event requires 2 arguments: <monitor_id> <0 or 1 (buffer index)>",
                        };
                        return (Err(ProtocolError::InvalidPayload(why.to_owned())), msg.fds);
                    },
                };
                match kind {
                    MessageKind::BufferRequest => {
                        let n = msg.fds.len();
                        if n == 0 {
                            (
                                Ok(
                                    TabMessage::BufferRequest {
                                        payload: BufferRequestPayload { monitor_id, buffer },
                                        acquire_fence: None,
                                    },
                                ),
                                msg.fds,
                            )
                        } else if n == 1 {
                            let fence = msg.fds[0];
                            proof {
                                assert(seq![fence] + Seq::<i32>::empty() =~= msg.fds@);
                            }
                            (
                                Ok(
                                    TabMessage::BufferRequest {
                                        payload: BufferRequestPayload { monitor_id, buffer },
                                        acquire_fence: Some(fence),
                                    },
                                ),
                                Vec::new(),
                            )
                        } else {
                            let found = count_fds(&msg.fds);
                            (Err(ProtocolError::ExpectedFds { expected: 1, found }), msg.fds)
                        }
                    },
                    MessageKind::BufferRequestAck => TabMessage::without_fds(
                        msg.fds,
                        TabMessage::BufferRequestAck(BufferRequestAckPayload { monitor_id, buffer }),
                    ),
                    _ => TabMessage::without_fds(
                        msg.fds,
                        TabMessage::BufferRelease(BufferReleasePayload { monitor_id, buffer }),
                    ),
                }
            },
            PayloadShape::Json => {
                if msg.payload.is_none() {
                    return (Err(ProtocolError::ExpectedPayload), msg.fds);
                }
                let body = match decoded {
                    Ok(body) => body,
                    Err(e) => {
                        return (Err(ProtocolError::Json(e)), msg.fds);
                    },
                };
                let message = match (kind, body) {
                    (MessageKind::Hello, JsonBody::Hello(p)) => TabMessage::Hello(p),
                    (MessageKind::Auth, JsonBody::Auth(p)) => TabMessage::Auth(p),
                    (MessageKind::AuthOk, JsonBody::AuthOk(p)) => TabMessage::AuthOk(p),
                    (MessageKind::AuthError, JsonBody::AuthError(p)) => TabMessage::AuthError(p),
                    (MessageKind::FramebufferLink, JsonBody::FramebufferLink(payload)) => {
                        if msg.fds.len() != 2 {
                            let found = count_fds(&msg.fds);
                            return (
                                Err(ProtocolError::ExpectedFds { expected: 2, found }),
                                msg.fds,
                            );
                        }
                        let dma_bufs = [msg.fds[0], msg.fds[1]];
                        proof {
                            assert(dma_bufs@ + Seq::<i32>::empty() =~= msg.fds@);
                        }
                        return (
                            Ok(TabMessage::FramebufferLink { payload, dma_bufs }),
                            Vec::new(),
                        );
                    },
                    (MessageKind::MonitorAdded, JsonBody::MonitorAdded(p)) => {
                        TabMessage::MonitorAdded(p)
                    },
                    (MessageKind::MonitorRemoved, JsonBody::MonitorRemoved(p)) => {
                        TabMessage::MonitorRemoved(p)
                    },
                    (MessageKind::SessionSwitch, JsonBody::SessionSwitch(p)) => {
                        TabMessage::SessionSwitch(p)
                    },
                    (MessageKind::SessionCreate, JsonBody::SessionCreate(p)) => {
                        TabMessage::SessionCreate(p)
                    },
                    (MessageKind::SessionCreated, JsonBody::SessionCreated(p)) => {
                        TabMessage::SessionCreated(p)
                    },
                    (MessageKind::SessionReady, JsonBody::SessionReady(p)) => {
                        TabMessage::SessionReady(p)
                    },
                    (MessageKind::SessionState, JsonBody::SessionState(p)) => {
                        TabMessage::SessionState(p)
                    },
                    (MessageKind::SessionActive, JsonBody::SessionActive(p)) => {
                        TabMessage::SessionActive(p)
                    },
                    (MessageKind::Error, JsonBody::Error(p)) => TabMessage::Error(p),
                    _ => {
                        return (
                            Err(
                                ProtocolError::Json(
                                    "payload does not belong to the announced message".to_owned(),
                                ),
                            ),
                            msg.fds,
                        );
                    },
                };
                TabMessage::without_fds(msg.fds, message)
            },
        }
    }

    /// A message that takes no file descriptors, read off a frame with
    /// these.
    fn without_fds(fds: Vec<i32>, message: TabMessage) -> (r: (
        Result<TabMessage, ProtocolError>,
        Vec<i32>,
    ))
        requires
            message_fds(message) == Seq::<i32>::empty(),
        ensures
            r.1@ == fds@,
            r.0 == if fds@.len() == 0 {
                Ok::<TabMessage, ProtocolError>(message)
            } else {
                Err::<TabMessage, ProtocolError>(
                    ProtocolError::ExpectedFds { expected: 0, found: fd_count(fds@.len()) },
                )
            },
    {
        if fds.len() == 0 {
            (Ok(message), fds)
        } else {
            let found = count_fds(&fds);
            (Err(ProtocolError::ExpectedFds { expected: 0, found }), fds)
        }
    }

    /// The frame of a buffer message: `<monitor_id> <slot>` under `header`.
    pub fn slot_frame(header: &str, monitor_id: &str, buffer: BufferIndex) -> (r: TabMessageFrame)
        ensures
            r@ == (FrameView {
                header: header@,
                payload: Some(monitor_id@ + seq![' '] + seq![buffer.digit() as char]),
                fds: Seq::empty(),
            }),
    {
        let mut body = monitor_id.to_owned();
        body.append(" ");
        match buffer {
            BufferIndex::Zero => {
                body.append("0");
            },
            BufferIndex::One => {
                body.append("1");
            },
        }
        proof {
            reveal_strlit(" ");
            reveal_strlit("0");
            reveal_strlit("1");
            assert(" "@ =~= seq![' ']);
            assert("0"@ =~= seq!['0']);
            assert("1"@ =~= seq!['1']);
            assert(body@ =~= monitor_id@ + seq![' '] + seq![buffer.digit() as char]);
        }
        TabMessageFrame {
            header: crate::protocol::header::MessageHeader::new(header),
            payload: Some(body),
            fds: Vec::new(),
        }
    }
}

impl TabMessage {
    /// The message that a typed message is.
    pub open spec fn kind(self) -> MessageKind {
        match self {
            TabMessage::Hello(_) => MessageKind::Hello,
            TabMessage::Auth(_) => MessageKind::Auth,
            TabMessage::AuthOk(_) => MessageKind::AuthOk,
            TabMessage::AuthError(_) => MessageKind::AuthError,
            TabMessage::FramebufferLink { .. } => MessageKind::FramebufferLink,
            TabMessage::BufferRequest { .. } => MessageKind::BufferRequest,
            TabMessage::BufferRequestAck(_) => MessageKind::BufferRequestAck,
            TabMessage::BufferRelease(_) => MessageKind::BufferRelease,
            TabMessage::InputEvent(_) => MessageKind::InputEvent,
            TabMessage::MonitorAdded(_) => MessageKind::MonitorAdded,
            TabMessage::MonitorRemoved(_) => MessageKind::MonitorRemoved,
            TabMessage::SessionSwitch(_) => MessageKind::SessionSwitch,
            TabMessage::SessionCreate(_) => MessageKind::SessionCreate,
            TabMessage::SessionCreated(_) => MessageKind::SessionCreated,
            TabMessage::SessionReady(_) => MessageKind::SessionReady,
            TabMessage::SessionState(_) => MessageKind::SessionState,
            TabMessage::SessionActive(_) => MessageKind::SessionActive,
            TabMessage::Error(_) => MessageKind::Error,
            TabMessage::Ping => MessageKind::Ping,
            TabMessage::Pong => MessageKind::Pong,
            TabMessage::Unknown(_) => MessageKind::Unknown,
        }
    }

    /// The message that a typed message is.
    pub fn message_kind(&self) -> (r: MessageKind)
        ensures
            r == self.kind(),
    {
        match self {
            TabMessage::Hello(_) => MessageKind::Hello,
            TabMessage::Auth(_) => MessageKind::Auth,
            TabMessage::AuthOk(_) => MessageKind::AuthOk,
            TabMessage::AuthError(_) => MessageKind::AuthError,
            TabMessage::FramebufferLink { .. } => MessageKind::FramebufferLink,
            TabMessage::BufferRequest { .. } => MessageKind::BufferRequest,
            TabMessage::BufferRequestAck(_) => MessageKind::BufferRequestAck,
            TabMessage::BufferRelease(_) => MessageKind::BufferRelease,
            TabMessage::InputEvent(_) => MessageKind::InputEvent,
            TabMessage::MonitorAdded(_) => MessageKind::MonitorAdded,
            TabMessage::MonitorRemoved(_) => MessageKind::MonitorRemoved,
            TabMessage::SessionSwitch(_) => MessageKind::SessionSwitch,
            TabMessage::SessionCreate(_) => MessageKind::SessionCreate,
            TabMessage::SessionCreated(_) => MessageKind::SessionCreated,
            TabMessage::SessionReady(_) => MessageKind::SessionReady,
            TabMessage::SessionState(_) => MessageKind::SessionState,
            TabMessage::SessionActive(_) => MessageKind::SessionActive,
            TabMessage::Error(_) => MessageKind::Error,
            TabMessage::Ping => MessageKind::Ping,
            TabMessage::Pong => MessageKind::Pong,
            TabMessage::Unknown(_) => MessageKind::Unknown,
        }
    }

    /// The text of a buffer payload: the monitor, a space, the slot.
    pub open spec fn slot_text(monitor_id: Seq<char>, buffer: BufferIndex) -> Seq<char> {
        monitor_id + seq![' '] + seq![buffer.digit() as char]
    }

    /// The frame that carries a message; `json` is the JSON text of its
    /// payload, for the messages that have one.
    pub open spec fn framed(self, json: Option<String>) -> FrameView {
        match self {
            TabMessage::Unknown(frame) => frame@,
            TabMessage::Ping | TabMessage::Pong => FrameView {
                header: self.kind().header_text(),
                payload: None,
                fds: Seq::empty(),
            },
            TabMessage::InputEvent(text) => FrameView {
                header: self.kind().header_text(),
                payload: Some(text@),
                fds: Seq::empty(),
            },
            TabMessage::BufferRequest { payload, acquire_fence } => FrameView {
                header: self.kind().header_text(),
                payload: Some(TabMessage::slot_text(payload.monitor_id@, payload.buffer)),
                fds: message_fds(self),
            },
            TabMessage::BufferRequestAck(payload) => FrameView {
                header: self.kind().header_text(),
                payload: Some(TabMessage::slot_text(payload.monitor_id@, payload.buffer)),
                fds: Seq::empty(),
            },
            TabMessage::BufferRelease(payload) => FrameView {
                header: self.kind().header_text(),
                payload: Some(TabMessage::slot_text(payload.monitor_id@, payload.buffer)),
                fds: Seq::empty(),
            },
            _ => FrameView {
                header: self.kind().header_text(),
                payload: match json {
                    Some(text) => Some(text@),
                    None => None,
                },
                fds: message_fds(self),
            },
        }
    }

    /// Builds the frame that carries the message.  `json` is the JSON text
    /// of the payload; it is used for the messages that have a JSON payload
    /// and ignored for the others.
    pub fn into_frame(self, json: Option<String>) -> (r: TabMessageFrame)
        ensures
            r@ == self.framed(json),
    {
        let kind = self.message_kind();
        match self {
            TabMessage::Unknown(frame) => frame,
            TabMessage::Ping | TabMessage::Pong => TabMessageFrame::no_payload(kind.header()),
            TabMessage::InputEvent(text) => TabMessageFrame {
                header: crate::protocol::header::MessageHeader::new(kind.header()),
                payload: Some(text),
                fds: Vec::new(),
            },
            TabMessage::BufferRequest { payload, acquire_fence } => {
                let mut frame = TabMessage::slot_frame(
                    kind.header(),
                    payload.monitor_id.as_str(),
                    payload.buffer,
                );
                match acquire_fence {
                    Some(fd) => {
                        frame.fds.push(fd);
                        proof {
                            assert(frame.fds@ =~= seq![fd]);
                        }
                    },
                    None => {},
                }
                frame
            },
            TabMessage::BufferRequestAck(payload) => TabMessage::slot_frame(
                kind.header(),
                payload.monitor_id.as_str(),
                payload.buffer,
            ),
            TabMessage::BufferRelease(payload) => TabMessage::slot_frame(
                kind.header(),
                payload.monitor_id.as_str(),
                payload.buffer,
            ),
            TabMessage::FramebufferLink { payload, dma_bufs } => {
                let mut fds: Vec<i32> = Vec::new();
                fds.push(dma_bufs[0]);
                fds.push(dma_bufs[1]);
                proof {
                    assert(fds@ =~= dma_bufs@);
                }
                TabMessageFrame {
                    header: crate::protocol::header::MessageHeader::new(kind.header()),
                    payload: json,
                    fds,
                }
            },
            _ => TabMessageFrame {
                header: crate::protocol::header::MessageHeader::new(kind.header()),
                payload: json,
                fds: Vec::new(),
            },
        }
    }
}

} // verus!
