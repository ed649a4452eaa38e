//! Wire messages shared by both ends of the socket.
//!
//! A frame is a header line and a payload line, plus file descriptors that
//! travel beside the datagram.  The payload of most messages is a JSON
//! object; the three buffer messages carry `<monitor_id> <slot>` instead,
//! and `ping` and `pong` carry nothing.

pub mod connection;
pub mod error;
pub mod frame;
pub mod header;
pub mod message;
pub mod proofs;
pub mod text;

use vstd::prelude::*;
use vstd::string::StringSliceAdditionalSpecFns;

verus! {

/// Default socket path of the compositor.
pub const DEFAULT_SOCKET_PATH: &'static str = "/tmp/shift.sock";

/// Protocol identifier expected in `hello` payloads.
pub const PROTOCOL_VERSION: &'static str = "tab/v0.1.0";

/// Index of one of the two buffers of a swapchain.
#[derive(Clone, Copy, Debug, PartialEq, Eq, Hash, Structural)]
pub enum BufferIndex {
    Zero,
    One,
}

impl BufferIndex {
    /// The slot as the digit that stands for it on the wire.
    pub open spec fn digit(self) -> u8 {
        match self {
            BufferIndex::Zero => 48,
            BufferIndex::One => 49,
        }
    }

    /// The slot that the bytes of a payload word name: `0` or `1`.
    pub open spec fn of_word(word: Seq<u8>) -> Option<BufferIndex> {
        if word.len() == 1 && word[0] == 48 {
            Some(BufferIndex::Zero)
        } else if word.len() == 1 && word[0] == 49 {
            Some(BufferIndex::One)
        } else {
            None
        }
    }

    /// Position of the slot in a pair of buffers.
    pub open spec fn index_of(self) -> usize {
        match self {
            BufferIndex::Zero => 0usize,
            BufferIndex::One => 1usize,
        }
    }

    /// Position of the slot in a pair of buffers.
    #[verifier::when_used_as_spec(index_of)]
    pub fn index(self) -> (r: usize)
        ensures
            r == self.index_of(),
    {
        match self {
            BufferIndex::Zero => 0,
            BufferIndex::One => 1,
        }
    }

    /// The other slot of the pair.
    pub fn other(self) -> (r: BufferIndex)
        ensures
            r != self,
            r == crate::tab_client::swapchain::other(self),
    {
        match self {
            BufferIndex::Zero => BufferIndex::One,
            BufferIndex::One => BufferIndex::Zero,
        }
    }

    /// Reads the slot named by the bytes of a payload word.
    pub fn parse_word(word: &[u8]) -> (r: Option<BufferIndex>)
        ensures
            r == BufferIndex::of_word(word@),
    {
        if word.len() != 1 {
            None
        } else if word[0] == 48 {
            Some(BufferIndex::Zero)
        } else if word[0] == 49 {
            Some(BufferIndex::One)
        } else {
            None
        }
    }
}

impl std::str::FromStr for BufferIndex {
    type Err = ();

    /// Reads the slot that a payload word names.
    fn from_str(s: &str) -> (r: Result<BufferIndex, ()>)
        ensures
            r == match BufferIndex::of_word(s.spec_bytes()) {
                Some(b) => Ok::<BufferIndex, ()>(b),
                None => Err::<BufferIndex, ()>(()),
            },
    {
        match BufferIndex::parse_word(s.as_bytes()) {
            Some(b) => Ok(b),
            None => Err(()),
        }
    }
}

/// Payload of `hello`.
#[derive(Debug, Clone, PartialEq, Eq)]
pub struct HelloPayload {
    pub server: String,
    pub protocol: String,
}

/// Payload of `auth`.
#[derive(Debug, Clone, PartialEq, Eq)]
pub struct AuthPayload {
    pub token: String,
}

/// What a client is told of a monitor.
#[derive(Debug, Clone, PartialEq, Eq)]
pub struct MonitorInfo {
    pub id: String,
    pub width: i32,
    pub height: i32,
    pub refresh_rate: i32,
    pub name: String,
}

/// What a client is told of a session.
#[derive(Debug, Clone, PartialEq, Eq)]
pub struct SessionInfo {
    pub id: String,
    pub role: SessionRole,
    pub display_name: Option<String>,
    pub state: SessionLifecycle,
}

/// Where a session stands in its life.
#[derive(Debug, Clone, Copy, PartialEq, Eq, Structural)]
pub enum SessionLifecycle {
    Pending,
    Loading,
    Occupied,
    Consumed,
}

/// What a session may do.
#[derive(Debug, Clone, Copy, PartialEq, Eq, Structural)]
pub enum SessionRole {
    Admin,
    Session,
}

/// Payload of `auth_ok`.
#[derive(Debug, Clone, PartialEq, Eq)]
pub struct AuthOkPayload {
    pub session: SessionInfo,
    pub monitors: Vec<MonitorInfo>,
}

/// Payload of `auth_error`.
#[derive(Debug, Clone, PartialEq, Eq)]
pub struct AuthErrorPayload {
    pub error: String,
}

/// Payload of `framebuffer_link`: the layout shared by the two buffers.
#[derive(Debug, Clone, PartialEq, Eq)]
pub struct FramebufferLinkPayload {
    pub monitor_id: String,
    pub width: i32,
    pub height: i32,
    pub stride: i32,
    pub offset: i32,
    pub fourcc: i32,
}

/// Payload of `buffer_request`.
#[derive(Debug, Clone, PartialEq, Eq)]
pub struct BufferRequestPayload {
    pub monitor_id: String,
    pub buffer: BufferIndex,
}

/// Payload of `buffer_request_ack`.
#[derive(Debug, Clone, PartialEq, Eq)]
pub struct BufferRequestAckPayload {
    pub monitor_id: String,
    pub buffer: BufferIndex,
}

/// Payload of `buffer_release`.
#[derive(Debug, Clone, PartialEq, Eq)]
pub struct BufferReleasePayload {
    pub monitor_id: String,
    pub buffer: BufferIndex,
}

#[derive(Debug, Clone, Copy, PartialEq, Eq, Structural)]
pub enum ButtonState {
    Pressed,
    Released,
}

#[derive(Debug, Clone, Copy, PartialEq, Eq, Structural)]
pub enum KeyState {
    Pressed,
    Released,
}

#[derive(Debug, Clone, Copy, PartialEq, Eq, Structural)]
pub enum TipState {
    Down,
    Up,
}

#[derive(Debug, Clone, Copy, PartialEq, Eq, Structural)]
pub struct TabletTool {
    pub serial: u64,
    pub tool_type: TabletToolType,
    pub capability: TabletToolCapability,
}

#[derive(Debug, Clone, Copy, PartialEq, Eq, Structural)]
pub enum TabletToolType {
    Pen,
    Eraser,
    Brush,
    Pencil,
    Airbrush,
    Finger,
    Mouse,
    Lens,
}

#[derive(Debug, Clone, Copy, PartialEq, Eq, Structural)]
pub struct TabletToolCapability {
    pub pressure: bool,
    pub distance: bool,
    pub tilt: bool,
    pub rotation: bool,
    pub slider: bool,
    pub wheel: bool,
}

#[derive(Debug, Clone, Copy, PartialEq, Eq, Structural)]
pub enum AxisOrientation {
    Vertical,
    Horizontal,
}

#[derive(Debug, Clone, Copy, PartialEq, Eq, Structural)]
pub enum AxisSource {
    Wheel,
    Finger,
    Continuous,
    WheelTilt,
}

#[derive(Debug, Clone, Copy, PartialEq, Eq, Structural)]
pub enum SwitchType {
    Lid,
    TabletMode,
}

#[derive(Debug, Clone, Copy, PartialEq, Eq, Structural)]
pub enum SwitchState {
    On,
    Off,
}

/// Payload of `monitor_added`.
#[derive(Debug, Clone, PartialEq, Eq)]
pub struct MonitorAddedPayload {
    pub monitor: MonitorInfo,
}

/// Payload of `monitor_removed`.
#[derive(Debug, Clone, PartialEq, Eq)]
pub struct MonitorRemovedPayload {
    pub monitor_id: String,
    pub name: String,
}

/// Payload of `session_switch`; the duration is split in whole seconds and
/// the nanoseconds beyond them.
#[derive(Debug, Clone, PartialEq, Eq)]
pub struct SessionSwitchPayload {
    pub session_id: String,
    pub animation: Option<String>,
    pub duration_secs: u64,
    pub duration_nanos: u32,
}

/// Payload of `session_create`.
#[derive(Debug, Clone, PartialEq, Eq)]
pub struct SessionCreatePayload {
    pub role: SessionRole,
    pub display_name: Option<String>,
}

/// Payload of `session_created`.
#[derive(Debug, Clone, PartialEq, Eq)]
pub struct SessionCreatedPayload {
    pub session: SessionInfo,
    pub token: String,
}

/// Payload of `session_ready`.
#[derive(Debug, Clone, PartialEq, Eq)]
pub struct SessionReadyPayload {
    pub session_id: String,
}

/// Payload of `session_state`.
#[derive(Debug, Clone, PartialEq, Eq)]
pub struct SessionStatePayload {
    pub session: SessionInfo,
}

/// Payload of `session_active`.
#[derive(Debug, Clone, PartialEq, Eq)]
pub struct SessionActivePayload {
    pub session_id: String,
}

/// Payload of `error`.
#[derive(Debug, Clone, PartialEq, Eq)]
pub struct ErrorPayload {
    pub code: String,
    pub message: Option<String>,
}

} // verus!

pub use error::ProtocolError;
pub use frame::TabMessageFrame;
pub use header::MessageHeader;
pub use message::TabMessage;
