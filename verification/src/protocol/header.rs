//! The header line of a frame names the message.

use vstd::prelude::*;

verus! {

pub const HELLO: &'static str = "hello";

pub const AUTH: &'static str = "auth";

pub const AUTH_OK: &'static str = "auth_ok";

pub const AUTH_ERROR: &'static str = "auth_error";

pub const FRAMEBUFFER_LINK: &'static str = "framebuffer_link";

pub const BUFFER_REQUEST: &'static str = "buffer_request";

pub const BUFFER_REQUEST_ACK: &'static str = "buffer_request_ack";

pub const BUFFER_RELEASE: &'static str = "buffer_release";

pub const INPUT_EVENT: &'static str = "input_event";

pub const MONITOR_ADDED: &'static str = "monitor_added";

pub const MONITOR_REMOVED: &'static str = "monitor_removed";

pub const SESSION_SWITCH: &'static str = "session_switch";

pub const SESSION_CREATE: &'static str = "session_create";

pub const SESSION_CREATED: &'static str = "session_created";

pub const SESSION_READY: &'static str = "session_ready";

pub const SESSION_STATE: &'static str = "session_state";

pub const SESSION_ACTIVE: &'static str = "session_active";

pub const ERROR: &'static str = "error";

pub const PING: &'static str = "ping";

pub const PONG: &'static str = "pong";

/// The header of a frame.
#[derive(PartialEq, Eq, Debug, Clone)]
pub struct MessageHeader(pub String);

impl MessageHeader {
    /// The header that reads `name`.
    pub fn new(name: &str) -> (r: MessageHeader)
        ensures
            r.0@ == name@,
    {
        MessageHeader(name.to_owned())
    }

    /// The text of the header.
    pub fn as_str(&self) -> (r: &str)
        ensures
            r@ == self.0@,
    {
        self.0.as_str()
    }
}

} // verus!
