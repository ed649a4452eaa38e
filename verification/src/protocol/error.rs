//! What can go wrong between the socket and a typed message.

use crate::protocol::text::{decimal, decimal_text};
use vstd::prelude::*;

verus! {

/// Protocol level errors for framing, encoding and decoding.
#[derive(Debug, Clone, PartialEq, Eq)]
pub enum ProtocolError {
    /// The peer closed the connection, or a datagram held no whole frame.
    UnexpectedEof,
    /// The socket failed; the text says how.
    Io(String),
    /// The payload is not the JSON that the header announces.
    Json(String),
    /// The payload is not what the header announces.
    InvalidPayload(String),
    /// A line of the frame is not UTF-8.
    Utf8,
    /// A system call failed with this error number.
    Nix(i32),
    /// Bytes other than zero follow the frame.
    TrailingData,
    /// Nothing to read right now.
    WouldBlock,
    /// The datagram did not fit the receive buffer.
    Truncated,
    /// The header announces a payload and the frame has none.
    ExpectedPayload,
    /// The frame carries another number of file descriptors than the
    /// message takes.
    ExpectedFds { expected: u32, found: u32 },
}

impl ProtocolError {
    /// What the error says, in words.
    pub open spec fn wording(self) -> Seq<char> {
        match self {
            ProtocolError::UnexpectedEof => "unexpected end of stream"@,
            ProtocolError::Io(e) => "io error: "@ + e@,
            ProtocolError::Json(e) => "json error: "@ + e@,
            ProtocolError::InvalidPayload(e) => "invalid payload error: "@ + e@,
            ProtocolError::Utf8 => "utf8 error: invalid utf-8 sequence"@,
            ProtocolError::Nix(errno) => "nix error: "@ + signed_text(errno as int),
            ProtocolError::TrailingData => "unexpected extra data after payload"@,
            ProtocolError::WouldBlock => "operation would block (try again later)"@,
            ProtocolError::Truncated => "message payload was truncated (buffer too small)"@,
            ProtocolError::ExpectedPayload => "The received message header requires a payload but none was received"@,
            ProtocolError::ExpectedFds { expected, found } =>
                "Expected the received message to contain exactly "@ + decimal_text(
                    expected as nat,
                ) + " attached file descriptors, got "@ + decimal_text(found as nat),
        }
    }

    /// What the error says, in words.
    pub fn message(&self) -> (r: String)
        ensures
            r@ == self.wording(),
    {
        match self {
            ProtocolError::UnexpectedEof => "unexpected end of stream".to_owned(),
            ProtocolError::Io(e) => {
                let mut r = "io error: ".to_owned();
                r.append(e.as_str());
                r
            },
            ProtocolError::Json(e) => {
                let mut r = "json error: ".to_owned();
                r.append(e.as_str());
                r
            },
            ProtocolError::InvalidPayload(e) => {
                let mut r = "invalid payload error: ".to_owned();
                r.append(e.as_str());
                r
            },
            ProtocolError::Utf8 => "utf8 error: invalid utf-8 sequence".to_owned(),
            ProtocolError::Nix(errno) => {
                let mut r = "nix error: ".to_owned();
                let n = signed(*errno);
                r.append(n.as_str());
                r
            },
            ProtocolError::TrailingData => "unexpected extra data after payload".to_owned(),
            ProtocolError::WouldBlock => "operation would block (try again later)".to_owned(),
            ProtocolError::Truncated => {
                "message payload was truncated (buffer too small)".to_owned()
            },
            ProtocolError::ExpectedPayload => {
                "The received message header requires a payload but none was received".to_owned()
            },
            ProtocolError::ExpectedFds { expected, found } => {
                let mut r = "Expected the received message to contain exactly ".to_owned();
                let e = decimal(*expected);
                r.append(e.as_str());
                r.append(" attached file descriptors, got ");
                let f = decimal(*found);
                r.append(f.as_str());
                proof {
                    assert(r@ =~= self.wording());
                }
                r
            },
        }
    }
}

/// The decimal text of a number with its sign.
pub open spec fn signed_text(n: int) -> Seq<char> {
    if n < 0 {
        seq!['-'] + decimal_text((-n) as nat)
    } else {
        decimal_text(n as nat)
    }
}

/// Prints a number with its sign.
pub fn signed(n: i32) -> (r: String)
    ensures
        r@ == signed_text(n as int),
{
    if n < 0 {
        let magnitude: u32 = if n == i32::MIN {
            2147483648
        } else {
            (-n) as u32
        };
        let mut r = "-".to_owned();
        let d = decimal(magnitude);
        r.append(d.as_str());
        proof {
            reveal_strlit("-");
            assert("-"@ =~= seq!['-']);
            assert(r@ =~= signed_text(n as int));
        }
        r
    } else {
        decimal(n as u32)
    }
}

} // verus!
