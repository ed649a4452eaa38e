//! Frames: a header line, a payload line, and file descriptors beside them.
//!
//! On the wire a frame is `<header>\n<payload>\n`.  A frame without payload
//! carries four zero bytes in the place of the payload.

use crate::protocol::error::ProtocolError;
use crate::protocol::header::MessageHeader;
use crate::protocol::text::{
    copy_range, string_from_utf8, trim_end, trim_line_ends, trimmed_end, without_line_ends,
};
use vstd::prelude::*;
use vstd::utf8::*;

verus! {

/// Raw framed message: header line and payload line as strings, plus the
/// file descriptors that came with the datagram.
#[derive(Debug, Clone, PartialEq, Eq)]
pub struct TabMessageFrame {
    pub header: MessageHeader,
    pub payload: Option<String>,
    pub fds: Vec<i32>,
}

/// A frame as mathematical data.
pub struct FrameView {
    pub header: Seq<char>,
    pub payload: Option<Seq<char>>,
    pub fds: Seq<i32>,
}

impl View for TabMessageFrame {
    type V = FrameView;

    open spec fn view(&self) -> FrameView {
        FrameView {
            header: self.header.0@,
            payload: match self.payload {
                Some(p) => Some(p@),
                None => None,
            },
            fds: self.fds@,
        }
    }
}

/// The bytes that stand for "no payload".
pub open spec fn sentinel() -> Seq<u8> {
    seq![0u8, 0u8, 0u8, 0u8]
}

/// The first position from `from` on that holds a line feed, or the end.
pub open spec fn line_end(bytes: Seq<u8>, from: int) -> int
    decreases bytes.len() - from,
{
    if 0 <= from < bytes.len() && bytes[from] != 10 {
        line_end(bytes, from + 1)
    } else {
        from
    }
}

/// The two lines at the start of `bytes` and the number of bytes they take,
/// line feeds included; nothing where `bytes` holds fewer than two lines.
pub open spec fn first_lines(bytes: Seq<u8>) -> Option<(Seq<u8>, Seq<u8>, int)> {
    let a = line_end(bytes, 0);
    let b = line_end(bytes, a + 1);
    if a < bytes.len() && b < bytes.len() {
        Some((bytes.subrange(0, a), bytes.subrange(a + 1, b), b + 1))
    } else {
        None
    }
}

/// What reading a frame off the start of some bytes comes to.
pub enum Parsed {
    /// The bytes hold fewer than two lines.
    Incomplete,
    /// A line is not UTF-8.
    Malformed,
    /// A frame, and the number of bytes it took.
    Frame(FrameView, int),
}

/// The frame at the start of `bytes`, with `fds` beside it.
pub open spec fn parsed(bytes: Seq<u8>, fds: Seq<i32>) -> Parsed {
    match first_lines(bytes) {
        None => Parsed::Incomplete,
        Some((header, payload, used)) => if valid_utf8(header) && valid_utf8(payload) {
            Parsed::Frame(
                FrameView {
                    header: decode_utf8(header),
                    payload: if payload == sentinel() {
                        None
                    } else {
                        Some(decode_utf8(payload))
                    },
                    fds,
                },
                used,
            )
        } else {
            Parsed::Malformed
        },
    }
}

/// The bytes that a frame is sent as: the header without white space at its
/// end, the payload without line feeds at its end, each closed by a line
/// feed.
pub open spec fn encoded(f: FrameView) -> Seq<u8> {
    encode_utf8(trimmed_end(f.header)) + seq![10u8] + (match f.payload {
        Some(p) => encode_utf8(without_line_ends(p)),
        None => sentinel(),
    }) + seq![10u8]
}

/// What receiving one datagram comes to.
pub enum Received {
    /// The peer closed the connection, or the datagram holds no whole frame.
    Eof,
    /// The datagram did not fit the buffer.
    Truncated,
    /// A line is not UTF-8.
    Malformed,
    /// Bytes other than zero follow the frame.
    Trailing,
    /// A frame.
    Frame(FrameView),
}

/// The frame that a datagram holds.
pub open spec fn received(bytes: Seq<u8>, fds: Seq<i32>, truncated: bool) -> Received {
    if bytes.len() == 0 {
        Received::Eof
    } else if truncated {
        Received::Truncated
    } else {
        match parsed(bytes, fds) {
            Parsed::Incomplete => Received::Eof,
            Parsed::Malformed => Received::Malformed,
            Parsed::Frame(frame, used) => if exists|i: int|
                used <= i < bytes.len() && #[trigger] bytes[i] != 0 {
                Received::Trailing
            } else {
                Received::Frame(frame)
            },
        }
    }
}

/// Where a line ends.
pub proof fn lemma_line_end(bytes: Seq<u8>, from: int)
    requires
        0 <= from <= bytes.len(),
    ensures
        from <= line_end(bytes, from) <= bytes.len(),
        forall|i: int| from <= i < line_end(bytes, from) ==> #[trigger] bytes[i] != 10,
        line_end(bytes, from) < bytes.len() ==> bytes[line_end(bytes, from)] == 10,
    decreases bytes.len() - from,
{
    if from < bytes.len() && bytes[from] != 10 {
        lemma_line_end(bytes, from + 1);
    }
}

/// A run without line feed that ends at a line feed is one line.
pub proof fn lemma_line_run(bytes: Seq<u8>, from: int, to: int)
    requires
        0 <= from <= to < bytes.len(),
        forall|i: int| from <= i < to ==> #[trigger] bytes[i] != 10,
        bytes[to] == 10,
    ensures
        line_end(bytes, from) == to,
    decreases to - from,
{
    if from < to {
        lemma_line_run(bytes, from + 1, to);
    }
}

/// Position of the first line feed from `from` on.
fn find_line_end(bytes: &[u8], from: usize) -> (r: usize)
    requires
        from <= bytes@.len(),
    ensures
        r == line_end(bytes@, from as int),
        from <= r <= bytes@.len(),
{
    let mut i: usize = from;
    while i < bytes.len() && bytes[i] != 10
        invariant
            from <= i <= bytes@.len(),
            line_end(bytes@, from as int) == line_end(bytes@, i as int),
        decreases bytes@.len() - i,
    {
        i += 1;
    }
    i
}

/// Whether the bytes are the four zero bytes of "no payload".
fn is_sentinel(bytes: &[u8]) -> (r: bool)
    ensures
        r == (bytes@ == sentinel()),
{
    if bytes.len() != 4 {
        return false;
    }
    let r = bytes[0] == 0 && bytes[1] == 0 && bytes[2] == 0 && bytes[3] == 0;
    proof {
        if r {
            assert(bytes@ =~= sentinel());
        } else {
            assert(sentinel()[0] == 0 && sentinel()[1] == 0 && sentinel()[2] == 0 && sentinel()[3]
                == 0);
        }
    }
    r
}

impl TabMessageFrame {
    /// A frame with a payload that is sent as it stands.
    pub fn raw(header: &str, body: &str) -> (r: TabMessageFrame)
        ensures
            r@ == (FrameView { header: header@, payload: Some(body@), fds: Seq::empty() }),
    {
        TabMessageFrame {
            header: MessageHeader::new(header),
            payload: Some(body.to_owned()),
            fds: Vec::new(),
        }
    }

    /// A frame without payload.
    pub fn no_payload(header: &str) -> (r: TabMessageFrame)
        ensures
            r@ == (FrameView { header: header@, payload: None, fds: Seq::empty() }),
    {
        TabMessageFrame { header: MessageHeader::new(header), payload: None, fds: Vec::new() }
    }

    /// Checks that the frame carries exactly `amount` file descriptors.  A
    /// count beyond `u32::MAX` is reported as `u32::MAX`.
    pub fn expect_n_fds(&self, amount: u32) -> (r: Result<(), ProtocolError>)
        ensures
            self.fds@.len() == amount ==> r is Ok,
            self.fds@.len() != amount ==> r == Err::<(), ProtocolError>(
                ProtocolError::ExpectedFds {
                    expected: amount,
                    found: if self.fds@.len() > u32::MAX {
                        u32::MAX
                    } else {
                        self.fds@.len() as u32
                    },
                },
            ),
    {
        let n = self.fds.len();
        let found: u32 = if n > u32::MAX as usize {
            u32::MAX
        } else {
            n as u32
        };
        if n <= u32::MAX as usize && found == amount {
            Ok(())
        } else {
            Err(ProtocolError::ExpectedFds { expected: amount, found })
        }
    }

    /// The bytes of the datagram that carries the frame; the file
    /// descriptors travel beside it.
    pub fn encode(&self) -> (r: Vec<u8>)
        ensures
            r@ == encoded(self@),
    {
        let mut out: Vec<u8> = Vec::new();
        let header_line = trim_end(self.header.as_str());
        out.extend_from_slice(header_line.as_bytes());
        out.push(10);
        match &self.payload {
            Some(p) => {
                let payload_line = trim_line_ends(p.as_str());
                out.extend_from_slice(payload_line.as_bytes());
            },
            None => {
                out.push(0);
                out.push(0);
                out.push(0);
                out.push(0);
            },
        }
        out.push(10);
        proof {
            assert(out@ =~= encoded(self@));
        }
        out
    }

    /// Builds the frame of a header line and a payload line.
    fn from_lines(header_bytes: &[u8], payload_bytes: &[u8], fds: Vec<i32>) -> (r: Result<
        TabMessageFrame,
        ProtocolError,
    >)
        ensures
            match r {
                Ok(frame) => valid_utf8(header_bytes@) && valid_utf8(payload_bytes@) && frame@ == (
                FrameView {
                    header: decode_utf8(header_bytes@),
                    payload: if payload_bytes@ == sentinel() {
                        None
                    } else {
                        Some(decode_utf8(payload_bytes@))
                    },
                    fds: fds@,
                }),
                Err(e) => e == ProtocolError::Utf8 && !(valid_utf8(header_bytes@) && valid_utf8(
                    payload_bytes@,
                )),
            },
    {
        proof {
            assert(header_bytes@.subrange(0, header_bytes@.len() as int) =~= header_bytes@);
            assert(payload_bytes@.subrange(0, payload_bytes@.len() as int) =~= payload_bytes@);
        }
        let header = match string_from_utf8(copy_range(header_bytes, 0, header_bytes.len())) {
            Ok(s) => s,
            Err(_) => {
                return Err(ProtocolError::Utf8);
            },
        };
        let payload_str = match string_from_utf8(
            copy_range(payload_bytes, 0, payload_bytes.len()),
        ) {
            Ok(s) => s,
            Err(_) => {
                return Err(ProtocolError::Utf8);
            },
        };
        let payload = if is_sentinel(payload_bytes) {
            None
        } else {
            Some(payload_str)
        };
        Ok(TabMessageFrame { header: MessageHeader(header), payload, fds })
    }

    /// Reads the frame at the start of `bytes`: two lines, each closed by a
    /// line feed.  Returns the frame and the number of bytes it took, or
    /// nothing where `bytes` holds fewer than two lines.
    pub fn parse_from_bytes(bytes: &[u8], fds: Vec<i32>) -> (r: Result<
        Option<(TabMessageFrame, usize)>,
        ProtocolError,
    >)
        ensures
            match parsed(bytes@, fds@) {
                Parsed::Incomplete => r matches Ok(None),
                Parsed::Malformed => r matches Err(ProtocolError::Utf8),
                Parsed::Frame(frame, used) => r matches Ok(Some((f, n))) && f@ == frame && n
                    == used,
            },
    {
        let first_nl = find_line_end(bytes, 0);
        if first_nl >= bytes.len() {
            return Ok(None);
        }
        let second_nl = find_line_end(bytes, first_nl + 1);
        if second_nl >= bytes.len() {
            return Ok(None);
        }
        let header_bytes = copy_range(bytes, 0, first_nl);
        let payload_bytes = copy_range(bytes, first_nl + 1, second_nl);
        let consumed = second_nl + 1;
        match TabMessageFrame::from_lines(header_bytes.as_slice(), payload_bytes.as_slice(), fds) {
            Ok(frame) => Ok(Some((frame, consumed))),
            Err(e) => Err(e),
        }
    }

    /// Reads the one frame of a datagram of `bytes` that came with `fds`;
    /// `truncated` says whether the datagram did not fit the receive buffer.
    /// An empty datagram means that the peer is gone.  After the frame only
    /// zero bytes may follow.
    pub fn from_datagram(bytes: &[u8], fds: Vec<i32>, truncated: bool) -> (r: Result<
        TabMessageFrame,
        ProtocolError,
    >)
        ensures
            match received(bytes@, fds@, truncated) {
                Received::Eof => r matches Err(ProtocolError::UnexpectedEof),
                Received::Truncated => r matches Err(ProtocolError::Truncated),
                Received::Malformed => r matches Err(ProtocolError::Utf8),
                Received::Trailing => r matches Err(ProtocolError::TrailingData),
                Received::Frame(frame) => r matches Ok(f) && f@ == frame,
            },
    {
        if bytes.len() == 0 {
            return Err(ProtocolError::UnexpectedEof);
        }
        if truncated {
            return Err(ProtocolError::Truncated);
        }
        let ghost beside = fds@;
        let (frame, used) = match TabMessageFrame::parse_from_bytes(bytes, fds) {
            Err(e) => {
                return Err(e);
            },
            Ok(None) => {
                return Err(ProtocolError::UnexpectedEof);
            },
            Ok(Some(found)) => found,
        };
        let mut i: usize = used;
        proof {
            lemma_line_end(bytes@, 0);
            lemma_line_end(bytes@, line_end(bytes@, 0) + 1);
        }
        while i < bytes.len()
            invariant
                used <= i <= bytes@.len(),
                bytes@.len() > 0,
                !truncated,
                parsed(bytes@, beside) == Parsed::Frame(frame@, used as int),
                forall|j: int| used <= j < i ==> #[trigger] bytes@[j] == 0,
            decreases bytes@.len() - i,
        {
            if bytes[i] != 0 {
                proof {
                    assert(used <= i < bytes@.len() && bytes@[i as int] != 0);
                }
                return Err(ProtocolError::TrailingData);
            }
            i += 1;
        }
        Ok(frame)
    }
}

} // verus!
