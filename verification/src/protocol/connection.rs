//! Reading frames off a connection that may hand over more than one frame
//! at a time: what was read beyond a frame is kept for the next one.

use crate::protocol::error::ProtocolError;
use crate::protocol::frame::{parsed, Parsed, TabMessageFrame};
use vstd::prelude::*;

verus! {

/// The bytes that were read and belong to no frame yet.
pub struct FrameBuffer {
    buffer: Vec<u8>,
}

impl View for FrameBuffer {
    type V = Seq<u8>;

    closed spec fn view(&self) -> Seq<u8> {
        self.buffer@
    }
}

/// What a receive comes to.
pub enum Receipt {
    /// The peer is gone, or the bytes hold no whole frame.
    Eof,
    /// The bytes did not fit the receive buffer.
    Truncated,
    /// A line is not UTF-8.
    Malformed,
    /// Bytes follow a frame that came with file descriptors.
    Trailing,
    /// The frame, and the bytes that are kept for later.
    Frame(crate::protocol::frame::FrameView, Seq<u8>),
}

/// What receiving `data` with `fds` comes to while `kept` is kept from
/// earlier.
pub open spec fn receipt(kept: Seq<u8>, data: Seq<u8>, fds: Seq<i32>, truncated: bool) -> Receipt {
    if data.len() == 0 {
        Receipt::Eof
    } else if truncated {
        Receipt::Truncated
    } else {
        match parsed(data, fds) {
            Parsed::Incomplete => Receipt::Eof,
            Parsed::Malformed => Receipt::Malformed,
            Parsed::Frame(frame, used) => if used < data.len() {
                if frame.fds.len() > 0 {
                    Receipt::Trailing
                } else {
                    Receipt::Frame(frame, kept + data.subrange(used, data.len() as int))
                }
            } else {
                Receipt::Frame(frame, kept)
            },
        }
    }
}

impl FrameBuffer {
    /// Nothing is kept.
    pub fn new() -> (r: FrameBuffer)
        ensures
            r@ == Seq::<u8>::empty(),
    {
        FrameBuffer { buffer: Vec::new() }
    }

    /// Number of bytes that are kept.
    pub fn len(&self) -> (r: usize)
        ensures
            r == self@.len(),
    {
        self.buffer.len()
    }

    /// Takes the frame at the start of the kept bytes, where they hold a
    /// whole one; the bytes of the frame are kept no longer.
    pub fn try_parse_buffer(&mut self) -> (r: Result<Option<TabMessageFrame>, ProtocolError>)
        ensures
            match parsed(old(self)@, Seq::empty()) {
                Parsed::Incomplete => r matches Ok(None) && final(self)@ == old(self)@,
                Parsed::Malformed => r matches Err(ProtocolError::Utf8) && final(self)@ == old(self)@,
                Parsed::Frame(frame, used) => r matches Ok(Some(f)) && f@ == frame && final(self)@
                    == old(self)@.subrange(used, old(self)@.len() as int),
            },
    {
        if self.buffer.len() == 0 {
            return Ok(None);
        }
        match TabMessageFrame::parse_from_bytes(self.buffer.as_slice(), Vec::new()) {
            Err(e) => Err(e),
            Ok(None) => Ok(None),
            Ok(Some((frame, consumed))) => {
                proof {
                    crate::protocol::frame::lemma_line_end(self.buffer@, 0);
                    crate::protocol::frame::lemma_line_end(
                        self.buffer@,
                        crate::protocol::frame::line_end(self.buffer@, 0) + 1,
                    );
                }
                let rest = self.buffer.split_off(consumed);
                self.buffer = rest;
                Ok(Some(frame))
            },
        }
    }

    /// Takes the frame off what was just received.  Bytes that follow the
    /// frame are kept for later, unless the frame came with file
    /// descriptors: these belong to one frame only.
    pub fn receive(&mut self, data: &[u8], fds: Vec<i32>, truncated: bool) -> (r: Result<
        TabMessageFrame,
        ProtocolError,
    >)
        ensures
            match receipt(old(self)@, data@, fds@, truncated) {
                Receipt::Eof => r matches Err(ProtocolError::UnexpectedEof) && final(self)@ == old(self)@,
                Receipt::Truncated => r matches Err(ProtocolError::Truncated) && final(self)@
                    == old(self)@,
                Receipt::Malformed => r matches Err(ProtocolError::Utf8) && final(self)@ == old(self)@,
                Receipt::Trailing => r matches Err(ProtocolError::TrailingData) && final(self)@
                    == old(self)@,
                Receipt::Frame(frame, kept) => r matches Ok(f) && f@ == frame && final(self)@
                    == kept,
            },
    {
        if data.len() == 0 {
            return Err(ProtocolError::UnexpectedEof);
        }
        if truncated {
            return Err(ProtocolError::Truncated);
        }
        let (frame, consumed) = match TabMessageFrame::parse_from_bytes(data, fds) {
            Err(e) => {
                return Err(e);
            },
            Ok(None) => {
                return Err(ProtocolError::UnexpectedEof);
            },
            Ok(Some(found)) => found,
        };
        proof {
            crate::protocol::frame::lemma_line_end(data@, 0);
            crate::protocol::frame::lemma_line_end(
                data@,
                crate::protocol::frame::line_end(data@, 0) + 1,
            );
        }
        if consumed < data.len() {
            if frame.fds.len() > 0 {
                return Err(ProtocolError::TrailingData);
            }
            let rest = crate::protocol::text::copy_range(data, consumed, data.len());
            self.buffer.extend_from_slice(rest.as_slice());
        }
        Ok(frame)
    }
}

} // verus!
