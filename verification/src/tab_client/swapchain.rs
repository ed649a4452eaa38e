//! The double-buffer swapchain of one monitor, as the client sees it.

use crate::protocol::{BufferIndex, FramebufferLinkPayload};
use vstd::prelude::*;

verus! {

/// Metadata describing a DMA-BUF-backed buffer.
#[derive(Debug, Clone, PartialEq, Eq)]
pub struct TabBuffer {
    pub index: BufferIndex,
    pub width: i32,
    pub height: i32,
    pub stride: i32,
    pub offset: i32,
    pub fourcc: i32,
    pub fd: i32,
}

impl TabBuffer {
    pub fn width(&self) -> (r: i32)
        ensures
            r == self.width,
    {
        self.width
    }

    pub fn height(&self) -> (r: i32)
        ensures
            r == self.height,
    {
        self.height
    }

    pub fn stride(&self) -> (r: i32)
        ensures
            r == self.stride,
    {
        self.stride
    }

    pub fn offset(&self) -> (r: i32)
        ensures
            r == self.offset,
    {
        self.offset
    }

    pub fn fourcc(&self) -> (r: i32)
        ensures
            r == self.fourcc,
    {
        self.fourcc
    }

    pub fn fd(&self) -> (r: i32)
        ensures
            r == self.fd,
    {
        self.fd
    }
}

/// The other buffer of the pair.
pub open spec fn other(b: BufferIndex) -> BufferIndex {
    match b {
        BufferIndex::Zero => BufferIndex::One,
        BufferIndex::One => BufferIndex::Zero,
    }
}

/// Which buffer the client turns to, and which are with the compositor.
pub struct SwapchainView {
    /// The buffer that the client turned to last.
    pub current: BufferIndex,
    /// The buffer that was acquired and neither sent nor given up yet.
    pub last_acquired: Option<BufferIndex>,
    /// Whether the compositor holds the first buffer.
    pub busy_zero: bool,
    /// Whether the compositor holds the second buffer.
    pub busy_one: bool,
}

impl SwapchainView {
    /// Whether the compositor holds the buffer.
    pub open spec fn busy(self, b: BufferIndex) -> bool {
        match b {
            BufferIndex::Zero => self.busy_zero,
            BufferIndex::One => self.busy_one,
        }
    }

    /// The buffer that the client may draw to next: the other one than the
    /// current where the compositor does not hold it, else the current one
    /// where the compositor does not hold that.
    pub open spec fn next(self) -> Option<BufferIndex> {
        if !self.busy(other(self.current)) {
            Some(other(self.current))
        } else if !self.busy(self.current) {
            Some(self.current)
        } else {
            None
        }
    }

    /// The swapchain with one buffer held by the compositor, or not.
    pub open spec fn with_busy(self, b: BufferIndex, busy: bool) -> SwapchainView {
        match b {
            BufferIndex::Zero => SwapchainView { busy_zero: busy, ..self },
            BufferIndex::One => SwapchainView { busy_one: busy, ..self },
        }
    }
}

/// Double-buffer swapchain model.
#[derive(Debug, Clone, PartialEq, Eq)]
pub struct TabSwapchain {
    pub monitor_id: String,
    pub buffers: [TabBuffer; 2],
    current: BufferIndex,
    last_acquired: Option<BufferIndex>,
    busy: [bool; 2],
}

impl View for TabSwapchain {
    type V = SwapchainView;

    closed spec fn view(&self) -> SwapchainView {
        SwapchainView {
            current: self.current,
            last_acquired: self.last_acquired,
            busy_zero: self.busy@[0],
            busy_one: self.busy@[1],
        }
    }
}

impl TabSwapchain {
    /// The monitor of the swapchain.
    pub closed spec fn spec_monitor_id(&self) -> String {
        self.monitor_id
    }

    /// The two buffers of the swapchain.
    pub closed spec fn spec_buffers(&self) -> Seq<TabBuffer> {
        self.buffers@
    }

    /// A swapchain whose buffers are all with the client.
    pub fn new(monitor_id: String, buffers: [TabBuffer; 2]) -> (r: TabSwapchain)
        ensures
            r@ == (SwapchainView {
                current: BufferIndex::Zero,
                last_acquired: None,
                busy_zero: false,
                busy_one: false,
            }),
            r.spec_monitor_id() == monitor_id,
            r.spec_buffers() == buffers@,
    {
        TabSwapchain {
            monitor_id,
            buffers,
            current: BufferIndex::Zero,
            last_acquired: None,
            busy: [false, false],
        }
    }

    fn is_busy(&self, idx: BufferIndex) -> (r: bool)
        ensures
            r == self@.busy(idx),
    {
        match idx {
            BufferIndex::Zero => self.busy[0],
            BufferIndex::One => self.busy[1],
        }
    }

    /// Turns to the next buffer that the compositor does not hold, and
    /// returns which it is; none, and nothing changes, where the compositor
    /// holds both.
    pub fn acquire_next(&mut self) -> (r: Option<BufferIndex>)
        ensures
            r == old(self)@.next(),
            final(self).spec_monitor_id() == old(self).spec_monitor_id(),
            final(self).spec_buffers() == old(self).spec_buffers(),
            match r {
                Some(b) => final(self)@ == (SwapchainView {
                    current: b,
                    last_acquired: Some(b),
                    ..old(self)@
                }),
                None => final(self)@ == old(self)@,
            },
    {
        let preferred = self.current.other();
        let candidate = if !self.is_busy(preferred) {
            preferred
        } else if !self.is_busy(self.current) {
            self.current
        } else {
            return None;
        };
        self.current = candidate;
        self.last_acquired = Some(candidate);
        Some(candidate)
    }

    /// Gives up the buffer that was acquired last: the client turns to it
    /// again next time.
    pub fn rollback(&mut self)
        ensures
            final(self).spec_monitor_id() == old(self).spec_monitor_id(),
            final(self).spec_buffers() == old(self).spec_buffers(),
            final(self)@ == (match old(self)@.last_acquired {
                Some(last) => SwapchainView {
                    current: other(last),
                    last_acquired: None,
                    ..old(self)@
                },
                None => old(self)@,
            }),
    {
        match self.last_acquired.take() {
            Some(last) => {
                self.current = last.other();
            },
            None => {},
        }
    }

    /// The buffer that the client turned to last.
    pub fn current(&self) -> (r: BufferIndex)
        ensures
            r == self@.current,
    {
        self.current
    }

    /// The buffer at a slot.
    pub fn buffer(&self, idx: BufferIndex) -> (r: &TabBuffer)
        ensures
            *r == self.spec_buffers()[idx.index_of() as int],
    {
        match idx {
            BufferIndex::Zero => &self.buffers[0],
            BufferIndex::One => &self.buffers[1],
        }
    }

    /// The compositor holds the buffer from now on.
    pub fn mark_busy(&mut self, idx: BufferIndex)
        ensures
            final(self).spec_monitor_id() == old(self).spec_monitor_id(),
            final(self).spec_buffers() == old(self).spec_buffers(),
            final(self)@ == (SwapchainView { last_acquired: None, ..old(self)@.with_busy(idx, true) }),
    {
        match idx {
            BufferIndex::Zero => {
                self.busy = [true, self.busy[1]];
            },
            BufferIndex::One => {
                self.busy = [self.busy[0], true];
            },
        }
        self.last_acquired = None;
    }

    /// The compositor handed the buffer back.
    pub fn mark_released(&mut self, idx: BufferIndex)
        ensures
            final(self).spec_monitor_id() == old(self).spec_monitor_id(),
            final(self).spec_buffers() == old(self).spec_buffers(),
            final(self)@ == old(self)@.with_busy(idx, false),
    {
        match idx {
            BufferIndex::Zero => {
                self.busy = [false, self.busy[1]];
            },
            BufferIndex::One => {
                self.busy = [self.busy[0], false];
            },
        }
    }

    /// The layout of the buffers, as the compositor is told it.
    pub fn framebuffer_link_payload(&self) -> (r: FramebufferLinkPayload)
        ensures
            r.monitor_id == self.spec_monitor_id(),
            r.width == self.spec_buffers()[0].width,
            r.height == self.spec_buffers()[0].height,
            r.stride == self.spec_buffers()[0].stride,
            r.offset == self.spec_buffers()[0].offset,
            r.fourcc == self.spec_buffers()[0].fourcc,
    {
        let buffer = &self.buffers[0];
        FramebufferLinkPayload {
            monitor_id: self.monitor_id.clone(),
            width: buffer.width(),
            height: buffer.height(),
            stride: buffer.stride(),
            offset: buffer.offset(),
            fourcc: buffer.fourcc(),
        }
    }

    /// The file descriptors of the two buffers, first buffer first.
    pub fn export_fds(&self) -> (r: [i32; 2])
        ensures
            r@ == seq![self.spec_buffers()[0].fd, self.spec_buffers()[1].fd],
    {
        let fd0 = self.buffers[0].fd();
        let fd1 = self.buffers[1].fd();
        let r = [fd0, fd1];
        proof {
            assert(r@ =~= seq![self.buffers@[0].fd, self.buffers@[1].fd]);
        }
        r
    }
}

/// A compositor that handed a buffer back leaves a buffer for the client
/// to turn to.
pub proof fn lemma_release_frees(s: SwapchainView, b: BufferIndex)
    ensures
        s.with_busy(b, false).next() is Some,
        !s.with_busy(b, false).busy(b),
{
}

/// The client is never sent to a buffer that the compositor holds.
pub proof fn lemma_next_is_free(s: SwapchainView)
    ensures
        s.next() matches Some(b) ==> !s.busy(b),
        s.next() is None <==> s.busy_zero && s.busy_one,
{
}

} // verus!
