//! The client side: configuration, the swapchain of a monitor, and the
//! events that a client is told.

pub mod config;
pub mod session;
pub mod swapchain;

use crate::protocol::{BufferIndex, MonitorInfo, SessionInfo};
use vstd::prelude::*;

verus! {

/// Where a client renders a frame to.
#[derive(Debug, Clone, PartialEq, Eq)]
pub struct FrameTarget {
    framebuffer: u32,
    texture: u32,
    width: i32,
    height: i32,
}

impl FrameTarget {
    pub fn new(framebuffer: u32, texture: u32, width: i32, height: i32) -> (r: FrameTarget)
        ensures
            r.spec_framebuffer() == framebuffer,
            r.spec_texture() == texture,
            r.spec_size() == (width, height),
    {
        FrameTarget { framebuffer, texture, width, height }
    }

    pub closed spec fn spec_framebuffer(&self) -> u32 {
        self.framebuffer
    }

    pub closed spec fn spec_texture(&self) -> u32 {
        self.texture
    }

    pub closed spec fn spec_size(&self) -> (i32, i32) {
        (self.width, self.height)
    }

    #[verifier::when_used_as_spec(spec_framebuffer)]
    pub fn framebuffer(&self) -> (r: u32)
        ensures
            r == self.spec_framebuffer(),
    {
        self.framebuffer
    }

    #[verifier::when_used_as_spec(spec_texture)]
    pub fn texture(&self) -> (r: u32)
        ensures
            r == self.spec_texture(),
    {
        self.texture
    }

    #[verifier::when_used_as_spec(spec_size)]
    pub fn size(&self) -> (r: (i32, i32))
        ensures
            r == self.spec_size(),
    {
        (self.width, self.height)
    }
}

/// What a client is told while it runs.
#[derive(Debug, Clone, PartialEq, Eq)]
pub enum TabEvent {
    FrameDone { monitor_id: String },
    MonitorAdded(MonitorInfo),
    MonitorRemoved(String),
    SessionState(SessionInfo),
}

/// A monitor as a client knows it.
#[derive(Debug, Clone, PartialEq, Eq)]
pub struct MonitorState {
    pub info: MonitorInfo,
}

impl MonitorState {
    pub fn new(info: MonitorInfo) -> (r: MonitorState)
        ensures
            r.info == info,
    {
        MonitorState { info }
    }
}

/// Monitor lifecycle event emitted to listeners.
#[derive(Debug, Clone, PartialEq, Eq)]
pub enum MonitorEvent {
    Added(MonitorState),
    Removed(String),
}

/// Rendering-related notifications.
#[derive(Debug, Clone, PartialEq, Eq)]
pub enum RenderEvent {
    BufferReleased { monitor_id: String, buffer: BufferIndex },
}

/// The two buffers of an output as a client cycles through them: free
/// buffers wait in a queue, one buffer is drawn to, one is on its way to
/// the compositor.
pub struct FrameQueue {
    available: Vec<usize>,
    in_flight: Option<usize>,
    drawing: Option<usize>,
}

/// A frame queue as mathematical data.
pub struct FrameQueueView {
    pub available: Seq<usize>,
    pub in_flight: Option<usize>,
    pub drawing: Option<usize>,
}

impl View for FrameQueue {
    type V = FrameQueueView;

    closed spec fn view(&self) -> FrameQueueView {
        FrameQueueView {
            available: self.available@,
            in_flight: self.in_flight,
            drawing: self.drawing,
        }
    }
}

impl FrameQueue {
    /// Both buffers free, the first one first.
    pub open spec fn fresh() -> FrameQueueView {
        FrameQueueView { available: seq![0usize, 1usize], in_flight: None, drawing: None }
    }

    /// Both buffers are free, the first one first.
    pub fn new() -> (r: FrameQueue)
        ensures
            r@ == FrameQueue::fresh(),
    {
        let mut available: Vec<usize> = Vec::new();
        available.push(0);
        available.push(1);
        proof {
            assert(available@ =~= seq![0usize, 1usize]);
        }
        FrameQueue { available, in_flight: None, drawing: None }
    }

    /// Takes the free buffer that waited longest to draw to; none where no
    /// buffer is free.
    pub fn acquire_frame(&mut self) -> (r: Option<usize>)
        ensures
            old(self)@.available.len() == 0 ==> r is None && final(self)@ == old(self)@,
            old(self)@.available.len() > 0 ==> r == Some(old(self)@.available[0]) && final(self)@
                == (FrameQueueView {
                available: old(self)@.available.subrange(1, old(self)@.available.len() as int),
                drawing: r,
                ..old(self)@
            }),
    {
        if self.available.len() == 0 {
            return None;
        }
        let index = self.available.remove(0);
        proof {
            assert(self.available@ =~= old(self)@.available.subrange(
                1,
                old(self)@.available.len() as int,
            ));
        }
        self.drawing = Some(index);
        Some(index)
    }

    /// Sends the buffer that was drawn to on its way; none where no buffer
    /// was drawn to.
    pub fn begin_swap(&mut self) -> (r: Option<usize>)
        ensures
            r == old(self)@.drawing,
            final(self)@ == (FrameQueueView {
                drawing: None,
                in_flight: if old(self)@.drawing is Some {
                    old(self)@.drawing
                } else {
                    old(self)@.in_flight
                },
                ..old(self)@
            }),
    {
        match self.drawing.take() {
            Some(idx) => {
                self.in_flight = Some(idx);
                Some(idx)
            },
            None => None,
        }
    }

    /// The compositor is done with the buffer that was on its way: it is
    /// free again, behind the others.  Says whether a buffer was on its
    /// way.
    pub fn complete_frame(&mut self) -> (r: bool)
        ensures
            r == old(self)@.in_flight is Some,
            final(self)@ == (FrameQueueView {
                in_flight: None,
                available: match old(self)@.in_flight {
                    Some(idx) => old(self)@.available.push(idx),
                    None => old(self)@.available,
                },
                ..old(self)@
            }),
    {
        match self.in_flight.take() {
            Some(idx) => {
                self.available.push(idx);
                true
            },
            None => false,
        }
    }
}

} // verus!
