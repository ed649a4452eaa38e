//! What the parts of the compositor say to each other.
//!
//! The client tasks, the control plane and the render loop talk over
//! bounded channels.  The messages are plain data; file descriptors in them
//! are numbers whose ownership travels with the message.

use crate::ids::{MonitorId, SessionId, Token};
use crate::ledger::BufferRelease;
use crate::monitor::Monitor;
use crate::protocol::{BufferIndex, FramebufferLinkPayload, SessionCreatePayload};
use crate::sessions::{PendingSession, Session};
use vstd::prelude::*;

verus! {

/// The codes of the errors that a client is told.
#[derive(Clone, Copy, Debug, PartialEq, Eq, Structural)]
pub enum ErrorCode {
    Forbidden,
    NotFound,
    OwnershipViolation,
    BufferRequestInflight,
    BufferRequestRejected,
    UnknownMonitor,
    UnlinkedBuffer,
    RenderUnavailable,
    ProtocolViolation,
}

impl ErrorCode {
    /// The code as it is written on the wire.
    pub fn as_str(self) -> (r: &'static str)
        ensures
            r@ == self.text(),
    {
        match self {
            ErrorCode::Forbidden => "forbidden",
            ErrorCode::NotFound => "not_found",
            ErrorCode::OwnershipViolation => "ownership_violation",
            ErrorCode::BufferRequestInflight => "buffer_request_inflight",
            ErrorCode::BufferRequestRejected => "buffer_request_rejected",
            ErrorCode::UnknownMonitor => "unknown_monitor",
            ErrorCode::UnlinkedBuffer => "unlinked_buffer",
            ErrorCode::RenderUnavailable => "render_unavailable",
            ErrorCode::ProtocolViolation => "protocol_violation",
        }
    }

    /// The code as it is written on the wire.
    pub open spec fn text(self) -> Seq<char> {
        match self {
            ErrorCode::Forbidden => "forbidden"@,
            ErrorCode::NotFound => "not_found"@,
            ErrorCode::OwnershipViolation => "ownership_violation"@,
            ErrorCode::BufferRequestInflight => "buffer_request_inflight"@,
            ErrorCode::BufferRequestRejected => "buffer_request_rejected"@,
            ErrorCode::UnknownMonitor => "unknown_monitor"@,
            ErrorCode::UnlinkedBuffer => "unlinked_buffer"@,
            ErrorCode::RenderUnavailable => "render_unavailable"@,
            ErrorCode::ProtocolViolation => "protocol_violation"@,
        }
    }
}

/// Why the renderer turned a buffer request down.
#[derive(Clone, Copy, Debug, PartialEq, Eq, Structural)]
pub enum RejectReason {
    /// The renderer knows no such monitor.
    UnknownMonitor,
    /// No texture is linked for the slot.
    UnlinkedBuffer,
}

impl RejectReason {
    pub fn as_str(self) -> (r: &'static str)
        ensures
            r@ == match self {
                RejectReason::UnknownMonitor => "unknown_monitor"@,
                RejectReason::UnlinkedBuffer => "unlinked_buffer"@,
            },
    {
        match self {
            RejectReason::UnknownMonitor => "unknown_monitor",
            RejectReason::UnlinkedBuffer => "unlinked_buffer",
        }
    }
}

/// What an error message adds to its code.
#[derive(Clone, Copy, Debug, PartialEq, Eq, Structural)]
pub enum ErrorDetail {
    NotClientOwned,
    AlreadyPending,
    RendererUnavailable,
    Rejected(RejectReason),
}

impl ErrorDetail {
    pub fn as_str(self) -> (r: &'static str)
        ensures
            r@ == match self {
                ErrorDetail::NotClientOwned => "requested buffer is not client-owned"@,
                ErrorDetail::AlreadyPending => "buffer request already pending"@,
                ErrorDetail::RendererUnavailable => "renderer unavailable"@,
                ErrorDetail::Rejected(RejectReason::UnknownMonitor) => "unknown_monitor"@,
                ErrorDetail::Rejected(RejectReason::UnlinkedBuffer) => "unlinked_buffer"@,
            },
    {
        match self {
            ErrorDetail::NotClientOwned => "requested buffer is not client-owned",
            ErrorDetail::AlreadyPending => "buffer request already pending",
            ErrorDetail::RendererUnavailable => "renderer unavailable",
            ErrorDetail::Rejected(reason) => reason.as_str(),
        }
    }
}

/// Why an authentication failed.
#[derive(Clone, Copy, Debug, PartialEq, Eq, Structural)]
pub enum AuthError {
    /// No pending session is filed under the token.
    NotFound,
}

impl AuthError {
    pub fn as_str(self) -> (r: &'static str)
        ensures
            r@ == "not_found"@,
    {
        match self {
            AuthError::NotFound => "not_found",
        }
    }
}

/// From a client task to the control plane.
#[derive(Debug, Clone, PartialEq, Eq)]
pub enum C2SMsg {
    Shutdown,
    Auth(Token),
    CreateSession(SessionCreatePayload),
    BufferRequest { monitor_id: MonitorId, buffer: BufferIndex, acquire_fence: Option<i32> },
    FramebufferLink { payload: FramebufferLinkPayload, dma_bufs: [i32; 2] },
}

/// From the control plane to a client task.
#[derive(Debug, Clone, PartialEq, Eq)]
pub enum S2CMsg {
    BindToSession { session: Session, monitors: Vec<Monitor> },
    AuthError(AuthError),
    SessionCreated(Token, PendingSession),
    Error { code: ErrorCode, error: Option<ErrorDetail>, shutdown: bool },
    BufferRelease { buffers: Vec<BufferRelease> },
    BufferRequestAck { monitor_id: MonitorId, buffer: BufferIndex },
    MonitorAdded { monitor: Monitor },
    MonitorRemoved { monitor_id: MonitorId, name: String },
}

/// A message to a client task as mathematical data.
pub enum S2CView {
    BindToSession { session: Session, monitors: Seq<Monitor> },
    AuthError(AuthError),
    SessionCreated(Token, PendingSession),
    Error { code: ErrorCode, error: Option<ErrorDetail>, shutdown: bool },
    BufferRelease { buffers: Seq<BufferRelease> },
    BufferRequestAck { monitor_id: MonitorId, buffer: BufferIndex },
    MonitorAdded { monitor: Monitor },
    MonitorRemoved { monitor_id: MonitorId, name: String },
}

impl View for S2CMsg {
    type V = S2CView;

    open spec fn view(&self) -> S2CView {
        match *self {
            S2CMsg::BindToSession { session, monitors } => S2CView::BindToSession {
                session,
                monitors: monitors@,
            },
            S2CMsg::AuthError(e) => S2CView::AuthError(e),
            S2CMsg::SessionCreated(token, session) => S2CView::SessionCreated(token, session),
            S2CMsg::Error { code, error, shutdown } => S2CView::Error { code, error, shutdown },
            S2CMsg::BufferRelease { buffers } => S2CView::BufferRelease { buffers: buffers@ },
            S2CMsg::BufferRequestAck { monitor_id, buffer } => S2CView::BufferRequestAck {
                monitor_id,
                buffer,
            },
            S2CMsg::MonitorAdded { monitor } => S2CView::MonitorAdded { monitor },
            S2CMsg::MonitorRemoved { monitor_id, name } => S2CView::MonitorRemoved {
                monitor_id,
                name,
            },
        }
    }
}

/// From the control plane to the render loop.
#[derive(Debug, Clone, PartialEq, Eq)]
pub enum RenderCmd {
    /// Clean up and exit.
    Shutdown,
    /// Import the two buffers of a client for a monitor.
    FramebufferLink { payload: FramebufferLinkPayload, dma_bufs: [i32; 2], session_id: SessionId },
    /// Show this session from now on.
    SetActiveSession { session_id: Option<SessionId> },
    /// Drop everything that belongs to a session that is gone.
    SessionRemoved { session_id: SessionId },
    /// Present a slot on a monitor, once its fence has signalled.
    SwapBuffers {
        monitor_id: MonitorId,
        buffer: BufferIndex,
        session_id: SessionId,
        acquire_fence: Option<i32>,
    },
}

/// From the render loop to the control plane.
#[derive(Debug, Clone, PartialEq, Eq)]
pub enum RenderEvt {
    /// The render loop is up; these monitors are there.
    Started { monitors: Vec<Monitor> },
    /// A monitor was plugged in.
    MonitorOnline { monitor: Monitor },
    /// A monitor was unplugged.
    MonitorOffline { monitor_id: MonitorId },
    /// The render loop cannot go on.
    FatalError { reason: String },
    /// These monitors flipped and can be committed to again.
    PageFlip { monitors: Vec<MonitorId> },
    /// The renderer accepted a buffer request.
    BufferRequestAck { session_id: SessionId, monitor_id: MonitorId, buffer: BufferIndex },
    /// The renderer turned a buffer request down.
    BufferRequestRejected {
        session_id: SessionId,
        monitor_id: MonitorId,
        buffer: BufferIndex,
        reason: RejectReason,
    },
}

/// The file descriptors that a message from a client task carries.
pub open spec fn c2s_fds(m: C2SMsg) -> Seq<i32> {
    match m {
        C2SMsg::BufferRequest { monitor_id, buffer, acquire_fence } => match acquire_fence {
            Some(fd) => seq![fd],
            None => Seq::empty(),
        },
        C2SMsg::FramebufferLink { payload, dma_bufs } => dma_bufs@,
        _ => Seq::empty(),
    }
}

/// The file descriptors that a command to the render loop carries.
pub open spec fn render_cmd_fds(c: RenderCmd) -> Seq<i32> {
    match c {
        RenderCmd::FramebufferLink { payload, dma_bufs, session_id } => dma_bufs@,
        RenderCmd::SwapBuffers { monitor_id, buffer, session_id, acquire_fence } => match acquire_fence {
            Some(fd) => seq![fd],
            None => Seq::empty(),
        },
        _ => Seq::empty(),
    }
}

} // verus!
