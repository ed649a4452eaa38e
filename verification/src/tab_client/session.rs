//! What a client makes of the messages of the compositor: the handshake,
//! the authentication, and the events while it runs.

use crate::protocol::message::TabMessage;
use crate::protocol::text::same_text;
use crate::protocol::{
    AuthOkPayload, BufferIndex, HelloPayload, MonitorInfo, SessionInfo, SessionReadyPayload,
    PROTOCOL_VERSION,
};
use crate::tab_client::{FrameQueue, MonitorEvent, MonitorState, RenderEvent, TabEvent};
use crate::table::{lookup, Keyed, Table};
use vstd::prelude::*;

verus! {

/// Client-side errors, as far as messages decide them.
#[derive(Debug, Clone, PartialEq, Eq)]
pub enum TabClientError {
    /// The first message was not `hello`; the text is its header.
    UnexpectedHeader(String),
    /// The compositor speaks another protocol.
    UnsupportedProtocol(String),
    /// The compositor turned the token down.
    AuthRejected(String),
    /// The compositor answered the token with something else.
    UnexpectedMessage(TabMessage),
    /// The client has not authenticated yet.
    NotAuthenticated,
    /// No buffer of the monitor is free.
    NoFreeBuffers(String),
    /// No such monitor is known.
    UnknownMonitor(String),
    /// A monitor has a width or a height that is no size.
    InvalidMonitorDimensions,
}

/// The header that names a message; for a message that is not known, the
/// header of its frame.
fn header_of(message: &TabMessage) -> (r: String)
    ensures
        r@ == (match *message {
            TabMessage::Unknown(frame) => frame.header.0@,
            _ => message.kind().header_text(),
        }),
{
    match message {
        TabMessage::Unknown(frame) => frame.header.0.clone(),
        _ => message.message_kind().header().to_owned(),
    }
}

/// Checks the first message of a connection: it must be `hello`, and the
/// compositor must speak the protocol of this library.
pub fn check_hello(message: TabMessage) -> (r: Result<HelloPayload, TabClientError>)
    ensures
        match message {
            TabMessage::Hello(p) => if p.protocol@ == PROTOCOL_VERSION@ {
                r == Ok::<HelloPayload, TabClientError>(p)
            } else {
                r == Err::<HelloPayload, TabClientError>(
                    TabClientError::UnsupportedProtocol(p.protocol),
                )
            },
            TabMessage::Unknown(frame) => r matches Err(TabClientError::UnexpectedHeader(h)) && h@
                == frame.header.0@,
            _ => r matches Err(TabClientError::UnexpectedHeader(h)) && h@
                == message.kind().header_text(),
        },
{
    match message {
        TabMessage::Hello(p) => {
            if same_text(p.protocol.as_str(), PROTOCOL_VERSION) {
                Ok(p)
            } else {
                Err(TabClientError::UnsupportedProtocol(p.protocol))
            }
        },
        other => Err(TabClientError::UnexpectedHeader(header_of(&other))),
    }
}

/// What the answer to a token comes to: the session on `auth_ok`, a
/// rejection with the reason on `auth_error` or `error`.
pub fn auth_outcome(message: TabMessage) -> (r: Result<AuthOkPayload, TabClientError>)
    ensures
        match message {
            TabMessage::AuthOk(payload) => r == Ok::<AuthOkPayload, TabClientError>(payload),
            TabMessage::AuthError(payload) => r == Err::<AuthOkPayload, TabClientError>(
                TabClientError::AuthRejected(payload.error),
            ),
            TabMessage::Error(payload) => r == Err::<AuthOkPayload, TabClientError>(
                TabClientError::AuthRejected(
                    match payload.message {
                        Some(m) => m,
                        None => payload.code,
                    },
                ),
            ),
            other => r == Err::<AuthOkPayload, TabClientError>(
                TabClientError::UnexpectedMessage(other),
            ),
        },
{
    match message {
        TabMessage::AuthOk(payload) => Ok(payload),
        TabMessage::AuthError(payload) => Err(TabClientError::AuthRejected(payload.error)),
        TabMessage::Error(payload) => {
            let msg = match payload.message {
                Some(m) => m,
                None => payload.code,
            };
            Err(TabClientError::AuthRejected(msg))
        },
        other => Err(TabClientError::UnexpectedMessage(other)),
    }
}

/// The payload with which a client says that its session is ready.
pub fn ready_payload(session: &Option<SessionInfo>) -> (r: Result<
    SessionReadyPayload,
    TabClientError,
>)
    ensures
        match *session {
            Some(s) => r == Ok::<SessionReadyPayload, TabClientError>(
                SessionReadyPayload { session_id: s.id },
            ),
            None => r == Err::<SessionReadyPayload, TabClientError>(
                TabClientError::NotAuthenticated,
            ),
        },
{
    match session {
        Some(s) => Ok(SessionReadyPayload { session_id: s.id.clone() }),
        None => Err(TabClientError::NotAuthenticated),
    }
}

/// The size of the buffers for a monitor; a negative width or height is no
/// size.
pub fn buffer_size(info: &MonitorInfo) -> (r: Result<(u32, u32), TabClientError>)
    ensures
        r == if info.width >= 0 && info.height >= 0 {
            Ok::<(u32, u32), TabClientError>((info.width as u32, info.height as u32))
        } else {
            Err::<(u32, u32), TabClientError>(TabClientError::InvalidMonitorDimensions)
        },
{
    if info.width >= 0 && info.height >= 0 {
        Ok((info.width as u32, info.height as u32))
    } else {
        Err(TabClientError::InvalidMonitorDimensions)
    }
}

/// The buffers of one monitor.
pub struct OutputRow {
    pub info: MonitorInfo,
    pub queue: FrameQueue,
}

impl Keyed for OutputRow {
    type Key = String;

    type Name = Seq<char>;

    open spec fn name_of(key: &String) -> Seq<char> {
        key@
    }

    open spec fn key(&self) -> Seq<char> {
        self.info.id@
    }

    fn id(&self) -> (r: String) {
        self.info.id.clone()
    }

    fn has_key(&self, key: &String) -> (r: bool) {
        same_text(self.info.id.as_str(), key.as_str())
    }
}

/// The outputs of a client, one for each monitor that it was told of.
pub struct Outputs {
    rows: Table<OutputRow>,
    last_error: Option<String>,
}

impl Outputs {
    /// The outputs, each under the identity of its monitor.
    pub closed spec fn rows(&self) -> Seq<OutputRow> {
        self.rows@
    }

    /// The last error that the compositor reported.
    pub closed spec fn spec_last_error(&self) -> Option<String> {
        self.last_error
    }

    /// The output of a monitor.
    pub open spec fn output(&self, monitor_id: Seq<char>) -> Option<OutputRow> {
        lookup(self.rows(), monitor_id)
    }

    /// No outputs.
    pub fn new() -> (r: Outputs)
        ensures
            r.rows() == Seq::<OutputRow>::empty(),
            r.spec_last_error() is None,
    {
        Outputs { rows: Table::new(), last_error: None }
    }

    /// The identities of the monitors, in the order in which the client
    /// was told of them.
    pub fn monitor_ids(&self) -> (r: Vec<String>)
        ensures
            r@.len() == self.rows().len(),
            forall|i: int| 0 <= i < r@.len() ==> (#[trigger] r@[i]) == self.rows()[i].info.id,
    {
        let rows = self.rows.rows();
        let mut ids: Vec<String> = Vec::new();
        let mut i: usize = 0;
        while i < rows.len()
            invariant
                i <= rows.len(),
                ids@.len() == i,
                forall|j: int| 0 <= j < i ==> (#[trigger] ids@[j]) == rows@[j].info.id,
            decreases rows.len() - i,
        {
            ids.push(rows[i].info.id.clone());
            i += 1;
        }
        ids
    }

    /// Takes and clears the last error that the compositor reported.
    pub fn take_error(&mut self) -> (r: Option<String>)
        ensures
            r == old(self).spec_last_error(),
            final(self).spec_last_error() is None,
            final(self).rows() == old(self).rows(),
    {
        self.last_error.take()
    }

    /// Takes note of a monitor, with both buffers free; an earlier output
    /// of the monitor is replaced.
    pub fn create_output(&mut self, info: MonitorInfo)
        ensures
            final(self).spec_last_error() == old(self).spec_last_error(),
            final(self).output(info.id@) matches Some(row) && row.info == info && row.queue@
                == FrameQueue::fresh(),
    {
        let row = OutputRow { info, queue: FrameQueue::new() };
        proof {
            crate::table::lemma_put_lookup(self.rows@, row);
        }
        self.rows.put(row);
    }

    /// Takes the free buffer of a monitor that waited longest to draw to.
    pub fn acquire_frame(&mut self, monitor_id: &String) -> (r: Result<usize, TabClientError>)
        ensures
            final(self).spec_last_error() == old(self).spec_last_error(),
            match old(self).output(monitor_id@) {
                None => r matches Err(TabClientError::UnknownMonitor(m)) && m@ == monitor_id@
                    && final(self).rows() == old(self).rows(),
                Some(row) => if row.queue@.available.len() == 0 {
                    r == Err::<usize, TabClientError>(TabClientError::NoFreeBuffers(row.info.id))
                } else {
                    r == Ok::<usize, TabClientError>(row.queue@.available[0])
                },
            },
    {
        let mut row = match self.rows.take(monitor_id) {
            Some(row) => row,
            None => {
                proof {
                    crate::table::lemma_position_found(old(self).rows@, monitor_id@);
                }
                return Err(TabClientError::UnknownMonitor(monitor_id.clone()));
            },
        };
        let r = match row.queue.acquire_frame() {
            Some(index) => Ok(index),
            None => Err(TabClientError::NoFreeBuffers(row.info.id.clone())),
        };
        self.rows.put(row);
        r
    }

    /// Sends the buffer of a monitor that was drawn to on its way.
    pub fn begin_swap(&mut self, monitor_id: &String) -> (r: Result<usize, TabClientError>)
        ensures
            final(self).spec_last_error() == old(self).spec_last_error(),
            match old(self).output(monitor_id@) {
                None => r matches Err(TabClientError::UnknownMonitor(m)) && m@ == monitor_id@
                    && final(self).rows() == old(self).rows(),
                Some(row) => match row.queue@.drawing {
                    Some(index) => r == Ok::<usize, TabClientError>(index),
                    None => r matches Err(TabClientError::NoFreeBuffers(m)) && m@ == monitor_id@,
                },
            },
    {
        let mut row = match self.rows.take(monitor_id) {
            Some(row) => row,
            None => {
                proof {
                    crate::table::lemma_position_found(old(self).rows@, monitor_id@);
                }
                return Err(TabClientError::UnknownMonitor(monitor_id.clone()));
            },
        };
        let r = match row.queue.begin_swap() {
            Some(index) => Ok(index),
            None => Err(TabClientError::NoFreeBuffers(monitor_id.clone())),
        };
        self.rows.put(row);
        r
    }

    /// Handles a message of the compositor while the client runs, and says
    /// what the application is to be told.
    ///
    /// A released buffer frees the buffer of the monitor that was on its
    /// way.  A monitor that was added is reported; its output is made by
    /// the caller, who has the GPU.  A monitor that was removed loses its
    /// output.  An error is kept as the last error.
    pub fn handle_event_message(&mut self, msg: TabMessage) -> (r: Vec<TabEvent>)
        ensures
            match msg {
                TabMessage::BufferRelease(p) => final(self).spec_last_error() == old(self).spec_last_error() && (match old(self).output(p.monitor_id@) {
                    Some(row) if row.queue@.in_flight is Some => r@ == seq![
                        TabEvent::FrameDone { monitor_id: p.monitor_id },
                    ],
                    _ => r@ == Seq::<TabEvent>::empty(),
                }),
                TabMessage::MonitorAdded(p) => r@ == seq![TabEvent::MonitorAdded(p.monitor)]
                    && final(self).rows() == old(self).rows() && final(self).spec_last_error()
                    == old(self).spec_last_error(),
                TabMessage::MonitorRemoved(p) => r@ == seq![TabEvent::MonitorRemoved(p.monitor_id)]
                    && final(self).rows() == crate::table::without(
                    old(self).rows(),
                    p.monitor_id@,
                ) && final(self).spec_last_error() == old(self).spec_last_error(),
                TabMessage::SessionState(p) => r@ == seq![TabEvent::SessionState(p.session)]
                    && final(self).rows() == old(self).rows() && final(self).spec_last_error()
                    == old(self).spec_last_error(),
                TabMessage::Error(p) => r@ == Seq::<TabEvent>::empty() && final(self).rows() == old(self).rows() && final(self).spec_last_error() == Some(
                    match p.message {
                        Some(m) => m,
                        None => p.code,
                    },
                ),
                _ => r@ == Seq::<TabEvent>::empty() && final(self).rows() == old(self).rows()
                    && final(self).spec_last_error() == old(self).spec_last_error(),
            },
    {
        let mut events: Vec<TabEvent> = Vec::new();
        match msg {
            TabMessage::BufferRelease(p) => {
                match self.rows.take(&p.monitor_id) {
                    Some(mut row) => {
                        let done = row.queue.complete_frame();
                        self.rows.put(row);
                        if done {
                            events.push(TabEvent::FrameDone { monitor_id: p.monitor_id });
                        }
                    },
                    None => {
                        proof {
                            crate::table::lemma_position_found(old(self).rows@, p.monitor_id@);
                        }
                    },
                }
            },
            TabMessage::MonitorAdded(p) => {
                events.push(TabEvent::MonitorAdded(p.monitor));
            },
            TabMessage::MonitorRemoved(p) => {
                self.rows.take(&p.monitor_id);
                events.push(TabEvent::MonitorRemoved(p.monitor_id));
            },
            TabMessage::SessionState(p) => {
                events.push(TabEvent::SessionState(p.session));
            },
            TabMessage::Error(p) => {
                self.last_error = Some(
                    match p.message {
                        Some(m) => m,
                        None => p.code,
                    },
                );
            },
            _ => {},
        }
        events
    }
}

/// The render nodes to try, in order: the configured one where there is
/// one, else the one that the environment names, else the first eight
/// render nodes.
pub fn render_node_candidates(configured: Option<&str>, from_environment: Option<&str>) -> (r: Vec<
    String,
>)
    ensures
        match (configured, from_environment) {
            (Some(path), _) => r@.len() == 1 && r@[0]@ == path@,
            (None, Some(path)) => r@.len() == 1 && r@[0]@ == path@,
            (None, None) => r@.len() == 8 && r@[0]@ == "/dev/dri/renderD128"@ && r@[1]@
                == "/dev/dri/renderD129"@ && r@[2]@ == "/dev/dri/renderD130"@ && r@[3]@
                == "/dev/dri/renderD131"@ && r@[4]@ == "/dev/dri/renderD132"@ && r@[5]@
                == "/dev/dri/renderD133"@ && r@[6]@ == "/dev/dri/renderD134"@ && r@[7]@
                == "/dev/dri/renderD135"@,
        },
{
    let mut out: Vec<String> = Vec::new();
    match (configured, from_environment) {
        (Some(path), _) => {
            out.push(path.to_owned());
        },
        (None, Some(path)) => {
            out.push(path.to_owned());
        },
        (None, None) => {
            out.push("/dev/dri/renderD128".to_owned());
            out.push("/dev/dri/renderD129".to_owned());
            out.push("/dev/dri/renderD130".to_owned());
            out.push("/dev/dri/renderD131".to_owned());
            out.push("/dev/dri/renderD132".to_owned());
            out.push("/dev/dri/renderD133".to_owned());
            out.push("/dev/dri/renderD134".to_owned());
            out.push("/dev/dri/renderD135".to_owned());
        },
    }
    out
}

/// What the application is told when a buffer came back.
pub fn buffer_released(monitor_id: String, buffer: BufferIndex) -> (r: RenderEvent)
    ensures
        r == (RenderEvent::BufferReleased { monitor_id, buffer }),
{
    RenderEvent::BufferReleased { monitor_id, buffer }
}

/// What the application is told when a monitor came.
pub fn monitor_added(info: MonitorInfo) -> (r: MonitorEvent)
    ensures
        r == MonitorEvent::Added(MonitorState { info }),
{
    MonitorEvent::Added(MonitorState::new(info))
}

} // verus!
