//! The bookkeeping of the render loop.
//!
//! The render loop owns the display hardware and the textures; this module
//! holds what it knows and decides: which monitors there are, which slots
//! have a texture, which slot of each session is drawn on each monitor,
//! and which slots wait for their fence.  The caller imports, draws and
//! waits; it carries out the actions and reports what came of them.

use crate::comms::{RejectReason, RenderCmd, RenderEvt};
use crate::ids::{id_value, MonitorId, SessionId};
use crate::ledger::{drop_slot, drop_slots, holds_slot, slot_differs, slot_outside, Scope, SlotRef};
use crate::monitor::Monitor;
use crate::protocol::{BufferIndex, FramebufferLinkPayload};
use crate::seqs::{lemma_filter_ends, lemma_filter_next};
use crate::table::{lookup, position, put, Keyed, Table};
use vstd::prelude::*;

verus! {

/// A slot of a pair of buffers, as the render loop counts them.
#[derive(Clone, Copy, Debug, PartialEq, Eq, Hash, Structural)]
pub enum BufferSlot {
    Zero,
    One,
}

impl BufferSlot {
    /// The slot at position `idx` of a pair.
    pub fn from_index(idx: usize) -> (r: Option<BufferSlot>)
        ensures
            r == if idx == 0 {
                Some(BufferSlot::Zero)
            } else if idx == 1 {
                Some(BufferSlot::One)
            } else {
                None
            },
    {
        match idx {
            0 => Some(BufferSlot::Zero),
            1 => Some(BufferSlot::One),
            _ => None,
        }
    }

    /// The slot as the wire names it.
    pub open spec fn index(self) -> BufferIndex {
        match self {
            BufferSlot::Zero => BufferIndex::Zero,
            BufferSlot::One => BufferIndex::One,
        }
    }

    /// The slot as the wire names it.
    pub fn to_index(self) -> (r: BufferIndex)
        ensures
            r == self.index(),
    {
        match self {
            BufferSlot::Zero => BufferIndex::Zero,
            BufferSlot::One => BufferIndex::One,
        }
    }

    /// The slot that the wire names.
    pub fn of_index(value: BufferIndex) -> (r: BufferSlot)
        ensures
            r.index() == value,
    {
        match value {
            BufferIndex::Zero => BufferSlot::Zero,
            BufferIndex::One => BufferSlot::One,
        }
    }
}

/// The key of a texture: one slot of one session on one monitor.
#[derive(Clone, Copy, Debug, PartialEq, Eq, Hash, Structural)]
pub struct SlotKey {
    pub monitor_id: MonitorId,
    pub session_id: SessionId,
    pub buffer: BufferSlot,
}

impl SlotKey {
    pub fn new(monitor_id: MonitorId, session_id: SessionId, buffer: BufferSlot) -> (r: SlotKey)
        ensures
            r == (SlotKey { monitor_id, session_id, buffer }),
    {
        SlotKey { monitor_id, session_id, buffer }
    }

    /// The slot that the key names.
    pub open spec fn slot(self) -> SlotRef {
        SlotRef {
            session_id: self.session_id,
            monitor_id: self.monitor_id,
            buffer: self.buffer.index(),
        }
    }

    /// The slot that the key names.
    pub fn to_slot(self) -> (r: SlotRef)
        ensures
            r == self.slot(),
    {
        SlotRef {
            session_id: self.session_id,
            monitor_id: self.monitor_id,
            buffer: self.buffer.to_index(),
        }
    }
}

/// What is drawn for a session on a monitor.
#[derive(Clone, Copy, Debug, PartialEq, Eq, Structural)]
pub struct MonitorSurfaceState {
    /// The slot that is drawn.
    pub current_buffer: Option<BufferIndex>,
    /// The slot that is drawn once its fence has signalled.
    pub pending_buffer: Option<BufferIndex>,
}

/// The surface state of one session on one monitor.
#[derive(Clone, Copy, Debug, PartialEq, Eq, Structural)]
pub struct SurfaceEntry {
    pub monitor_id: MonitorId,
    pub session_id: SessionId,
    pub state: MonitorSurfaceState,
}

impl Keyed for SurfaceEntry {
    type Key = (MonitorId, SessionId);

    type Name = (MonitorId, SessionId);

    open spec fn name_of(key: &(MonitorId, SessionId)) -> (MonitorId, SessionId) {
        *key
    }

    open spec fn key(&self) -> (MonitorId, SessionId) {
        (self.monitor_id, self.session_id)
    }

    fn id(&self) -> (r: (MonitorId, SessionId)) {
        (self.monitor_id, self.session_id)
    }

    fn has_key(&self, key: &(MonitorId, SessionId)) -> (r: bool) {
        self.monitor_id == key.0 && self.session_id == key.1
    }
}

/// What a fence waiter reports.
#[derive(Debug, Clone, PartialEq, Eq)]
pub enum FenceEvent {
    /// The fence signalled.
    Signaled { key: SlotRef },
    /// Waiting failed; the text says how.
    Failed { key: SlotRef, reason: String },
}

impl FenceEvent {
    /// The slot that the fence guards.
    pub open spec fn key(self) -> SlotRef {
        match self {
            FenceEvent::Signaled { key } => key,
            FenceEvent::Failed { key, reason } => key,
        }
    }
}

/// Something for the render loop to carry out.
#[derive(Debug, Clone, PartialEq, Eq)]
pub enum RenderAction {
    /// Hand the event to the control plane.
    Emit(RenderEvt),
    /// Import the DMA-BUF as the texture of the slot, and report success
    /// with [`RenderState::texture_imported`]; close the descriptor
    /// otherwise.
    Import { key: SlotRef, payload: FramebufferLinkPayload, fd: i32 },
    /// Close a file descriptor that goes nowhere.
    Close(i32),
    /// Wait for the fence of the slot, in the place of any earlier waiter
    /// for the slot.
    WaitFence { key: SlotRef, fd: i32 },
    /// Stop waiting for the fence of the slot.
    AbortFence(SlotRef),
    /// Free the textures of a session and stop waiting for its fences.
    ForgetSession(SessionId),
    /// Free the textures of a monitor and stop waiting for its fences.
    ForgetMonitor(MonitorId),
}

/// Surface states that do not fall under `scope`.
pub open spec fn surface_outside(scope: Scope) -> spec_fn(SurfaceEntry) -> bool {
    |e: SurfaceEntry| !scope.covers(e.session_id, e.monitor_id)
}

/// What the render loop knows, as mathematical data.
pub struct RenderView {
    pub known_monitors: Seq<Monitor>,
    pub monitor_state: Seq<SurfaceEntry>,
    /// The slots that have a texture.
    pub slots: Seq<SlotRef>,
    /// The slots whose fence is waited for.
    pub fence_waiters: Seq<SlotRef>,
    pub current_session: Option<SessionId>,
}

/// The outcome of one event.
pub struct RenderStep {
    pub state: RenderView,
    pub actions: Seq<RenderAction>,
    /// Whether the render loop goes on.
    pub go_on: bool,
}

/// `list` with `k` in it once.
pub open spec fn with_slot(list: Seq<SlotRef>, k: SlotRef) -> Seq<SlotRef> {
    if list.contains(k) {
        list
    } else {
        list.push(k)
    }
}

impl RenderView {
    /// What a render loop knows that has seen nothing yet.
    pub open spec fn initial() -> RenderView {
        RenderView {
            known_monitors: Seq::empty(),
            monitor_state: Seq::empty(),
            slots: Seq::empty(),
            fence_waiters: Seq::empty(),
            current_session: None,
        }
    }

    /// The state stays, the actions are carried out, the loop goes on.
    pub open spec fn only(self, actions: Seq<RenderAction>) -> RenderStep {
        RenderStep { state: self, actions, go_on: true }
    }

    /// The surface state of a session on a monitor; nothing drawn and
    /// nothing pending where none was noted yet.
    pub open spec fn surface(self, monitor_id: MonitorId, session_id: SessionId) -> MonitorSurfaceState {
        match lookup(self.monitor_state, (monitor_id, session_id)) {
            Some(e) => e.state,
            None => MonitorSurfaceState { current_buffer: None, pending_buffer: None },
        }
    }

    /// The slot whose texture is drawn on the monitor: the current slot of
    /// the shown session, where it has a texture.
    pub open spec fn drawn(self, monitor_id: MonitorId) -> Option<SlotRef> {
        match self.current_session {
            None => None,
            Some(session_id) => match lookup(self.monitor_state, (monitor_id, session_id)) {
                None => None,
                Some(e) => match e.state.current_buffer {
                    None => None,
                    Some(buffer) => {
                        let key = SlotRef { session_id, monitor_id, buffer };
                        if self.slots.contains(key) {
                            Some(key)
                        } else {
                            None
                        }
                    },
                },
            },
        }
    }

    /// Everything of a session is forgotten.
    pub open spec fn without_session(self, session_id: SessionId) -> RenderView {
        let scope = Scope::Session(session_id);
        RenderView {
            slots: self.slots.filter(slot_outside(scope)),
            monitor_state: self.monitor_state.filter(surface_outside(scope)),
            fence_waiters: self.fence_waiters.filter(slot_outside(scope)),
            current_session: if self.current_session == Some(session_id) {
                None
            } else {
                self.current_session
            },
            ..self
        }
    }

    /// Everything of a monitor is forgotten.
    pub open spec fn without_monitor(self, monitor_id: MonitorId) -> RenderView {
        let scope = Scope::Monitor(monitor_id);
        RenderView {
            slots: self.slots.filter(slot_outside(scope)),
            monitor_state: self.monitor_state.filter(surface_outside(scope)),
            fence_waiters: self.fence_waiters.filter(slot_outside(scope)),
            ..self
        }
    }

    /// A client linked its two buffers.
    pub open spec fn framebuffer_link(
        self,
        payload: FramebufferLinkPayload,
        dma_bufs: [i32; 2],
        session_id: SessionId,
    ) -> RenderStep {
        match id_value("mon_"@, payload.monitor_id@) {
            None => self.only(
                seq![RenderAction::Close(dma_bufs@[0]), RenderAction::Close(dma_bufs@[1])],
            ),
            Some(m) => self.only(
                seq![
                    RenderAction::Import {
                        key: SlotRef {
                            session_id,
                            monitor_id: MonitorId(m),
                            buffer: BufferIndex::Zero,
                        },
                        payload,
                        fd: dma_bufs@[0],
                    },
                    RenderAction::Import {
                        key: SlotRef {
                            session_id,
                            monitor_id: MonitorId(m),
                            buffer: BufferIndex::One,
                        },
                        payload,
                        fd: dma_bufs@[1],
                    },
                ],
            ),
        }
    }

    /// The texture of a slot was imported.
    pub open spec fn imported(self, key: SlotRef) -> RenderView {
        RenderView { slots: with_slot(self.slots, key), ..self }
    }

    /// The control plane asks for a slot to be presented.
    ///
    /// A request for a monitor that is not known or for a slot without
    /// texture is turned down.  Otherwise the request is accepted: without
    /// a fence the slot is drawn from now on; with a fence it is pending,
    /// and what was drawn stays drawn until the fence has signalled.
    pub open spec fn swap_buffers(
        self,
        monitor_id: MonitorId,
        buffer: BufferIndex,
        session_id: SessionId,
        fence: Option<i32>,
    ) -> RenderStep {
        let key = SlotRef { session_id, monitor_id, buffer };
        let monitor_known = position(self.known_monitors, monitor_id) is Some;
        if !monitor_known || !self.slots.contains(key) {
            self.only(
                seq![
                    RenderAction::Emit(
                        RenderEvt::BufferRequestRejected {
                            session_id,
                            monitor_id,
                            buffer,
                            reason: if !monitor_known {
                                RejectReason::UnknownMonitor
                            } else {
                                RejectReason::UnlinkedBuffer
                            },
                        },
                    ),
                ] + (match fence {
                    Some(fd) => seq![RenderAction::Close(fd)],
                    None => Seq::empty(),
                }),
            )
        } else {
            let ack = RenderAction::Emit(
                RenderEvt::BufferRequestAck { session_id, monitor_id, buffer },
            );
            let before = self.surface(monitor_id, session_id);
            match fence {
                Some(fd) => RenderStep {
                    state: RenderView {
                        fence_waiters: with_slot(self.fence_waiters, key),
                        monitor_state: put(
                            self.monitor_state,
                            SurfaceEntry {
                                monitor_id,
                                session_id,
                                state: MonitorSurfaceState {
                                    pending_buffer: Some(buffer),
                                    ..before
                                },
                            },
                        ),
                        ..self
                    },
                    actions: seq![RenderAction::WaitFence { key, fd }, ack],
                    go_on: true,
                },
                None => RenderStep {
                    state: RenderView {
                        fence_waiters: self.fence_waiters.filter(slot_differs(key)),
                        monitor_state: put(
                            self.monitor_state,
                            SurfaceEntry {
                                monitor_id,
                                session_id,
                                state: MonitorSurfaceState {
                                    current_buffer: Some(buffer),
                                    pending_buffer: None,
                                },
                            },
                        ),
                        ..self
                    },
                    actions: if self.fence_waiters.contains(key) {
                        seq![RenderAction::AbortFence(key), ack]
                    } else {
                        seq![ack]
                    },
                    go_on: true,
                },
            }
        }
    }

    /// A command of the control plane.
    pub open spec fn command(self, cmd: RenderCmd) -> RenderStep {
        match cmd {
            RenderCmd::Shutdown => RenderStep { state: self, actions: Seq::empty(), go_on: false },
            RenderCmd::FramebufferLink { payload, dma_bufs, session_id } => self.framebuffer_link(
                payload,
                dma_bufs,
                session_id,
            ),
            RenderCmd::SetActiveSession { session_id } => (RenderView {
                current_session: session_id,
                ..self
            }).only(Seq::empty()),
            RenderCmd::SessionRemoved { session_id } => self.without_session(session_id).only(
                seq![RenderAction::ForgetSession(session_id)],
            ),
            RenderCmd::SwapBuffers {
                monitor_id,
                buffer,
                session_id,
                acquire_fence,
            } => self.swap_buffers(monitor_id, buffer, session_id, acquire_fence),
        }
    }

    /// A fence waiter reports.  Whether the fence signalled or waiting
    /// failed, the slot is drawn from now on where it is still the pending
    /// one: a broken fence must not stall the session.
    pub open spec fn fence(self, key: SlotRef) -> RenderView {
        let waiters = self.fence_waiters.filter(slot_differs(key));
        match lookup(self.monitor_state, (key.monitor_id, key.session_id)) {
            Some(e) if e.state.pending_buffer == Some(key.buffer) => RenderView {
                fence_waiters: waiters,
                monitor_state: put(
                    self.monitor_state,
                    SurfaceEntry {
                        state: MonitorSurfaceState {
                            current_buffer: Some(key.buffer),
                            pending_buffer: None,
                        },
                        ..e
                    },
                ),
                ..self
            },
            _ => RenderView { fence_waiters: waiters, ..self },
        }
    }
}

/// The monitors of `now` that `known` does not hold, as events.
pub open spec fn came_online(known: Seq<Monitor>, now: Seq<Monitor>) -> Seq<RenderAction>
    decreases now.len(),
{
    if now.len() == 0 {
        Seq::empty()
    } else {
        let rest = came_online(known, now.drop_last());
        if position(known, now.last().id) is None {
            rest.push(RenderAction::Emit(RenderEvt::MonitorOnline { monitor: now.last() }))
        } else {
            rest
        }
    }
}

/// The state after the monitors of `known` that `now` does not hold went
/// away one after the other, and the events and actions that say so.
pub open spec fn went_offline(view: RenderView, known: Seq<Monitor>, now: Seq<Monitor>) -> (
    RenderView,
    Seq<RenderAction>,
)
    decreases known.len(),
{
    if known.len() == 0 {
        (view, Seq::empty())
    } else {
        let (before, actions) = went_offline(view, known.drop_last(), now);
        let id = known.last().id;
        if position(now, id) is None {
            (
                before.without_monitor(id),
                actions.push(RenderAction::Emit(RenderEvt::MonitorOffline { monitor_id: id })).push(
                    RenderAction::ForgetMonitor(id),
                ),
            )
        } else {
            (before, actions)
        }
    }
}

/// Drops from `list` every surface state under `scope`.
fn drop_surfaces(list: &mut Vec<SurfaceEntry>, scope: Scope)
    ensures
        final(list)@ == old(list)@.filter(surface_outside(scope)),
{
    let mut kept: Vec<SurfaceEntry> = Vec::new();
    let mut i: usize = 0;
    proof {
        lemma_filter_ends(list@, surface_outside(scope));
    }
    while i < list.len()
        invariant
            i <= list.len(),
            kept@ == list@.take(i as int).filter(surface_outside(scope)),
        decreases list.len() - i,
    {
        let e = list[i];
        proof {
            lemma_filter_next(list@, surface_outside(scope), i as int);
        }
        if !scope.includes(e.session_id, e.monitor_id) {
            kept.push(e);
        }
        i += 1;
    }
    proof {
        lemma_filter_ends(list@, surface_outside(scope));
    }
    *list = kept;
}

/// The bookkeeping of the render loop.
pub struct RenderState {
    known_monitors: Table<Monitor>,
    monitor_state: Table<SurfaceEntry>,
    slots: Vec<SlotRef>,
    fence_waiters: Vec<SlotRef>,
    current_session: Option<SessionId>,
}

impl View for RenderState {
    type V = RenderView;

    closed spec fn view(&self) -> RenderView {
        RenderView {
            known_monitors: self.known_monitors@,
            monitor_state: self.monitor_state@,
            slots: self.slots@,
            fence_waiters: self.fence_waiters@,
            current_session: self.current_session,
        }
    }
}

impl RenderState {
    /// A render loop that has seen nothing yet.
    pub fn new() -> (r: RenderState)
        ensures
            r@ == RenderView::initial(),
    {
        RenderState {
            known_monitors: Table::new(),
            monitor_state: Table::new(),
            slots: Vec::new(),
            fence_waiters: Vec::new(),
            current_session: None,
        }
    }

    /// The session that is shown.
    pub fn current_session(&self) -> (r: Option<SessionId>)
        ensures
            r == self@.current_session,
    {
        self.current_session
    }

    /// The monitors as of the last look at the hardware.
    pub fn known_monitors(&self) -> (r: &Vec<Monitor>)
        ensures
            r@ == self@.known_monitors,
    {
        self.known_monitors.rows()
    }

    /// Whether the slot has a texture.
    pub fn has_texture(&self, key: SlotRef) -> (r: bool)
        ensures
            r == self@.slots.contains(key),
    {
        holds_slot(&self.slots, key)
    }

    /// Whether the fence of the slot is waited for.
    pub fn awaits_fence(&self, key: SlotRef) -> (r: bool)
        ensures
            r == self@.fence_waiters.contains(key),
    {
        holds_slot(&self.fence_waiters, key)
    }

    /// The surface state of a session on a monitor.
    pub fn surface(&self, monitor_id: MonitorId, session_id: SessionId) -> (r: MonitorSurfaceState)
        ensures
            r == self@.surface(monitor_id, session_id),
    {
        match self.monitor_state.get(&(monitor_id, session_id)) {
            Some(e) => e.state,
            None => MonitorSurfaceState { current_buffer: None, pending_buffer: None },
        }
    }

    /// The slot whose texture is to be drawn on the monitor.
    pub fn texture_for_monitor(&self, monitor_id: MonitorId) -> (r: Option<SlotRef>)
        ensures
            r == self@.drawn(monitor_id),
    {
        let session_id = match self.current_session {
            Some(session_id) => session_id,
            None => {
                return None;
            },
        };
        let state = match self.monitor_state.get(&(monitor_id, session_id)) {
            Some(e) => e.state,
            None => {
                return None;
            },
        };
        let buffer = match state.current_buffer {
            Some(buffer) => buffer,
            None => {
                return None;
            },
        };
        let key = SlotRef { session_id, monitor_id, buffer };
        if holds_slot(&self.slots, key) {
            Some(key)
        } else {
            None
        }
    }

    /// Notes that the texture of a slot was imported.
    pub fn texture_imported(&mut self, key: SlotRef)
        ensures
            final(self)@ == old(self)@.imported(key),
    {
        if !holds_slot(&self.slots, key) {
            self.slots.push(key);
        }
    }

    /// Forgets everything of a session.
    fn cleanup_session_slots(&mut self, session_id: SessionId)
        ensures
            final(self)@ == old(self)@.without_session(session_id),
    {
        let scope = Scope::Session(session_id);
        drop_slots(&mut self.slots, scope);
        let mut surfaces = self.take_surfaces();
        drop_surfaces(&mut surfaces, scope);
        self.monitor_state = Table::from_rows(surfaces);
        drop_slots(&mut self.fence_waiters, scope);
        if self.current_session == Some(session_id) {
            self.current_session = None;
        }
    }

    /// Forgets everything of a monitor.
    fn cleanup_monitor_slots(&mut self, monitor_id: MonitorId)
        ensures
            final(self)@ == old(self)@.without_monitor(monitor_id),
    {
        let scope = Scope::Monitor(monitor_id);
        drop_slots(&mut self.slots, scope);
        let mut surfaces = self.take_surfaces();
        drop_surfaces(&mut surfaces, scope);
        self.monitor_state = Table::from_rows(surfaces);
        drop_slots(&mut self.fence_waiters, scope);
    }

    /// The surface states, taken out of the table.
    fn take_surfaces(&mut self) -> (r: Vec<SurfaceEntry>)
        ensures
            r@ == old(self)@.monitor_state,
            final(self)@ == (RenderView { monitor_state: Seq::empty(), ..old(self)@ }),
    {
        let mut table: Table<SurfaceEntry> = Table::new();
        std::mem::swap(&mut table, &mut self.monitor_state);
        table.into_rows()
    }

    /// Handles a command of the control plane.  The second part of the
    /// result says whether the render loop goes on.
    pub fn handle_command(&mut self, cmd: RenderCmd) -> (r: (Vec<RenderAction>, bool))
        ensures
            final(self)@ == old(self)@.command(cmd).state,
            r.0@ == old(self)@.command(cmd).actions,
            r.1 == old(self)@.command(cmd).go_on,
    {
        let mut actions: Vec<RenderAction> = Vec::new();
        match cmd {
            RenderCmd::Shutdown => {
                return (actions, false);
            },
            RenderCmd::FramebufferLink { payload, dma_bufs, session_id } => {
                proof {
                    reveal_strlit("mon_");
                }
                match MonitorId::parse(payload.monitor_id.as_str()) {
                    Err(_) => {
                        actions.push(RenderAction::Close(dma_bufs[0]));
                        actions.push(RenderAction::Close(dma_bufs[1]));
                    },
                    Ok(monitor_id) => {
                        let second = crate::render::copy_layout(&payload);
                        actions.push(
                            RenderAction::Import {
                                key: SlotRef { session_id, monitor_id, buffer: BufferIndex::Zero },
                                payload,
                                fd: dma_bufs[0],
                            },
                        );
                        actions.push(
                            RenderAction::Import {
                                key: SlotRef { session_id, monitor_id, buffer: BufferIndex::One },
                                payload: second,
                                fd: dma_bufs[1],
                            },
                        );
                    },
                }
            },
            RenderCmd::SetActiveSession { session_id } => {
                self.current_session = session_id;
            },
            RenderCmd::SessionRemoved { session_id } => {
                self.cleanup_session_slots(session_id);
                actions.push(RenderAction::ForgetSession(session_id));
            },
            RenderCmd::SwapBuffers { monitor_id, buffer, session_id, acquire_fence } => {
                let key = SlotRef { session_id, monitor_id, buffer };
                let monitor_known = self.known_monitors.find(&monitor_id).is_some();
                let slot_known = holds_slot(&self.slots, key);
                if !monitor_known || !slot_known {
                    let reason = if !monitor_known {
                        RejectReason::UnknownMonitor
                    } else {
                        RejectReason::UnlinkedBuffer
                    };
                    actions.push(
                        RenderAction::Emit(
                            RenderEvt::BufferRequestRejected {
                                session_id,
                                monitor_id,
                                buffer,
                                reason,
                            },
                        ),
                    );
                    match acquire_fence {
                        Some(fd) => {
                            actions.push(RenderAction::Close(fd));
                        },
                        None => {},
                    }
                } else {
                    let before = self.surface(monitor_id, session_id);
                    match acquire_fence {
                        Some(fd) => {
                            if !holds_slot(&self.fence_waiters, key) {
                                self.fence_waiters.push(key);
                            }
                            self.monitor_state.put(
                                SurfaceEntry {
                                    monitor_id,
                                    session_id,
                                    state: MonitorSurfaceState {
                                        current_buffer: before.current_buffer,
                                        pending_buffer: Some(buffer),
                                    },
                                },
                            );
                            actions.push(RenderAction::WaitFence { key, fd });
                        },
                        None => {
                            if holds_slot(&self.fence_waiters, key) {
                                actions.push(RenderAction::AbortFence(key));
                            }
                            drop_slot(&mut self.fence_waiters, key);
                            self.monitor_state.put(
                                SurfaceEntry {
                                    monitor_id,
                                    session_id,
                                    state: MonitorSurfaceState {
                                        current_buffer: Some(buffer),
                                        pending_buffer: None,
                                    },
                                },
                            );
                        },
                    }
                    actions.push(
                        RenderAction::Emit(
                            RenderEvt::BufferRequestAck { session_id, monitor_id, buffer },
                        ),
                    );
                }
            },
        }
        proof {
            assert(actions@ =~= old(self)@.command(cmd).actions);
        }
        (actions, true)
    }

    /// Handles the report of a fence waiter.
    pub fn handle_fence_event(&mut self, event: FenceEvent)
        ensures
            final(self)@ == old(self)@.fence(event.key()),
    {
        let key = match event {
            FenceEvent::Signaled { key } => key,
            FenceEvent::Failed { key, reason } => key,
        };
        drop_slot(&mut self.fence_waiters, key);
        let entry = match self.monitor_state.get(&(key.monitor_id, key.session_id)) {
            Some(e) => *e,
            None => {
                return ;
            },
        };
        match entry.state.pending_buffer {
            Some(pending) => {
                if pending == key.buffer {
                    self.monitor_state.put(
                        SurfaceEntry {
                            monitor_id: entry.monitor_id,
                            session_id: entry.session_id,
                            state: MonitorSurfaceState {
                                current_buffer: Some(key.buffer),
                                pending_buffer: None,
                            },
                        },
                    );
                }
            },
            None => {},
        }
    }

    /// Takes note of the monitors that are there when the loop starts, and
    /// tells the control plane.
    pub fn start(&mut self, monitors: Vec<Monitor>) -> (r: RenderEvt)
        ensures
            final(self)@ == (RenderView {
                known_monitors: crate::server::model::put_all(Seq::empty(), monitors@),
                ..old(self)@
            }),
            r == (RenderEvt::Started { monitors }),
    {
        self.known_monitors.clear();
        let mut i: usize = 0;
        proof {
            assert(monitors@.take(0) =~= Seq::<Monitor>::empty());
        }
        while i < monitors.len()
            invariant
                i <= monitors.len(),
                self@ == (RenderView {
                    known_monitors: crate::server::model::put_all(
                        Seq::empty(),
                        monitors@.take(i as int),
                    ),
                    ..old(self)@
                }),
            decreases monitors.len() - i,
        {
            proof {
                assert(monitors@.take(i + 1).drop_last() =~= monitors@.take(i as int));
            }
            self.known_monitors.put(monitors[i].duplicate());
            i += 1;
        }
        proof {
            assert(monitors@.take(monitors.len() as int) =~= monitors@);
        }
        RenderEvt::Started { monitors }
    }

    /// Compares the monitors that are there now with the known ones: a
    /// monitor that was not known comes online, a known monitor that is
    /// there no more goes offline and everything of it is forgotten.
    pub fn sync_monitors(&mut self, current_list: Vec<Monitor>) -> (r: Vec<RenderAction>)
        ensures
            ({
                let known = old(self)@.known_monitors;
                let online = came_online(known, current_list@);
                let (view, offline) = went_offline(old(self)@, known, current_list@);
                &&& r@ == online + offline
                &&& final(self)@ == (RenderView {
                    known_monitors: crate::server::model::put_all(Seq::empty(), current_list@),
                    ..view
                })
            }),
    {
        let mut actions: Vec<RenderAction> = Vec::new();
        let mut now: Table<Monitor> = Table::new();
        let mut i: usize = 0;
        proof {
            assert(current_list@.take(0) =~= Seq::<Monitor>::empty());
        }
        while i < current_list.len()
            invariant
                i <= current_list.len(),
                self@ == old(self)@,
                actions@ == came_online(old(self)@.known_monitors, current_list@.take(i as int)),
                now@ == crate::server::model::put_all(Seq::empty(), current_list@.take(i as int)),
            decreases current_list.len() - i,
        {
            proof {
                assert(current_list@.take(i + 1).drop_last() =~= current_list@.take(i as int));
            }
            if self.known_monitors.find(&current_list[i].id).is_none() {
                actions.push(
                    RenderAction::Emit(
                        RenderEvt::MonitorOnline { monitor: current_list[i].duplicate() },
                    ),
                );
            }
            now.put(current_list[i].duplicate());
            i += 1;
        }
        proof {
            assert(current_list@.take(current_list.len() as int) =~= current_list@);
        }
        let mut known: Table<Monitor> = Table::new();
        std::mem::swap(&mut known, &mut self.known_monitors);
        let ghost online = actions@;
        let ghost start = old(self)@;
        let mut j: usize = 0;
        proof {
            assert(known@.take(0) =~= Seq::<Monitor>::empty());
            assert(actions@ =~= online + Seq::<RenderAction>::empty());
        }
        while j < known.len()
            invariant
                j <= known@.len(),
                known@ == start.known_monitors,
                now@ == crate::server::model::put_all(Seq::empty(), current_list@),
                ({
                    let (view, offline) = went_offline(start, known@.take(j as int), current_list@);
                    &&& actions@ == online + offline
                    &&& self@ == (RenderView { known_monitors: Seq::empty(), ..view })
                }),
            decreases known@.len() - j,
        {
            proof {
                assert(known@.take(j + 1).drop_last() =~= known@.take(j as int));
                lemma_sync_position(current_list@, known@[j as int].id);
            }
            let id = known.row(j).id;
            if now.find(&id).is_none() {
                self.cleanup_monitor_slots(id);
                actions.push(RenderAction::Emit(RenderEvt::MonitorOffline { monitor_id: id }));
                actions.push(RenderAction::ForgetMonitor(id));
            }
            proof {
                let (view, offline) = went_offline(start, known@.take(j + 1), current_list@);
                assert(actions@ =~= online + offline);
            }
            j += 1;
        }
        proof {
            assert(known@.take(known@.len() as int) =~= known@);
        }
        self.known_monitors = now;
        actions
    }
}

/// A monitor is among the listed ones exactly if it is among them once
/// they were put into a table one after the other.
pub proof fn lemma_sync_position(list: Seq<Monitor>, id: MonitorId)
    ensures
        position(crate::server::model::put_all(Seq::empty(), list), id) is None <==> position(
            list,
            id,
        ) is None,
    decreases list.len(),
{
    let table = crate::server::model::put_all(Seq::<Monitor>::empty(), list);
    crate::table::lemma_position_found(list, id);
    crate::table::lemma_position_found(table, id);
    if list.len() > 0 {
        let before = crate::server::model::put_all(Seq::<Monitor>::empty(), list.drop_last());
        lemma_sync_position(list.drop_last(), id);
        crate::table::lemma_position_found(list.drop_last(), id);
        crate::table::lemma_position_found(before, id);
        crate::table::lemma_position_found(before, list.last().id);
        if position(list, id) is None {
            assert forall|j: int| 0 <= j < list.drop_last().len() implies (
            #[trigger] list.drop_last()[j]).id != id by {
                assert(list.drop_last()[j] == list[j]);
            }
            crate::table::lemma_absent(list.drop_last(), id);
            assert(list.last().id != id) by {
                assert(list[list.len() - 1].id != id);
            }
            assert forall|j: int| 0 <= j < table.len() implies (#[trigger] table[j]).id != id by {
                match position(before, list.last().id) {
                    Some(f) => {
                        if j != f {
                            assert(table[j] == before[j]);
                        }
                    },
                    None => {
                        if j < before.len() {
                            assert(table[j] == before[j]);
                        }
                    },
                }
            }
            crate::table::lemma_absent(table, id);
        } else {
            let p = position(list, id)->0;
            if p < list.len() - 1 {
                assert(list.drop_last()[p] == list[p]);
                if position(list.drop_last(), id) is None {
                    assert(list.drop_last()[p].id != id);
                }
                let q = position(before, id)->0;
                match position(before, list.last().id) {
                    Some(f) => {
                        if q == f {
                            assert(table[q].id == id);
                        } else {
                            assert(table[q] == before[q]);
                        }
                    },
                    None => {
                        assert(table[q] == before[q]);
                    },
                }
                if position(table, id) is None {
                    assert(table[q].id != id);
                }
            } else {
                crate::table::lemma_put_lookup(before, list.last());
            }
        }
    }
}

/// A copy of the layout of a pair of buffers.
pub fn copy_layout(payload: &FramebufferLinkPayload) -> (r: FramebufferLinkPayload)
    ensures
        r == *payload,
{
    FramebufferLinkPayload {
        monitor_id: payload.monitor_id.clone(),
        width: payload.width,
        height: payload.height,
        stride: payload.stride,
        offset: payload.offset,
        fourcc: payload.fourcc,
    }
}

/// The file descriptors that an action takes over.
pub open spec fn action_fds(a: RenderAction) -> Seq<i32> {
    match a {
        RenderAction::Import { key, payload, fd } => seq![fd],
        RenderAction::Close(fd) => seq![fd],
        RenderAction::WaitFence { key, fd } => seq![fd],
        _ => Seq::empty(),
    }
}

/// The file descriptors that a list of actions takes over, in order.
pub open spec fn all_fds(actions: Seq<RenderAction>) -> Seq<i32>
    decreases actions.len(),
{
    if actions.len() == 0 {
        Seq::empty()
    } else {
        all_fds(actions.drop_last()) + action_fds(actions.last())
    }
}

/// Every file descriptor that comes with a command is taken over by exactly
/// one action: it is imported, waited for, or closed.
pub proof fn lemma_command_fds(state: RenderView, cmd: RenderCmd)
    ensures
        all_fds(state.command(cmd).actions) == crate::comms::render_cmd_fds(cmd),
{
    let actions = state.command(cmd).actions;
    reveal_with_fuel(all_fds, 4);
    match cmd {
        RenderCmd::FramebufferLink { payload, dma_bufs, session_id } => {
            assert(actions.len() == 2);
            assert(actions.drop_last().drop_last() =~= Seq::<RenderAction>::empty());
            assert(all_fds(actions) =~= dma_bufs@);
        },
        RenderCmd::SwapBuffers { monitor_id, buffer, session_id, acquire_fence } => {
            if actions.len() == 2 {
                assert(actions.drop_last().drop_last() =~= Seq::<RenderAction>::empty());
            } else if actions.len() == 1 {
                assert(actions.drop_last() =~= Seq::<RenderAction>::empty());
            }
            assert(all_fds(actions) =~= crate::comms::render_cmd_fds(cmd));
        },
        _ => {
            lemma_quiet_actions(actions);
        },
    }
}

/// Actions that take no file descriptor over take none over together.
pub proof fn lemma_quiet_actions(actions: Seq<RenderAction>)
    requires
        forall|i: int| 0 <= i < actions.len() ==> action_fds(#[trigger] actions[i]).len() == 0,
    ensures
        all_fds(actions) == Seq::<i32>::empty(),
    decreases actions.len(),
{
    if actions.len() > 0 {
        lemma_quiet_actions(actions.drop_last());
        assert(all_fds(actions) =~= Seq::<i32>::empty());
    }
}

} // verus!
