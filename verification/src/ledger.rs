//! The buffer-ownership ledger of the control plane.
//!
//! For every `(session, monitor)` pair the ledger tracks the requests that
//! were forwarded to the renderer and not answered yet, the slots the
//! renderer accepted that still wait for their page flip, the slot that is
//! scanned out, and which slots the compositor owns.  A slot that is not
//! recorded as compositor-owned belongs to the client.

use crate::ids::{ClientId, MonitorId, SessionId};
use crate::protocol::BufferIndex;
use crate::seqs::{lemma_filter_ends, lemma_filter_next};
use vstd::prelude::*;

verus! {

/// Who may touch a buffer slot.
#[derive(Clone, Copy, Debug, PartialEq, Eq, Structural)]
pub enum BufferOwner {
    Client,
    Compositor,
}

/// One buffer slot of one session on one monitor.
#[derive(Clone, Copy, Debug, PartialEq, Eq, Hash, Structural)]
pub struct SlotRef {
    pub session_id: SessionId,
    pub monitor_id: MonitorId,
    pub buffer: BufferIndex,
}

/// A buffer request that was handed to the renderer and awaits its answer.
#[derive(Clone, Copy, Debug, PartialEq, Eq, Structural)]
pub struct PendingBufferRequest {
    pub client_id: ClientId,
    pub session_id: SessionId,
    pub monitor_id: MonitorId,
    pub buffer: BufferIndex,
}

impl PendingBufferRequest {
    /// The slot the request names.
    pub open spec fn slot(self) -> SlotRef {
        SlotRef { session_id: self.session_id, monitor_id: self.monitor_id, buffer: self.buffer }
    }
}

/// A slot handed back to the client after a page flip.
#[derive(Clone, Copy, Debug, PartialEq, Eq, Structural)]
pub struct BufferRelease {
    pub monitor_id: MonitorId,
    pub buffer: BufferIndex,
}

/// Why a buffer request is turned down before it reaches the renderer.
#[derive(Clone, Copy, Debug, PartialEq, Eq, Structural)]
pub enum RequestRefusal {
    /// The slot is owned by the compositor.
    OwnershipViolation,
    /// A request for the same slot is still in flight.
    Inflight,
}

/// A set of slots named by what they belong to.
#[derive(Clone, Copy, Debug, PartialEq, Eq, Structural)]
pub enum Scope {
    Session(SessionId),
    Monitor(MonitorId),
    Pair(SessionId, MonitorId),
}

impl Scope {
    /// Whether slots of `session_id` on `monitor_id` fall under the scope.
    pub open spec fn covers(self, session_id: SessionId, monitor_id: MonitorId) -> bool {
        match self {
            Scope::Session(s) => s == session_id,
            Scope::Monitor(m) => m == monitor_id,
            Scope::Pair(s, m) => s == session_id && m == monitor_id,
        }
    }

    pub fn includes(&self, session_id: SessionId, monitor_id: MonitorId) -> (r: bool)
        ensures
            r == self.covers(session_id, monitor_id),
    {
        match *self {
            Scope::Session(s) => s == session_id,
            Scope::Monitor(m) => m == monitor_id,
            Scope::Pair(s, m) => s == session_id && m == monitor_id,
        }
    }
}

/// Slots that do not fall under `scope`.
pub open spec fn slot_outside(scope: Scope) -> spec_fn(SlotRef) -> bool {
    |e: SlotRef| !scope.covers(e.session_id, e.monitor_id)
}

/// Slots other than `k`.
pub open spec fn slot_differs(k: SlotRef) -> spec_fn(SlotRef) -> bool {
    |e: SlotRef| e != k
}

/// Requests whose slot does not fall under `scope`.
pub open spec fn request_outside(scope: Scope) -> spec_fn(PendingBufferRequest) -> bool {
    |p: PendingBufferRequest| !scope.covers(p.session_id, p.monitor_id)
}

/// Requests that outlive the disconnect of `client_id`, which was bound to
/// `session_id`.
pub open spec fn request_outlives(client_id: ClientId, session_id: SessionId) -> spec_fn(
    PendingBufferRequest,
) -> bool {
    |p: PendingBufferRequest| p.client_id != client_id && p.session_id != session_id
}

/// `i` is the position of the earliest request for slot `k`.
pub open spec fn is_first_request(list: Seq<PendingBufferRequest>, k: SlotRef, i: int) -> bool {
    &&& 0 <= i < list.len()
    &&& list[i].slot() == k
    &&& forall|j: int| 0 <= j < i ==> (#[trigger] list[j]).slot() != k
}

/// Position of the earliest request for slot `k`.
pub open spec fn first_request(list: Seq<PendingBufferRequest>, k: SlotRef) -> Option<int> {
    if exists|i: int| is_first_request(list, k, i) {
        Some(choose|i: int| is_first_request(list, k, i))
    } else {
        None
    }
}

/// `i` is the position of the earliest entry of `(session_id, monitor_id)`.
pub open spec fn is_first_of_pair(
    list: Seq<SlotRef>,
    session_id: SessionId,
    monitor_id: MonitorId,
    i: int,
) -> bool {
    &&& 0 <= i < list.len()
    &&& list[i].session_id == session_id
    &&& list[i].monitor_id == monitor_id
    &&& forall|j: int|
        0 <= j < i ==> !((#[trigger] list[j]).session_id == session_id && list[j].monitor_id
            == monitor_id)
}

/// Position of the earliest entry of `(session_id, monitor_id)`.
pub open spec fn first_of_pair(
    list: Seq<SlotRef>,
    session_id: SessionId,
    monitor_id: MonitorId,
) -> Option<int> {
    if exists|i: int| is_first_of_pair(list, session_id, monitor_id, i) {
        Some(choose|i: int| is_first_of_pair(list, session_id, monitor_id, i))
    } else {
        None
    }
}

/// The earliest request for a slot is unique.
pub proof fn lemma_first_request(list: Seq<PendingBufferRequest>, k: SlotRef, i: int)
    requires
        is_first_request(list, k, i),
    ensures
        first_request(list, k) == Some(i),
{
    let c = choose|c: int| is_first_request(list, k, c);
    if c < i {
        assert(list[c].slot() != k);
    } else if i < c {
        assert(list[i].slot() != k);
    }
}

/// Without a request for the slot there is no earliest one.
pub proof fn lemma_no_request(list: Seq<PendingBufferRequest>, k: SlotRef)
    requires
        forall|j: int| 0 <= j < list.len() ==> (#[trigger] list[j]).slot() != k,
    ensures
        first_request(list, k) is None,
{
    if exists|i: int| is_first_request(list, k, i) {
        let c = choose|c: int| is_first_request(list, k, c);
        assert(list[c].slot() != k);
    }
}

/// The earliest entry of a pair is unique.
pub proof fn lemma_first_of_pair(
    list: Seq<SlotRef>,
    session_id: SessionId,
    monitor_id: MonitorId,
    i: int,
)
    requires
        is_first_of_pair(list, session_id, monitor_id, i),
    ensures
        first_of_pair(list, session_id, monitor_id) == Some(i),
{
    let c = choose|c: int| is_first_of_pair(list, session_id, monitor_id, c);
    if c < i {
        assert(!(list[c].session_id == session_id && list[c].monitor_id == monitor_id));
    } else if i < c {
        assert(!(list[i].session_id == session_id && list[i].monitor_id == monitor_id));
    }
}

/// Without an entry of the pair there is no earliest one.
pub proof fn lemma_none_of_pair(list: Seq<SlotRef>, session_id: SessionId, monitor_id: MonitorId)
    requires
        forall|j: int|
            0 <= j < list.len() ==> !((#[trigger] list[j]).session_id == session_id
                && list[j].monitor_id == monitor_id),
    ensures
        first_of_pair(list, session_id, monitor_id) is None,
{
    if exists|i: int| is_first_of_pair(list, session_id, monitor_id, i) {
        let c = choose|c: int| is_first_of_pair(list, session_id, monitor_id, c);
        assert(!(list[c].session_id == session_id && list[c].monitor_id == monitor_id));
    }
}

/// What the ledger holds, as mathematical sequences.
pub struct LedgerState {
    /// Requests forwarded to the renderer, oldest first.
    pub pending: Seq<PendingBufferRequest>,
    /// Slots the renderer accepted that wait for their page flip, oldest first.
    pub waiting: Seq<SlotRef>,
    /// The slot scanned out for each pair that has one.
    pub front: Seq<SlotRef>,
    /// The slots owned by the compositor.
    pub owned: Seq<SlotRef>,
}

impl LedgerState {
    /// The ledger of a server that has seen nothing yet.
    pub open spec fn empty() -> LedgerState {
        LedgerState {
            pending: Seq::empty(),
            waiting: Seq::empty(),
            front: Seq::empty(),
            owned: Seq::empty(),
        }
    }

    /// Owner of slot `k`.
    pub open spec fn owner(self, k: SlotRef) -> BufferOwner {
        if self.owned.contains(k) {
            BufferOwner::Compositor
        } else {
            BufferOwner::Client
        }
    }

    /// Whether a request for slot `k` is in flight.
    pub open spec fn has_pending(self, k: SlotRef) -> bool {
        first_request(self.pending, k) is Some
    }

    /// The slot scanned out for the pair, if any.
    pub open spec fn front_of(self, session_id: SessionId, monitor_id: MonitorId) -> Option<
        BufferIndex,
    > {
        match first_of_pair(self.front, session_id, monitor_id) {
            Some(i) => Some(self.front[i].buffer),
            None => None,
        }
    }

    /// Whether a new request for slot `k` may be forwarded to the renderer.
    pub open spec fn admission(self, k: SlotRef) -> Result<(), RequestRefusal> {
        if self.owner(k) != BufferOwner::Client {
            Err(RequestRefusal::OwnershipViolation)
        } else if self.has_pending(k) {
            Err(RequestRefusal::Inflight)
        } else {
            Ok(())
        }
    }

    /// The ledger after a request of `client_id` for slot `k` was forwarded.
    pub open spec fn request(self, client_id: ClientId, k: SlotRef) -> LedgerState {
        LedgerState {
            pending: self.pending.push(
                PendingBufferRequest {
                    client_id,
                    session_id: k.session_id,
                    monitor_id: k.monitor_id,
                    buffer: k.buffer,
                },
            ),
            ..self
        }
    }

    /// The request that an answer of the renderer for slot `k` settles.
    pub open spec fn settled(self, k: SlotRef) -> Option<PendingBufferRequest> {
        match first_request(self.pending, k) {
            Some(i) => Some(self.pending[i]),
            None => None,
        }
    }

    /// The ledger after the renderer accepted slot `k`.
    pub open spec fn ack(self, k: SlotRef) -> LedgerState {
        match first_request(self.pending, k) {
            None => self,
            Some(i) => LedgerState {
                pending: self.pending.remove(i),
                waiting: self.waiting.push(k),
                front: self.front,
                owned: if self.owned.contains(k) {
                    self.owned
                } else {
                    self.owned.push(k)
                },
            },
        }
    }

    /// The ledger after the renderer turned slot `k` down.
    pub open spec fn reject(self, k: SlotRef) -> LedgerState {
        match first_request(self.pending, k) {
            None => self,
            Some(i) => LedgerState { pending: self.pending.remove(i), ..self },
        }
    }

    /// The slot that a page flip of `monitor_id` hands back to the client of
    /// `session_id`.
    pub open spec fn released(self, session_id: SessionId, monitor_id: MonitorId) -> Option<
        BufferRelease,
    > {
        if first_of_pair(self.waiting, session_id, monitor_id) is Some {
            match self.front_of(session_id, monitor_id) {
                Some(previous) => Some(BufferRelease { monitor_id, buffer: previous }),
                None => None,
            }
        } else {
            None
        }
    }

    /// The ledger after `monitor_id` flipped while `session_id` was shown.
    pub open spec fn flip(self, session_id: SessionId, monitor_id: MonitorId) -> LedgerState {
        match first_of_pair(self.waiting, session_id, monitor_id) {
            None => self,
            Some(i) => LedgerState {
                pending: self.pending,
                waiting: self.waiting.remove(i),
                front: self.front.filter(slot_outside(Scope::Pair(session_id, monitor_id))).push(
                    self.waiting[i],
                ),
                owned: match self.front_of(session_id, monitor_id) {
                    Some(previous) => self.owned.filter(
                        slot_differs(SlotRef { session_id, monitor_id, buffer: previous }),
                    ),
                    None => self.owned,
                },
            },
        }
    }

    /// The ledger without anything that falls under `scope`.
    pub open spec fn purge(self, scope: Scope) -> LedgerState {
        LedgerState {
            pending: self.pending.filter(request_outside(scope)),
            waiting: self.waiting.filter(slot_outside(scope)),
            front: self.front.filter(slot_outside(scope)),
            owned: self.owned.filter(slot_outside(scope)),
        }
    }

    /// The ledger after `client_id`, bound to `session_id`, went away.
    pub open spec fn purge_client(self, client_id: ClientId, session_id: SessionId) -> LedgerState {
        LedgerState {
            pending: self.pending.filter(request_outlives(client_id, session_id)),
            waiting: self.waiting.filter(slot_outside(Scope::Session(session_id))),
            front: self.front.filter(slot_outside(Scope::Session(session_id))),
            owned: self.owned.filter(slot_outside(Scope::Session(session_id))),
        }
    }
}

/// Position of the earliest entry of the pair in `list`.
fn position_of_pair(list: &Vec<SlotRef>, session_id: SessionId, monitor_id: MonitorId) -> (r:
    Option<usize>)
    ensures
        match r {
            Some(i) => first_of_pair(list@, session_id, monitor_id) == Some(i as int),
            None => first_of_pair(list@, session_id, monitor_id) is None,
        },
{
    let mut i: usize = 0;
    while i < list.len()
        invariant
            i <= list.len(),
            forall|j: int|
                0 <= j < i ==> !((#[trigger] list@[j]).session_id == session_id
                    && list@[j].monitor_id == monitor_id),
        decreases list.len() - i,
    {
        if list[i].session_id == session_id && list[i].monitor_id == monitor_id {
            proof {
                lemma_first_of_pair(list@, session_id, monitor_id, i as int);
            }
            return Some(i);
        }
        i += 1;
    }
    proof {
        lemma_none_of_pair(list@, session_id, monitor_id);
    }
    None
}

/// Position of the earliest request for slot `k` in `list`.
fn position_of_request(list: &Vec<PendingBufferRequest>, k: SlotRef) -> (r: Option<usize>)
    ensures
        match r {
            Some(i) => first_request(list@, k) == Some(i as int),
            None => first_request(list@, k) is None,
        },
{
    let mut i: usize = 0;
    while i < list.len()
        invariant
            i <= list.len(),
            forall|j: int| 0 <= j < i ==> (#[trigger] list@[j]).slot() != k,
        decreases list.len() - i,
    {
        let p = list[i];
        if p.session_id == k.session_id && p.monitor_id == k.monitor_id && p.buffer == k.buffer {
            proof {
                lemma_first_request(list@, k, i as int);
            }
            return Some(i);
        }
        i += 1;
    }
    proof {
        lemma_no_request(list@, k);
    }
    None
}

/// Whether `list` holds slot `k`.
pub fn holds_slot(list: &Vec<SlotRef>, k: SlotRef) -> (r: bool)
    ensures
        r == list@.contains(k),
{
    let mut i: usize = 0;
    while i < list.len()
        invariant
            i <= list.len(),
            forall|j: int| 0 <= j < i ==> list@[j] != k,
        decreases list.len() - i,
    {
        if list[i] == k {
            return true;
        }
        i += 1;
    }
    false
}

/// Drops from `list` every slot under `scope`, keeping the order of the rest.
pub fn drop_slots(list: &mut Vec<SlotRef>, scope: Scope)
    ensures
        final(list)@ == old(list)@.filter(slot_outside(scope)),
{
    let mut kept: Vec<SlotRef> = Vec::new();
    let mut i: usize = 0;
    proof {
        lemma_filter_ends(list@, slot_outside(scope));
    }
    while i < list.len()
        invariant
            i <= list.len(),
            kept@ == list@.take(i as int).filter(slot_outside(scope)),
        decreases list.len() - i,
    {
        let e = list[i];
        proof {
            lemma_filter_next(list@, slot_outside(scope), i as int);
        }
        if !scope.includes(e.session_id, e.monitor_id) {
            kept.push(e);
        }
        i += 1;
    }
    proof {
        lemma_filter_ends(list@, slot_outside(scope));
    }
    *list = kept;
}

/// Drops slot `k` from `list`, keeping the order of the rest.
pub fn drop_slot(list: &mut Vec<SlotRef>, k: SlotRef)
    ensures
        final(list)@ == old(list)@.filter(slot_differs(k)),
{
    let mut kept: Vec<SlotRef> = Vec::new();
    let mut i: usize = 0;
    proof {
        lemma_filter_ends(list@, slot_differs(k));
    }
    while i < list.len()
        invariant
            i <= list.len(),
            kept@ == list@.take(i as int).filter(slot_differs(k)),
        decreases list.len() - i,
    {
        let e = list[i];
        proof {
            lemma_filter_next(list@, slot_differs(k), i as int);
        }
        if e != k {
            kept.push(e);
        }
        i += 1;
    }
    proof {
        lemma_filter_ends(list@, slot_differs(k));
    }
    *list = kept;
}

/// Drops from `list` every request under `scope`.
fn drop_requests(list: &mut Vec<PendingBufferRequest>, scope: Scope)
    ensures
        final(list)@ == old(list)@.filter(request_outside(scope)),
{
    let mut kept: Vec<PendingBufferRequest> = Vec::new();
    let mut i: usize = 0;
    proof {
        lemma_filter_ends(list@, request_outside(scope));
    }
    while i < list.len()
        invariant
            i <= list.len(),
            kept@ == list@.take(i as int).filter(request_outside(scope)),
        decreases list.len() - i,
    {
        let p = list[i];
        proof {
            lemma_filter_next(list@, request_outside(scope), i as int);
        }
        if !scope.includes(p.session_id, p.monitor_id) {
            kept.push(p);
        }
        i += 1;
    }
    proof {
        lemma_filter_ends(list@, request_outside(scope));
    }
    *list = kept;
}

/// Drops from `list` every request of `client_id` or of `session_id`.
fn drop_requests_of(
    list: &mut Vec<PendingBufferRequest>,
    client_id: ClientId,
    session_id: SessionId,
)
    ensures
        final(list)@ == old(list)@.filter(request_outlives(client_id, session_id)),
{
    let mut kept: Vec<PendingBufferRequest> = Vec::new();
    let mut i: usize = 0;
    proof {
        lemma_filter_ends(list@, request_outlives(client_id, session_id));
    }
    while i < list.len()
        invariant
            i <= list.len(),
            kept@ == list@.take(i as int).filter(request_outlives(client_id, session_id)),
        decreases list.len() - i,
    {
        let p = list[i];
        proof {
            lemma_filter_next(list@, request_outlives(client_id, session_id), i as int);
        }
        if p.client_id != client_id && p.session_id != session_id {
            kept.push(p);
        }
        i += 1;
    }
    proof {
        lemma_filter_ends(list@, request_outlives(client_id, session_id));
    }
    *list = kept;
}

/// The ledger itself.
pub struct BufferLedger {
    pending_buffer_requests: Vec<PendingBufferRequest>,
    waiting_flip: Vec<SlotRef>,
    front_buffers: Vec<SlotRef>,
    compositor_owned: Vec<SlotRef>,
}

impl View for BufferLedger {
    type V = LedgerState;

    closed spec fn view(&self) -> LedgerState {
        LedgerState {
            pending: self.pending_buffer_requests@,
            waiting: self.waiting_flip@,
            front: self.front_buffers@,
            owned: self.compositor_owned@,
        }
    }
}

impl BufferLedger {
    /// An empty ledger: every slot belongs to its client.
    pub fn new() -> (r: BufferLedger)
        ensures
            r@ == LedgerState::empty(),
    {
        BufferLedger {
            pending_buffer_requests: Vec::new(),
            waiting_flip: Vec::new(),
            front_buffers: Vec::new(),
            compositor_owned: Vec::new(),
        }
    }

    /// Owner of a slot.
    pub fn owner(&self, slot: SlotRef) -> (r: BufferOwner)
        ensures
            r == self@.owner(slot),
    {
        if holds_slot(&self.compositor_owned, slot) {
            BufferOwner::Compositor
        } else {
            BufferOwner::Client
        }
    }

    /// Whether a request for the slot is in flight.
    pub fn has_pending(&self, slot: SlotRef) -> (r: bool)
        ensures
            r == self@.has_pending(slot),
    {
        position_of_request(&self.pending_buffer_requests, slot).is_some()
    }

    /// The slot scanned out for the pair, if any.
    pub fn front_buffer(&self, session_id: SessionId, monitor_id: MonitorId) -> (r: Option<
        BufferIndex,
    >)
        ensures
            r == self@.front_of(session_id, monitor_id),
    {
        match position_of_pair(&self.front_buffers, session_id, monitor_id) {
            Some(i) => Some(self.front_buffers[i].buffer),
            None => None,
        }
    }

    /// Number of requests in flight.
    pub fn pending_len(&self) -> (r: usize)
        ensures
            r == self@.pending.len(),
    {
        self.pending_buffer_requests.len()
    }

    /// Number of accepted slots that wait for their page flip.
    pub fn waiting_len(&self) -> (r: usize)
        ensures
            r == self@.waiting.len(),
    {
        self.waiting_flip.len()
    }

    /// Decides whether a request for the slot may go to the renderer: not
    /// while the compositor owns the slot, and not while an earlier request
    /// for it is unanswered.
    pub fn check_request(&self, slot: SlotRef) -> (r: Result<(), RequestRefusal>)
        ensures
            r == self@.admission(slot),
    {
        if self.owner(slot) != BufferOwner::Client {
            Err(RequestRefusal::OwnershipViolation)
        } else if self.has_pending(slot) {
            Err(RequestRefusal::Inflight)
        } else {
            Ok(())
        }
    }

    /// Records that a request of `client_id` for the slot went to the
    /// renderer.
    pub fn record_request(&mut self, client_id: ClientId, slot: SlotRef)
        ensures
            final(self)@ == old(self)@.request(client_id, slot),
    {
        self.pending_buffer_requests.push(
            PendingBufferRequest {
                client_id,
                session_id: slot.session_id,
                monitor_id: slot.monitor_id,
                buffer: slot.buffer,
            },
        );
    }

    /// The renderer accepted the slot: the earliest request for it is
    /// settled, the compositor owns the slot, and the slot waits for its
    /// page flip.  Returns the settled request; without one nothing changes.
    pub fn acknowledge(&mut self, slot: SlotRef) -> (r: Option<PendingBufferRequest>)
        ensures
            final(self)@ == old(self)@.ack(slot),
            r == old(self)@.settled(slot),
    {
        match position_of_request(&self.pending_buffer_requests, slot) {
            None => None,
            Some(i) => {
                let pending = self.pending_buffer_requests.remove(i);
                if !holds_slot(&self.compositor_owned, slot) {
                    self.compositor_owned.push(slot);
                }
                self.waiting_flip.push(slot);
                Some(pending)
            },
        }
    }

    /// The renderer turned the slot down: the earliest request for it is
    /// dropped and returned; without one nothing changes.
    pub fn reject(&mut self, slot: SlotRef) -> (r: Option<PendingBufferRequest>)
        ensures
            final(self)@ == old(self)@.reject(slot),
            r == old(self)@.settled(slot),
    {
        match position_of_request(&self.pending_buffer_requests, slot) {
            None => None,
            Some(i) => {
                let pending = self.pending_buffer_requests.remove(i);
                Some(pending)
            },
        }
    }

    /// `monitor_id` flipped while `session_id` was shown: the earliest
    /// waiting slot of the pair becomes its front, and the front it replaces
    /// goes back to the client and is returned.  Without a waiting slot
    /// nothing changes.
    pub fn page_flip(&mut self, session_id: SessionId, monitor_id: MonitorId) -> (r: Option<
        BufferRelease,
    >)
        ensures
            final(self)@ == old(self)@.flip(session_id, monitor_id),
            r == old(self)@.released(session_id, monitor_id),
    {
        match position_of_pair(&self.waiting_flip, session_id, monitor_id) {
            None => None,
            Some(i) => {
                let next = self.waiting_flip.remove(i);
                let previous = self.front_buffer(session_id, monitor_id);
                drop_slots(&mut self.front_buffers, Scope::Pair(session_id, monitor_id));
                self.front_buffers.push(next);
                match previous {
                    Some(buffer) => {
                        drop_slot(
                            &mut self.compositor_owned,
                            SlotRef { session_id, monitor_id, buffer },
                        );
                        Some(BufferRelease { monitor_id, buffer })
                    },
                    None => None,
                }
            },
        }
    }

    /// Forgets everything under `scope`: requests, waiting slots, fronts and
    /// compositor ownership.  The slots under it are the client's again.
    pub fn purge(&mut self, scope: Scope)
        ensures
            final(self)@ == old(self)@.purge(scope),
    {
        drop_requests(&mut self.pending_buffer_requests, scope);
        drop_slots(&mut self.waiting_flip, scope);
        drop_slots(&mut self.front_buffers, scope);
        drop_slots(&mut self.compositor_owned, scope);
    }

    /// Forgets what belonged to a client that went away while bound to
    /// `session_id`.
    pub fn purge_client(&mut self, client_id: ClientId, session_id: SessionId)
        ensures
            final(self)@ == old(self)@.purge_client(client_id, session_id),
    {
        drop_requests_of(&mut self.pending_buffer_requests, client_id, session_id);
        drop_slots(&mut self.waiting_flip, Scope::Session(session_id));
        drop_slots(&mut self.front_buffers, Scope::Session(session_id));
        drop_slots(&mut self.compositor_owned, Scope::Session(session_id));
    }
}

} // verus!
