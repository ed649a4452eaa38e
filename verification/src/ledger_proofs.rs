//! What always holds of the buffer-ownership ledger.
//!
//! [`LedgerState::consistent`] is established by the empty ledger and kept
//! by every transition; the lemmas below say so, and draw from it the
//! statements about ownership that callers rely on.

use crate::ids::{ClientId, MonitorId, SessionId};
use crate::ledger::{first_of_pair, first_request, is_first_of_pair, is_first_request, lemma_first_of_pair, request_outlives, request_outside, slot_differs, slot_outside, BufferOwner, LedgerState, PendingBufferRequest, Scope, SlotRef};
use crate::protocol::BufferIndex;
use crate::seqs::{
    lemma_filter_member, lemma_filter_no_duplicates, lemma_filter_order, lemma_push_member,
    lemma_remove_member,
};
use vstd::prelude::*;

verus! {

impl LedgerState {
    /// No two requests in flight name the same slot.
    pub open spec fn one_request_per_slot(self) -> bool {
        forall|i: int, j: int|
            0 <= i < j < self.pending.len() ==> (#[trigger] self.pending[i]).slot() != (
            #[trigger] self.pending[j]).slot()
    }

    /// No pair has two fronts.
    pub open spec fn one_front_per_pair(self) -> bool {
        forall|i: int, j: int|
            0 <= i < j < self.front.len() ==> !((#[trigger] self.front[i]).session_id == (
            #[trigger] self.front[j]).session_id && self.front[i].monitor_id
                == self.front[j].monitor_id)
    }

    /// The invariant of the ledger.
    ///
    /// The compositor owns a slot exactly while the slot waits for its page
    /// flip or is scanned out; a slot with a request in flight is still the
    /// client's; no slot has two requests in flight, waits twice, or is both
    /// waiting and scanned out; no pair has two fronts.
    pub open spec fn consistent(self) -> bool {
        &&& forall|k: SlotRef|
            #![trigger self.owned.contains(k)]
            #![trigger self.waiting.contains(k)]
            #![trigger self.front.contains(k)]
            self.owned.contains(k) <==> (self.waiting.contains(k) || self.front.contains(k))
        &&& forall|i: int|
            0 <= i < self.pending.len() ==> !self.owned.contains(
                (#[trigger] self.pending[i]).slot(),
            )
        &&& self.one_request_per_slot()
        &&& self.waiting.no_duplicates()
        &&& self.owned.no_duplicates()
        &&& self.one_front_per_pair()
        &&& forall|i: int|
            0 <= i < self.front.len() ==> !self.waiting.contains(#[trigger] self.front[i])
    }
}

/// The empty ledger is consistent.
pub proof fn lemma_empty_consistent()
    ensures
        LedgerState::empty().consistent(),
{
}

/// In a consistent ledger the front of a pair is the one entry of that pair.
pub proof fn lemma_front_entry(l: LedgerState, k: SlotRef)
    requires
        l.one_front_per_pair(),
    ensures
        l.front.contains(k) <==> l.front_of(k.session_id, k.monitor_id) == Some(k.buffer),
{
    if l.front.contains(k) {
        let i = choose|i: int| 0 <= i < l.front.len() && l.front[i] == k;
        assert(is_first_of_pair(l.front, k.session_id, k.monitor_id, i)) by {
            assert forall|j: int| 0 <= j < i implies !((#[trigger] l.front[j]).session_id
                == k.session_id && l.front[j].monitor_id == k.monitor_id) by {
                assert(l.front[i] == k);
            }
        }
        lemma_first_of_pair(l.front, k.session_id, k.monitor_id, i);
    }
    if l.front_of(k.session_id, k.monitor_id) == Some(k.buffer) {
        let i = first_of_pair(l.front, k.session_id, k.monitor_id)->0;
        assert(is_first_of_pair(l.front, k.session_id, k.monitor_id, i));
        assert(l.front[i] == k);
    }
}

/// A slot is owned by the compositor exactly while it waits for its page
/// flip or is the front of its pair; otherwise, and in particular while a
/// request for it is in flight, it is the client's.
pub proof fn lemma_ownership(l: LedgerState, k: SlotRef)
    requires
        l.consistent(),
    ensures
        l.owner(k) == BufferOwner::Compositor <==> (l.waiting.contains(k) || l.front_of(
            k.session_id,
            k.monitor_id,
        ) == Some(k.buffer)),
        l.owner(k) == BufferOwner::Client <==> !(l.waiting.contains(k) || l.front_of(
            k.session_id,
            k.monitor_id,
        ) == Some(k.buffer)),
        l.has_pending(k) ==> l.owner(k) == BufferOwner::Client,
{
    lemma_front_entry(l, k);
    if l.has_pending(k) {
        let i = first_request(l.pending, k)->0;
        assert(is_first_request(l.pending, k, i));
        assert(l.pending[i].slot() == k);
    }
}

/// At most one request is in flight for a slot: any two requests in flight
/// that name the same slot are one and the same.
pub proof fn lemma_one_request_in_flight(l: LedgerState, i: int, j: int)
    requires
        l.consistent(),
        0 <= i < l.pending.len(),
        0 <= j < l.pending.len(),
        l.pending[i].slot() == l.pending[j].slot(),
    ensures
        i == j,
{
    if i < j {
        assert(l.pending[i].slot() != l.pending[j].slot());
    } else if j < i {
        assert(l.pending[j].slot() != l.pending[i].slot());
    }
}

/// A request that passed admission keeps the ledger consistent.
pub proof fn lemma_request_consistent(l: LedgerState, client_id: ClientId, k: SlotRef)
    requires
        l.consistent(),
        l.admission(k) is Ok,
    ensures
        l.request(client_id, k).consistent(),
{
    let n = l.request(client_id, k);
    assert(!l.owned.contains(k));
    assert(first_request(l.pending, k) is None);
    assert forall|j: int| 0 <= j < l.pending.len() implies (#[trigger] l.pending[j]).slot()
        != k by {
        if l.pending[j].slot() == k {
            lemma_some_request(l.pending, k, j);
        }
    }
    assert(n.pending.last().slot() == k);
    assert forall|i: int| 0 <= i < n.pending.len() implies !n.owned.contains(
        (#[trigger] n.pending[i]).slot(),
    ) by {
        if i < l.pending.len() {
            assert(n.pending[i] == l.pending[i]);
        }
    }
    assert forall|i: int, j: int| 0 <= i < j < n.pending.len() implies (
    #[trigger] n.pending[i]).slot() != (#[trigger] n.pending[j]).slot() by {
        assert(n.pending[i] == l.pending[i]);
        if j < l.pending.len() {
            assert(n.pending[j] == l.pending[j]);
        }
    }
}

/// Where some request names the slot, there is an earliest one.
pub proof fn lemma_some_request(list: Seq<PendingBufferRequest>, k: SlotRef, j: int)
    requires
        0 <= j < list.len(),
        list[j].slot() == k,
    ensures
        first_request(list, k) is Some,
    decreases j,
{
    if exists|i: int| 0 <= i < j && (#[trigger] list[i]).slot() == k {
        let i = choose|i: int| 0 <= i < j && (#[trigger] list[i]).slot() == k;
        lemma_some_request(list, k, i);
    } else {
        assert(is_first_request(list, k, j));
    }
}

/// Taking a request out keeps the remaining requests apart and client-owned.
proof fn lemma_settle_keeps_requests(l: LedgerState, i: int, owned: Seq<SlotRef>)
    requires
        l.consistent(),
        0 <= i < l.pending.len(),
        forall|x: SlotRef| owned.contains(x) ==> l.owned.contains(x) || x == l.pending[i].slot(),
    ensures
        forall|a: int, b: int|
            0 <= a < b < l.pending.remove(i).len() ==> (#[trigger] l.pending.remove(i)[a]).slot()
                != (#[trigger] l.pending.remove(i)[b]).slot(),
        forall|a: int|
            0 <= a < l.pending.remove(i).len() ==> !owned.contains(
                (#[trigger] l.pending.remove(i)[a]).slot(),
            ),
{
    let r = l.pending.remove(i);
    assert forall|a: int, b: int| 0 <= a < b < r.len() implies (#[trigger] r[a]).slot() != (
    #[trigger] r[b]).slot() by {
        let a0 = if a < i {
            a
        } else {
            a + 1
        };
        let b0 = if b < i {
            b
        } else {
            b + 1
        };
        assert(r[a] == l.pending[a0] && r[b] == l.pending[b0]);
        assert(l.pending[a0].slot() != l.pending[b0].slot());
    }
    assert forall|a: int| 0 <= a < r.len() implies !owned.contains((#[trigger] r[a]).slot()) by {
        let a0 = if a < i {
            a
        } else {
            a + 1
        };
        assert(r[a] == l.pending[a0]);
        assert(!l.owned.contains(l.pending[a0].slot()));
        if a0 < i {
            assert(l.pending[a0].slot() != l.pending[i].slot());
        } else {
            assert(l.pending[i].slot() != l.pending[a0].slot());
        }
    }
}

/// An acknowledgement keeps the ledger consistent.
pub proof fn lemma_ack_consistent(l: LedgerState, k: SlotRef)
    requires
        l.consistent(),
    ensures
        l.ack(k).consistent(),
{
    let n = l.ack(k);
    match first_request(l.pending, k) {
        None => {},
        Some(i) => {
            assert(is_first_request(l.pending, k, i));
            assert(l.pending[i].slot() == k);
            assert(!l.owned.contains(k));
            assert(!l.waiting.contains(k));
            assert(!l.front.contains(k));
            assert(n.owned == l.owned.push(k));
            assert forall|x: SlotRef|
                #![trigger n.owned.contains(x)]
                #![trigger n.waiting.contains(x)]
                #![trigger n.front.contains(x)]
                n.owned.contains(x) <==> (n.waiting.contains(x) || n.front.contains(x)) by {
                lemma_push_member(l.owned, k, x);
                lemma_push_member(l.waiting, k, x);
            }
            assert forall|x: SlotRef| n.owned.contains(x) implies l.owned.contains(x) || x
                == l.pending[i].slot() by {
                lemma_push_member(l.owned, k, x);
            }
            lemma_settle_keeps_requests(l, i, n.owned);
            assert(n.waiting.no_duplicates()) by {
                assert forall|a: int, b: int|
                    0 <= a < n.waiting.len() && 0 <= b < n.waiting.len() && a != b implies n.waiting[a]
                    != n.waiting[b] by {
                    if a < l.waiting.len() {
                        assert(l.waiting.contains(l.waiting[a]));
                    }
                    if b < l.waiting.len() {
                        assert(l.waiting.contains(l.waiting[b]));
                    }
                }
            }
            assert(n.owned.no_duplicates()) by {
                assert forall|a: int, b: int|
                    0 <= a < n.owned.len() && 0 <= b < n.owned.len() && a != b implies n.owned[a]
                    != n.owned[b] by {
                    if a < l.owned.len() {
                        assert(l.owned.contains(l.owned[a]));
                    }
                    if b < l.owned.len() {
                        assert(l.owned.contains(l.owned[b]));
                    }
                }
            }
            assert forall|a: int| 0 <= a < n.front.len() implies !n.waiting.contains(
                #[trigger] n.front[a],
            ) by {
                lemma_push_member(l.waiting, k, n.front[a]);
                assert(l.front.contains(l.front[a]));
            }
        },
    }
}

/// A rejection keeps the ledger consistent.
pub proof fn lemma_reject_consistent(l: LedgerState, k: SlotRef)
    requires
        l.consistent(),
    ensures
        l.reject(k).consistent(),
{
    match first_request(l.pending, k) {
        None => {},
        Some(i) => {
            assert(is_first_request(l.pending, k, i));
            lemma_settle_keeps_requests(l, i, l.owned);
        },
    }
}

/// Once the renderer answered for a slot, no request for that slot is left
/// in flight: the answer settles the one request there was.
pub proof fn lemma_answer_settles_once(l: LedgerState, k: SlotRef)
    requires
        l.consistent(),
    ensures
        !l.ack(k).has_pending(k),
        !l.reject(k).has_pending(k),
        l.settled(k) matches Some(p) ==> p.slot() == k && l.pending.contains(p),
        l.settled(k) is None ==> l.ack(k) == l && l.reject(k) == l,
{
    match first_request(l.pending, k) {
        None => {},
        Some(i) => {
            assert(is_first_request(l.pending, k, i));
            let r = l.pending.remove(i);
            if first_request(r, k) is Some {
                let a = first_request(r, k)->0;
                assert(is_first_request(r, k, a));
                let a0 = if a < i {
                    a
                } else {
                    a + 1
                };
                assert(r[a] == l.pending[a0]);
                lemma_one_request_in_flight(l, a0, i);
            }
        },
    }
}

/// A page flip keeps the ledger consistent.
pub proof fn lemma_flip_consistent(l: LedgerState, session_id: SessionId, monitor_id: MonitorId)
    requires
        l.consistent(),
    ensures
        l.flip(session_id, monitor_id).consistent(),
{
    let n = l.flip(session_id, monitor_id);
    let pair = Scope::Pair(session_id, monitor_id);
    match first_of_pair(l.waiting, session_id, monitor_id) {
        None => {},
        Some(i) => {
            assert(is_first_of_pair(l.waiting, session_id, monitor_id, i));
            let next = l.waiting[i];
            let kept = l.front.filter(slot_outside(pair));
            assert(l.waiting.contains(next));
            assert(l.owned.contains(next));
            assert(!l.front.contains(next)) by {
                if l.front.contains(next) {
                    let a = choose|a: int| 0 <= a < l.front.len() && l.front[a] == next;
                    assert(!l.waiting.contains(l.front[a]));
                }
            }
            // What the front list holds afterwards.
            assert forall|x: SlotRef| n.front.contains(x) <==> (x == next || (l.front.contains(x)
                && !pair.covers(x.session_id, x.monitor_id))) by {
                lemma_push_member(kept, next, x);
                lemma_filter_member(l.front, slot_outside(pair), x);
            }
            // What waits afterwards.
            assert forall|x: SlotRef| n.waiting.contains(x) <==> (l.waiting.contains(x) && x
                != next) by {
                lemma_remove_member(l.waiting, i, x);
            }
            lemma_remove_member(l.waiting, i, next);
            // What the compositor owns afterwards.
            match l.front_of(session_id, monitor_id) {
                Some(previous) => {
                    let old = SlotRef { session_id, monitor_id, buffer: previous };
                    lemma_front_entry(l, old);
                    assert(l.front.contains(old));
                    assert(old != next);
                    assert forall|x: SlotRef| n.owned.contains(x) <==> (l.owned.contains(x) && x
                        != old) by {
                        lemma_filter_member(l.owned, slot_differs(old), x);
                    }
                    lemma_filter_no_duplicates(l.owned, slot_differs(old));
                    assert forall|x: SlotRef|
                        l.front.contains(x) && pair.covers(x.session_id, x.monitor_id) implies x
                        == old by {
                        lemma_front_entry(l, x);
                    }
                },
                None => {
                    assert forall|x: SlotRef|
                        l.front.contains(x) implies !pair.covers(x.session_id, x.monitor_id) by {
                        if pair.covers(x.session_id, x.monitor_id) {
                            lemma_front_entry(l, x);
                        }
                    }
                },
            }
            assert forall|x: SlotRef|
                #![trigger n.owned.contains(x)]
                #![trigger n.waiting.contains(x)]
                #![trigger n.front.contains(x)]
                n.owned.contains(x) <==> (n.waiting.contains(x) || n.front.contains(x)) by {
                assert(l.owned.contains(x) <==> (l.waiting.contains(x) || l.front.contains(x)));
            }
            assert forall|a: int| 0 <= a < n.pending.len() implies !n.owned.contains(
                (#[trigger] n.pending[a]).slot(),
            ) by {
                assert(!l.owned.contains(l.pending[a].slot()));
            }
            assert(n.one_front_per_pair()) by {
                assert forall|a: int, b: int| 0 <= a < b < n.front.len() implies !((
                #[trigger] n.front[a]).session_id == (#[trigger] n.front[b]).session_id
                    && n.front[a].monitor_id == n.front[b].monitor_id) by {
                    assert(n.front[a] == kept[a]);
                    l.front.lemma_filter_pred(slot_outside(pair), a);
                    if b < kept.len() {
                        lemma_filter_order(l.front, slot_outside(pair), a, b);
                    }
                }
            }
            assert forall|a: int| 0 <= a < n.front.len() implies !n.waiting.contains(
                #[trigger] n.front[a],
            ) by {
                let x = n.front[a];
                assert(n.front.contains(x));
                if x != next {
                    let c = choose|c: int| 0 <= c < l.front.len() && l.front[c] == x;
                    assert(!l.waiting.contains(l.front[c]));
                }
            }
        },
    }
}

/// Forgetting a session, a monitor or a pair keeps the ledger consistent.
pub proof fn lemma_purge_consistent(l: LedgerState, scope: Scope)
    requires
        l.consistent(),
    ensures
        l.purge(scope).consistent(),
{
    lemma_filtered_consistent(l, request_outside(scope), scope);
}

/// Forgetting a client that went away keeps the ledger consistent.
pub proof fn lemma_purge_client_consistent(
    l: LedgerState,
    client_id: ClientId,
    session_id: SessionId,
)
    requires
        l.consistent(),
    ensures
        l.purge_client(client_id, session_id).consistent(),
{
    lemma_filtered_consistent(
        l,
        request_outlives(client_id, session_id),
        Scope::Session(session_id),
    );
}

/// Dropping requests by any rule, and every slot under a scope, keeps the
/// ledger consistent.
proof fn lemma_filtered_consistent(
    l: LedgerState,
    keep: spec_fn(PendingBufferRequest) -> bool,
    scope: Scope,
)
    requires
        l.consistent(),
    ensures
        (LedgerState {
            pending: l.pending.filter(keep),
            waiting: l.waiting.filter(slot_outside(scope)),
            front: l.front.filter(slot_outside(scope)),
            owned: l.owned.filter(slot_outside(scope)),
        }).consistent(),
{
    let out = slot_outside(scope);
    let n = LedgerState {
        pending: l.pending.filter(keep),
        waiting: l.waiting.filter(out),
        front: l.front.filter(out),
        owned: l.owned.filter(out),
    };
    assert forall|x: SlotRef|
        #![trigger n.owned.contains(x)]
        #![trigger n.waiting.contains(x)]
        #![trigger n.front.contains(x)]
        n.owned.contains(x) <==> (n.waiting.contains(x) || n.front.contains(x)) by {
        lemma_filter_member(l.owned, out, x);
        lemma_filter_member(l.waiting, out, x);
        lemma_filter_member(l.front, out, x);
        assert(l.owned.contains(x) <==> (l.waiting.contains(x) || l.front.contains(x)));
    }
    assert forall|i: int| 0 <= i < n.pending.len() implies !n.owned.contains(
        (#[trigger] n.pending[i]).slot(),
    ) by {
        let p = n.pending[i];
        assert(n.pending.contains(p));
        l.pending.lemma_filter_contains_rev(keep, p);
        let a = choose|a: int| 0 <= a < l.pending.len() && l.pending[a] == p;
        assert(!l.owned.contains(l.pending[a].slot()));
        lemma_filter_member(l.owned, out, p.slot());
    }
    assert(n.one_request_per_slot()) by {
        assert forall|i: int, j: int| 0 <= i < j < n.pending.len() implies (
        #[trigger] n.pending[i]).slot() != (#[trigger] n.pending[j]).slot() by {
            lemma_filter_order(l.pending, keep, i, j);
            let (a, b) = choose|a: int, b: int|
                0 <= a < b < l.pending.len() && l.pending[a] == n.pending[i] && l.pending[b]
                    == n.pending[j];
            assert(l.pending[a].slot() != l.pending[b].slot());
        }
    }
    lemma_filter_no_duplicates(l.waiting, out);
    lemma_filter_no_duplicates(l.owned, out);
    assert(n.one_front_per_pair()) by {
        assert forall|i: int, j: int| 0 <= i < j < n.front.len() implies !((
        #[trigger] n.front[i]).session_id == (#[trigger] n.front[j]).session_id
            && n.front[i].monitor_id == n.front[j].monitor_id) by {
            lemma_filter_order(l.front, out, i, j);
            let (a, b) = choose|a: int, b: int|
                0 <= a < b < l.front.len() && l.front[a] == n.front[i] && l.front[b] == n.front[j];
            assert(!(l.front[a].session_id == l.front[b].session_id && l.front[a].monitor_id
                == l.front[b].monitor_id));
        }
    }
    assert forall|i: int| 0 <= i < n.front.len() implies !n.waiting.contains(
        #[trigger] n.front[i],
    ) by {
        let x = n.front[i];
        assert(n.front.contains(x));
        l.front.lemma_filter_contains_rev(out, x);
        let a = choose|a: int| 0 <= a < l.front.len() && l.front[a] == x;
        assert(!l.waiting.contains(l.front[a]));
        lemma_filter_member(l.waiting, out, x);
    }
}

/// A slot handed back to the client was the front of its pair, and so was
/// accepted by the renderer before; the page flip that hands it back puts
/// another slot in its place and returns it to the client.
pub proof fn lemma_release_follows_flip(
    l: LedgerState,
    session_id: SessionId,
    monitor_id: MonitorId,
)
    requires
        l.consistent(),
        l.released(session_id, monitor_id) is Some,
    ensures
        ({
            let released = l.released(session_id, monitor_id)->0;
            let slot = SlotRef { session_id, monitor_id, buffer: released.buffer };
            let n = l.flip(session_id, monitor_id);
            &&& released.monitor_id == monitor_id
            &&& l.front_of(session_id, monitor_id) == Some(released.buffer)
            &&& l.owner(slot) == BufferOwner::Compositor
            &&& n.front_of(session_id, monitor_id) is Some
            &&& n.front_of(session_id, monitor_id) != Some(released.buffer)
            &&& n.owner(slot) == BufferOwner::Client
        }),
{
    let released = l.released(session_id, monitor_id)->0;
    let slot = SlotRef { session_id, monitor_id, buffer: released.buffer };
    let n = l.flip(session_id, monitor_id);
    let pair = Scope::Pair(session_id, monitor_id);
    let i = first_of_pair(l.waiting, session_id, monitor_id)->0;
    assert(is_first_of_pair(l.waiting, session_id, monitor_id, i));
    let next = l.waiting[i];
    lemma_ownership(l, slot);
    lemma_front_entry(l, slot);
    lemma_flip_consistent(l, session_id, monitor_id);
    lemma_filter_member(l.owned, slot_differs(slot), slot);
    assert(!n.owned.contains(slot));
    assert(l.waiting.contains(next));
    assert(next != slot) by {
        let a = choose|a: int| 0 <= a < l.front.len() && l.front[a] == slot;
        assert(!l.waiting.contains(l.front[a]));
    }
    let kept = l.front.filter(slot_outside(pair));
    lemma_push_member(kept, next, next);
    assert(n.front.contains(next));
    lemma_front_entry(n, next);
}

/// Linking framebuffers anew hands both slots of the pair back to the
/// client and leaves no request, no waiting slot and no front of the pair.
pub proof fn lemma_relink_resets(
    l: LedgerState,
    session_id: SessionId,
    monitor_id: MonitorId,
    buffer: BufferIndex,
)
    ensures
        ({
            let n = l.purge(Scope::Pair(session_id, monitor_id));
            let slot = SlotRef { session_id, monitor_id, buffer };
            &&& n.owner(slot) == BufferOwner::Client
            &&& !n.has_pending(slot)
            &&& !n.waiting.contains(slot)
            &&& first_of_pair(n.waiting, session_id, monitor_id) is None
            &&& n.front_of(session_id, monitor_id) is None
            &&& n.admission(slot) is Ok
        }),
{
    let pair = Scope::Pair(session_id, monitor_id);
    let n = l.purge(pair);
    let slot = SlotRef { session_id, monitor_id, buffer };
    lemma_filter_member(l.owned, slot_outside(pair), slot);
    lemma_filter_member(l.waiting, slot_outside(pair), slot);
    lemma_purge_leaves_none(l, pair);
    if first_request(n.pending, slot) is Some {
        let i = first_request(n.pending, slot)->0;
        assert(is_first_request(n.pending, slot, i));
    }
    if first_of_pair(n.waiting, session_id, monitor_id) is Some {
        let i = first_of_pair(n.waiting, session_id, monitor_id)->0;
        assert(is_first_of_pair(n.waiting, session_id, monitor_id, i));
    }
    if first_of_pair(n.front, session_id, monitor_id) is Some {
        let i = first_of_pair(n.front, session_id, monitor_id)->0;
        assert(is_first_of_pair(n.front, session_id, monitor_id, i));
    }
}

/// After a purge nothing under the scope is left anywhere in the ledger, and
/// what is left was there before.
pub proof fn lemma_purge_leaves_none(l: LedgerState, scope: Scope)
    ensures
        ({
            let n = l.purge(scope);
            &&& forall|i: int|
                0 <= i < n.pending.len() ==> !scope.covers(
                    (#[trigger] n.pending[i]).session_id,
                    n.pending[i].monitor_id,
                ) && l.pending.contains(n.pending[i])
            &&& forall|i: int|
                0 <= i < n.waiting.len() ==> !scope.covers(
                    (#[trigger] n.waiting[i]).session_id,
                    n.waiting[i].monitor_id,
                ) && l.waiting.contains(n.waiting[i])
            &&& forall|i: int|
                0 <= i < n.front.len() ==> !scope.covers(
                    (#[trigger] n.front[i]).session_id,
                    n.front[i].monitor_id,
                ) && l.front.contains(n.front[i])
            &&& forall|i: int|
                0 <= i < n.owned.len() ==> !scope.covers(
                    (#[trigger] n.owned[i]).session_id,
                    n.owned[i].monitor_id,
                ) && l.owned.contains(n.owned[i])
        }),
{
    let n = l.purge(scope);
    assert forall|i: int| 0 <= i < n.pending.len() implies !scope.covers(
        (#[trigger] n.pending[i]).session_id,
        n.pending[i].monitor_id,
    ) && l.pending.contains(n.pending[i]) by {
        l.pending.lemma_filter_pred(request_outside(scope), i);
        assert(n.pending.contains(n.pending[i]));
        l.pending.lemma_filter_contains_rev(request_outside(scope), n.pending[i]);
    }
    assert forall|i: int| 0 <= i < n.waiting.len() implies !scope.covers(
        (#[trigger] n.waiting[i]).session_id,
        n.waiting[i].monitor_id,
    ) && l.waiting.contains(n.waiting[i]) by {
        l.waiting.lemma_filter_pred(slot_outside(scope), i);
        assert(n.waiting.contains(n.waiting[i]));
        l.waiting.lemma_filter_contains_rev(slot_outside(scope), n.waiting[i]);
    }
    assert forall|i: int| 0 <= i < n.front.len() implies !scope.covers(
        (#[trigger] n.front[i]).session_id,
        n.front[i].monitor_id,
    ) && l.front.contains(n.front[i]) by {
        l.front.lemma_filter_pred(slot_outside(scope), i);
        assert(n.front.contains(n.front[i]));
        l.front.lemma_filter_contains_rev(slot_outside(scope), n.front[i]);
    }
    assert forall|i: int| 0 <= i < n.owned.len() implies !scope.covers(
        (#[trigger] n.owned[i]).session_id,
        n.owned[i].monitor_id,
    ) && l.owned.contains(n.owned[i]) by {
        l.owned.lemma_filter_pred(slot_outside(scope), i);
        assert(n.owned.contains(n.owned[i]));
        l.owned.lemma_filter_contains_rev(slot_outside(scope), n.owned[i]);
    }
}

} // verus!

verus! {

/// Where no request for a slot is in flight, an answer of the renderer for
/// it changes nothing.
pub proof fn lemma_unanswered(l: LedgerState, k: SlotRef)
    requires
        l.settled(k) is None,
    ensures
        l.ack(k) == l,
        l.reject(k) == l,
{
}

} // verus!

verus! {

impl LedgerState {
    /// Number of slots of the pair that the compositor owns: the accepted
    /// slots of the pair that were not handed back yet.
    pub open spec fn outstanding(self, session_id: SessionId, monitor_id: MonitorId) -> nat {
        let zero = SlotRef { session_id, monitor_id, buffer: BufferIndex::Zero };
        let one = SlotRef { session_id, monitor_id, buffer: BufferIndex::One };
        (if self.owned.contains(zero) {
            1nat
        } else {
            0nat
        }) + (if self.owned.contains(one) {
            1nat
        } else {
            0nat
        })
    }
}

/// Each acknowledgement adds one to the slots that the compositor owns of
/// the pair, each release takes one away, and nothing else but a purge
/// changes their number, which never exceeds the two slots there are: for
/// each pair, the acknowledgements exceed the releases by the number of
/// slots that the compositor owns of the pair.
pub proof fn lemma_acks_and_releases(
    l: LedgerState,
    k: SlotRef,
    client_id: ClientId,
    session_id: SessionId,
    monitor_id: MonitorId,
)
    requires
        l.consistent(),
    ensures
        l.outstanding(session_id, monitor_id) <= 2,
        l.request(client_id, k).outstanding(session_id, monitor_id) == l.outstanding(
            session_id,
            monitor_id,
        ),
        l.reject(k).outstanding(session_id, monitor_id) == l.outstanding(session_id, monitor_id),
        l.ack(k).outstanding(session_id, monitor_id) == l.outstanding(session_id, monitor_id) + (
        if l.settled(k) is Some && k.session_id == session_id && k.monitor_id == monitor_id {
            1nat
        } else {
            0nat
        }),
        l.flip(k.session_id, k.monitor_id).outstanding(session_id, monitor_id) + (if l.released(
            k.session_id,
            k.monitor_id,
        ) is Some && k.session_id == session_id && k.monitor_id == monitor_id {
            1nat
        } else {
            0nat
        }) == l.outstanding(session_id, monitor_id),
{
    let zero = SlotRef { session_id, monitor_id, buffer: BufferIndex::Zero };
    let one = SlotRef { session_id, monitor_id, buffer: BufferIndex::One };
    match first_request(l.pending, k) {
        None => {},
        Some(i) => {
            assert(is_first_request(l.pending, k, i));
            assert(l.pending[i].slot() == k);
            assert(!l.owned.contains(k));
            lemma_push_member(l.owned, k, zero);
            lemma_push_member(l.owned, k, one);
        },
    }
    match first_of_pair(l.waiting, k.session_id, k.monitor_id) {
        None => {},
        Some(i) => {
            match l.front_of(k.session_id, k.monitor_id) {
                Some(previous) => {
                    let old = SlotRef {
                        session_id: k.session_id,
                        monitor_id: k.monitor_id,
                        buffer: previous,
                    };
                    lemma_front_entry(l, old);
                    assert(l.owned.contains(old));
                    lemma_filter_member(l.owned, slot_differs(old), zero);
                    lemma_filter_member(l.owned, slot_differs(old), one);
                },
                None => {},
            }
        },
    }
}

} // verus!
