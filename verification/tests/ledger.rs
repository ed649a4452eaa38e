use shift::ids::{ClientId, MonitorId, SessionId};
use shift::ledger::{
    BufferLedger, BufferOwner, BufferRelease, PendingBufferRequest, RequestRefusal, Scope,
    SlotRef,
};
use shift::protocol::BufferIndex;

fn slot(session: u128, monitor: u128, buffer: BufferIndex) -> SlotRef {
    SlotRef { session_id: SessionId(session), monitor_id: MonitorId(monitor), buffer }
}

#[test]
fn empty_ledger_gives_every_slot_to_the_client() {
    let ledger = BufferLedger::new();
    assert_eq!(ledger.owner(slot(1, 1, BufferIndex::Zero)), BufferOwner::Client);
    assert_eq!(ledger.owner(slot(1, 1, BufferIndex::One)), BufferOwner::Client);
    assert!(!ledger.has_pending(slot(1, 1, BufferIndex::Zero)));
    assert_eq!(ledger.front_buffer(SessionId(1), MonitorId(1)), None);
    assert_eq!(ledger.pending_len(), 0);
    assert_eq!(ledger.waiting_len(), 0);
}

#[test]
fn request_in_flight_keeps_slot_with_client() {
    let mut ledger = BufferLedger::new();
    let k = slot(1, 1, BufferIndex::Zero);
    assert_eq!(ledger.check_request(k), Ok(()));
    ledger.record_request(ClientId(7), k);
    assert!(ledger.has_pending(k));
    assert_eq!(ledger.owner(k), BufferOwner::Client);
    assert_eq!(ledger.pending_len(), 1);
}

#[test]
fn second_request_for_same_slot_is_inflight() {
    let mut ledger = BufferLedger::new();
    let k = slot(1, 1, BufferIndex::Zero);
    ledger.record_request(ClientId(7), k);
    assert_eq!(ledger.check_request(k), Err(RequestRefusal::Inflight));
    // The other slot and other pairs are not affected.
    assert_eq!(ledger.check_request(slot(1, 1, BufferIndex::One)), Ok(()));
    assert_eq!(ledger.check_request(slot(2, 1, BufferIndex::Zero)), Ok(()));
    assert_eq!(ledger.check_request(slot(1, 2, BufferIndex::Zero)), Ok(()));
}

#[test]
fn acknowledge_moves_slot_to_compositor() {
    let mut ledger = BufferLedger::new();
    let k = slot(1, 1, BufferIndex::Zero);
    ledger.record_request(ClientId(7), k);
    let settled = ledger.acknowledge(k);
    assert_eq!(
        settled,
        Some(PendingBufferRequest {
            client_id: ClientId(7),
            session_id: SessionId(1),
            monitor_id: MonitorId(1),
            buffer: BufferIndex::Zero,
        })
    );
    assert_eq!(ledger.owner(k), BufferOwner::Compositor);
    assert!(!ledger.has_pending(k));
    assert_eq!(ledger.waiting_len(), 1);
    assert_eq!(ledger.check_request(k), Err(RequestRefusal::OwnershipViolation));
}

#[test]
fn acknowledge_without_request_changes_nothing() {
    let mut ledger = BufferLedger::new();
    let k = slot(1, 1, BufferIndex::Zero);
    assert_eq!(ledger.acknowledge(k), None);
    assert_eq!(ledger.owner(k), BufferOwner::Client);
    assert_eq!(ledger.waiting_len(), 0);
    // A second acknowledgement of one request finds nothing to settle.
    ledger.record_request(ClientId(7), k);
    assert!(ledger.acknowledge(k).is_some());
    assert_eq!(ledger.acknowledge(k), None);
    assert_eq!(ledger.waiting_len(), 1);
}

#[test]
fn reject_drops_request_and_leaves_slot_with_client() {
    let mut ledger = BufferLedger::new();
    let k = slot(1, 1, BufferIndex::One);
    ledger.record_request(ClientId(7), k);
    let settled = ledger.reject(k);
    assert_eq!(settled.map(|p| p.client_id), Some(ClientId(7)));
    assert_eq!(ledger.owner(k), BufferOwner::Client);
    assert_eq!(ledger.pending_len(), 0);
    assert_eq!(ledger.check_request(k), Ok(()));
    assert_eq!(ledger.reject(k), None);
}

#[test]
fn first_flip_releases_nothing_second_releases_old_front() {
    let mut ledger = BufferLedger::new();
    let zero = slot(1, 1, BufferIndex::Zero);
    let one = slot(1, 1, BufferIndex::One);
    ledger.record_request(ClientId(7), zero);
    ledger.acknowledge(zero);
    assert_eq!(ledger.page_flip(SessionId(1), MonitorId(1)), None);
    assert_eq!(ledger.front_buffer(SessionId(1), MonitorId(1)), Some(BufferIndex::Zero));
    assert_eq!(ledger.owner(zero), BufferOwner::Compositor);
    ledger.record_request(ClientId(7), one);
    ledger.acknowledge(one);
    assert_eq!(
        ledger.page_flip(SessionId(1), MonitorId(1)),
        Some(BufferRelease { monitor_id: MonitorId(1), buffer: BufferIndex::Zero })
    );
    assert_eq!(ledger.front_buffer(SessionId(1), MonitorId(1)), Some(BufferIndex::One));
    assert_eq!(ledger.owner(zero), BufferOwner::Client);
    assert_eq!(ledger.owner(one), BufferOwner::Compositor);
    assert_eq!(ledger.waiting_len(), 0);
}

#[test]
fn flip_without_waiting_slot_changes_nothing() {
    let mut ledger = BufferLedger::new();
    assert_eq!(ledger.page_flip(SessionId(1), MonitorId(1)), None);
    assert_eq!(ledger.front_buffer(SessionId(1), MonitorId(1)), None);
    // A waiting slot of another session does not flip for this one.
    let other = slot(2, 1, BufferIndex::Zero);
    ledger.record_request(ClientId(8), other);
    ledger.acknowledge(other);
    assert_eq!(ledger.page_flip(SessionId(1), MonitorId(1)), None);
    assert_eq!(ledger.waiting_len(), 1);
    assert_eq!(ledger.front_buffer(SessionId(2), MonitorId(1)), None);
}

#[test]
fn flips_take_waiting_slots_oldest_first() {
    let mut ledger = BufferLedger::new();
    let zero = slot(1, 1, BufferIndex::Zero);
    let one = slot(1, 1, BufferIndex::One);
    ledger.record_request(ClientId(7), one);
    ledger.record_request(ClientId(7), zero);
    ledger.acknowledge(one);
    ledger.acknowledge(zero);
    assert_eq!(ledger.waiting_len(), 2);
    assert_eq!(ledger.page_flip(SessionId(1), MonitorId(1)), None);
    assert_eq!(ledger.front_buffer(SessionId(1), MonitorId(1)), Some(BufferIndex::One));
    assert_eq!(
        ledger.page_flip(SessionId(1), MonitorId(1)),
        Some(BufferRelease { monitor_id: MonitorId(1), buffer: BufferIndex::One })
    );
    assert_eq!(ledger.front_buffer(SessionId(1), MonitorId(1)), Some(BufferIndex::Zero));
}

#[test]
fn relink_hands_both_slots_back() {
    let mut ledger = BufferLedger::new();
    let zero = slot(1, 1, BufferIndex::Zero);
    let one = slot(1, 1, BufferIndex::One);
    ledger.record_request(ClientId(7), zero);
    ledger.acknowledge(zero);
    ledger.page_flip(SessionId(1), MonitorId(1));
    ledger.record_request(ClientId(7), one);
    ledger.acknowledge(one);
    ledger.record_request(ClientId(9), slot(1, 2, BufferIndex::Zero));
    ledger.purge(Scope::Pair(SessionId(1), MonitorId(1)));
    assert_eq!(ledger.owner(zero), BufferOwner::Client);
    assert_eq!(ledger.owner(one), BufferOwner::Client);
    assert_eq!(ledger.front_buffer(SessionId(1), MonitorId(1)), None);
    assert_eq!(ledger.waiting_len(), 0);
    // The other monitor of the session keeps its request.
    assert_eq!(ledger.pending_len(), 1);
    assert!(ledger.has_pending(slot(1, 2, BufferIndex::Zero)));
    assert_eq!(ledger.check_request(zero), Ok(()));
}

#[test]
fn purge_monitor_spares_other_monitors() {
    let mut ledger = BufferLedger::new();
    for m in [1u128, 2u128] {
        let k = slot(1, m, BufferIndex::Zero);
        ledger.record_request(ClientId(7), k);
        ledger.acknowledge(k);
        ledger.page_flip(SessionId(1), MonitorId(m));
    }
    ledger.purge(Scope::Monitor(MonitorId(1)));
    assert_eq!(ledger.front_buffer(SessionId(1), MonitorId(1)), None);
    assert_eq!(ledger.owner(slot(1, 1, BufferIndex::Zero)), BufferOwner::Client);
    assert_eq!(ledger.front_buffer(SessionId(1), MonitorId(2)), Some(BufferIndex::Zero));
    assert_eq!(ledger.owner(slot(1, 2, BufferIndex::Zero)), BufferOwner::Compositor);
}

#[test]
fn purge_client_drops_requests_of_client_and_of_session() {
    let mut ledger = BufferLedger::new();
    ledger.record_request(ClientId(7), slot(1, 1, BufferIndex::Zero));
    ledger.record_request(ClientId(8), slot(1, 1, BufferIndex::One));
    ledger.record_request(ClientId(7), slot(2, 1, BufferIndex::Zero));
    ledger.record_request(ClientId(8), slot(2, 1, BufferIndex::One));
    ledger.purge_client(ClientId(7), SessionId(1));
    // Only the request of another client for another session is left.
    assert_eq!(ledger.pending_len(), 1);
    assert!(ledger.has_pending(slot(2, 1, BufferIndex::One)));
}

#[test]
fn compositor_owns_at_most_both_slots_of_a_pair() {
    let mut ledger = BufferLedger::new();
    let zero = slot(1, 1, BufferIndex::Zero);
    let one = slot(1, 1, BufferIndex::One);
    let owned = |l: &BufferLedger| {
        [zero, one].iter().filter(|k| l.owner(**k) == BufferOwner::Compositor).count()
    };
    let mut acks = 0usize;
    let mut releases = 0usize;
    ledger.record_request(ClientId(7), zero);
    if ledger.acknowledge(zero).is_some() {
        acks += 1;
    }
    assert_eq!(acks - releases, owned(&ledger));
    ledger.record_request(ClientId(7), one);
    if ledger.acknowledge(one).is_some() {
        acks += 1;
    }
    assert_eq!(acks - releases, 2);
    assert_eq!(acks - releases, owned(&ledger));
    if ledger.page_flip(SessionId(1), MonitorId(1)).is_some() {
        releases += 1;
    }
    assert_eq!(acks - releases, owned(&ledger));
    if ledger.page_flip(SessionId(1), MonitorId(1)).is_some() {
        releases += 1;
    }
    assert_eq!(acks - releases, 1);
    assert_eq!(acks - releases, owned(&ledger));
}
