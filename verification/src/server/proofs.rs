//! What always holds of the control plane.
//!
//! The ledger of the server is consistent in every state that the server
//! can reach; file descriptors that come in with a message leave with a
//! command to the render loop or are closed; a monitor that is reported
//! twice is announced once.

use crate::comms::{c2s_fds, render_cmd_fds, C2SMsg, RenderEvt, S2CView};
use crate::ids::{ClientId, MonitorId, SessionId, Token};
use crate::ledger::{BufferOwner, LedgerState, Scope, SlotRef};
use crate::ledger_proofs::{
    lemma_ack_consistent, lemma_answer_settles_once, lemma_empty_consistent,
    lemma_flip_consistent, lemma_purge_client_consistent, lemma_purge_consistent,
    lemma_reject_consistent, lemma_request_consistent,
};
use crate::monitor::Monitor;
use crate::protocol::BufferIndex;
use crate::server::model::{close_fence, flip_all, ActionView, ServerState, Step};
use crate::table::{lemma_put_lookup, lookup, put};
use vstd::prelude::*;

verus! {

/// The file descriptors that an action disposes of.
pub open spec fn action_fds(a: ActionView) -> Seq<i32> {
    match a {
        ActionView::Render(command) => render_cmd_fds(command),
        ActionView::Close(fd) => seq![fd],
        _ => Seq::empty(),
    }
}

/// The file descriptors that a list of actions disposes of, in order.
pub open spec fn all_fds(actions: Seq<ActionView>) -> Seq<i32>
    decreases actions.len(),
{
    if actions.len() == 0 {
        Seq::empty()
    } else {
        all_fds(actions.drop_last()) + action_fds(actions.last())
    }
}

/// The file descriptors of two lists of actions, one after the other.
pub proof fn lemma_all_fds_add(a: Seq<ActionView>, b: Seq<ActionView>)
    ensures
        all_fds(a + b) == all_fds(a) + all_fds(b),
    decreases b.len(),
{
    if b.len() == 0 {
        assert(a + b =~= a);
        assert(all_fds(a) + all_fds(b) =~= all_fds(a));
    } else {
        assert((a + b).drop_last() =~= a + b.drop_last());
        assert((a + b).last() == b.last());
        lemma_all_fds_add(a, b.drop_last());
        assert(all_fds(a + b) =~= all_fds(a) + all_fds(b));
    }
}

/// The file descriptors of a single action.
pub proof fn lemma_all_fds_one(a: ActionView)
    ensures
        all_fds(seq![a]) == action_fds(a),
{
    reveal_with_fuel(all_fds, 2);
    assert(seq![a].drop_last() =~= Seq::<ActionView>::empty());
    assert(seq![a].last() == a);
    assert(all_fds(seq![a]) =~= action_fds(a));
}

/// The file descriptors of a list of actions with one action before it.
pub proof fn lemma_all_fds_after(a: ActionView, rest: Seq<ActionView>)
    ensures
        all_fds(seq![a] + rest) == action_fds(a) + all_fds(rest),
{
    lemma_all_fds_add(seq![a], rest);
    lemma_all_fds_one(a);
}

/// Dropping a client disposes of no file descriptor.
pub proof fn lemma_disconnect_no_fds(s: ServerState, client_id: ClientId)
    ensures
        all_fds(s.disconnect(client_id).actions) == Seq::<i32>::empty(),
{
    let actions = s.disconnect(client_id).actions;
    match lookup(s.clients, client_id) {
        None => {},
        Some(client) => match client.session_id {
            None => {
                lemma_all_fds_one(actions[0]);
                assert(actions =~= seq![actions[0]]);
            },
            Some(session_id) => {
                let told = seq![actions[0], actions[1]];
                lemma_all_fds_after(actions[0], seq![actions[1]]);
                lemma_all_fds_one(actions[1]);
                assert(told =~= seq![actions[0]] + seq![actions[1]]);
                if s.current_session == Some(session_id) {
                    lemma_all_fds_add(told, seq![actions[2]]);
                    lemma_all_fds_one(actions[2]);
                    assert(actions =~= told + seq![actions[2]]);
                    assert(all_fds(actions) =~= Seq::<i32>::empty());
                } else {
                    assert(actions =~= told);
                    assert(all_fds(actions) =~= Seq::<i32>::empty());
                }
            },
        },
    }
}

/// Telling a client something, and dropping it where it cannot be reached,
/// disposes of the file descriptors that going on disposes of.
proof fn lemma_tell_or_drop_fds(
    s: ServerState,
    client: crate::server::model::ClientRecord,
    first: ActionView,
    go_on: Step,
)
    requires
        action_fds(first) == Seq::<i32>::empty(),
        all_fds(go_on.actions) == Seq::<i32>::empty(),
    ensures
        all_fds(s.tell_or_drop(client, first, go_on).actions) == Seq::<i32>::empty(),
{
    lemma_disconnect_no_fds(s, client.id);
    lemma_all_fds_after(first, go_on.actions);
    lemma_all_fds_after(first, s.disconnect(client.id).actions);
    assert(Seq::<i32>::empty() + Seq::<i32>::empty() =~= Seq::<i32>::empty());
}

/// The fence of a request that goes nowhere is closed.
proof fn lemma_close_fence_fds(first: ActionView, fence: Option<i32>)
    requires
        action_fds(first) == Seq::<i32>::empty(),
    ensures
        all_fds(close_fence(fence)) == close_fds(fence),
        all_fds(seq![first] + close_fence(fence)) == close_fds(fence),
{
    match fence {
        Some(fd) => {
            lemma_all_fds_one(ActionView::Close(fd));
        },
        None => {},
    }
    lemma_all_fds_after(first, close_fence(fence));
    assert(Seq::<i32>::empty() + close_fds(fence) =~= close_fds(fence));
}

/// The fence of a request as a list.
pub open spec fn close_fds(fence: Option<i32>) -> Seq<i32> {
    match fence {
        Some(fd) => seq![fd],
        None => Seq::empty(),
    }
}

/// Every file descriptor that comes in with a message of a client leaves
/// with a command to the render loop or is closed: none is lost, none is
/// disposed of twice.
pub proof fn lemma_fds_conserved(
    s: ServerState,
    client_id: ClientId,
    message: C2SMsg,
    token: Token,
    session_id: SessionId,
)
    ensures
        all_fds(s.client_message(client_id, message, token, session_id).actions) == c2s_fds(
            message,
        ),
{
    let step = s.client_message(client_id, message, token, session_id);
    match message {
        C2SMsg::Shutdown => {
            lemma_disconnect_no_fds(s, client_id);
        },
        C2SMsg::Auth(t) => {
            match lookup(s.pending_sessions, t) {
                None => {
                    if lookup(s.clients, client_id) is Some {
                        lemma_all_fds_one(step.actions[0]);
                        assert(step.actions =~= seq![step.actions[0]]);
                    }
                },
                Some(entry) => {
                    match lookup(s.clients, client_id) {
                        None => {},
                        Some(client) => {
                            let consumed = ServerState {
                                pending_sessions: crate::table::without(s.pending_sessions, t),
                                ..s
                            };
                            let session = entry.session.promoted();
                            let bound = ServerState {
                                clients: put(
                                    consumed.clients,
                                    crate::server::model::ClientRecord {
                                        session_id: Some(session.id),
                                        ..client
                                    },
                                ),
                                ..consumed
                            };
                            let active = ServerState {
                                active_sessions: put(bound.active_sessions, session),
                                ..bound
                            };
                            let welcome = ActionView::Notify {
                                client_id,
                                message: S2CView::BindToSession { session, monitors: s.monitors },
                            };
                            let go_on = if session.role == crate::sessions::Role::Admin
                                && s.current_session is None {
                                active.select(Some(session.id))
                            } else {
                                active.stay()
                            };
                            if session.role == crate::sessions::Role::Admin
                                && s.current_session is None {
                                lemma_all_fds_one(go_on.actions[0]);
                                assert(go_on.actions =~= seq![go_on.actions[0]]);
                            }
                            lemma_tell_or_drop_fds(bound, client, welcome, go_on);
                        },
                    }
                },
            }
        },
        C2SMsg::CreateSession(request) => {
            match lookup(s.clients, client_id) {
                None => {},
                Some(client) => match s.session_of(client) {
                    Some(own) if own.role == crate::sessions::Role::Admin => {
                        let session = crate::sessions::PendingSession {
                            id: session_id,
                            role: crate::sessions::Role::of_protocol(request.role),
                            display_name: request.display_name,
                        };
                        let filed = s.file_pending(token, session);
                        lemma_tell_or_drop_fds(
                            filed,
                            client,
                            ActionView::Notify {
                                client_id,
                                message: S2CView::SessionCreated(token, session),
                            },
                            filed.stay(),
                        );
                    },
                    _ => {
                        lemma_all_fds_one(step.actions[0]);
                        assert(step.actions =~= seq![step.actions[0]]);
                    },
                },
            }
        },
        C2SMsg::BufferRequest { monitor_id, buffer, acquire_fence } => {
            let refusal = crate::server::model::error_to(
                client_id,
                crate::comms::ErrorCode::Forbidden,
                None,
                false,
            );
            match lookup(s.clients, client_id) {
                None => {
                    lemma_close_fence_fds(refusal, acquire_fence);
                },
                Some(client) => match s.session_of(client) {
                    None => {
                        lemma_close_fence_fds(refusal, acquire_fence);
                    },
                    Some(session) => {
                        let slot = SlotRef { session_id: session.id, monitor_id, buffer };
                        match s.ledger.admission(slot) {
                            Ok(()) => {
                                if s.renderer_open {
                                    lemma_all_fds_one(step.actions[0]);
                                    assert(step.actions =~= seq![step.actions[0]]);
                                } else {
                                    lemma_close_fence_fds(step.actions[0], acquire_fence);
                                    assert(step.actions =~= seq![step.actions[0]] + close_fence(
                                        acquire_fence,
                                    ));
                                }
                            },
                            Err(_) => {
                                lemma_close_fence_fds(step.actions[0], acquire_fence);
                                assert(step.actions =~= seq![step.actions[0]] + close_fence(
                                    acquire_fence,
                                ));
                            },
                        }
                    },
                },
            }
        },
        C2SMsg::FramebufferLink { payload, dma_bufs } => {
            let a = ActionView::Close(dma_bufs@[0]);
            let b = ActionView::Close(dma_bufs@[1]);
            let closed = seq![a, b];
            lemma_all_fds_after(a, seq![b]);
            lemma_all_fds_one(b);
            assert(closed =~= seq![a] + seq![b]);
            assert(seq![dma_bufs@[0]] + seq![dma_bufs@[1]] =~= dma_bufs@);
            assert(all_fds(closed) == dma_bufs@);
            match lookup(s.clients, client_id) {
                None => {},
                Some(client) => {
                    if client.session_id is None || !s.renderer_open {
                        lemma_all_fds_after(step.actions[0], closed);
                        assert(step.actions =~= seq![step.actions[0]] + closed);
                        assert(Seq::<i32>::empty() + dma_bufs@ =~= dma_bufs@);
                    } else {
                        lemma_all_fds_one(step.actions[0]);
                        assert(step.actions =~= seq![step.actions[0]]);
                    }
                },
            }
        },
    }
}

/// A server that has seen nothing yet has a consistent ledger.
pub proof fn lemma_initial_consistent()
    ensures
        ServerState::initial().ledger.consistent(),
{
    lemma_empty_consistent();
}

/// Dropping a client keeps the ledger consistent.
pub proof fn lemma_disconnect_keeps(s: ServerState, client_id: ClientId)
    requires
        s.ledger.consistent(),
    ensures
        s.disconnect(client_id).state.ledger.consistent(),
{
    match lookup(s.clients, client_id) {
        None => {},
        Some(client) => match client.session_id {
            None => {},
            Some(session_id) => {
                lemma_purge_client_consistent(s.ledger, client_id, session_id);
            },
        },
    }
}

/// Whatever a client sends, the ledger stays consistent: in every state
/// that the server reaches, a slot is the compositor's exactly while it
/// waits for its page flip or is scanned out, and no slot has two requests
/// in flight.
pub proof fn lemma_client_message_keeps(
    s: ServerState,
    client_id: ClientId,
    message: C2SMsg,
    token: Token,
    session_id: SessionId,
)
    requires
        s.ledger.consistent(),
    ensures
        s.client_message(client_id, message, token, session_id).state.ledger.consistent(),
{
    match message {
        C2SMsg::Shutdown => {
            lemma_disconnect_keeps(s, client_id);
        },
        C2SMsg::Auth(t) => {
            match (lookup(s.pending_sessions, t), lookup(s.clients, client_id)) {
                (Some(entry), Some(client)) => {
                    let consumed = ServerState {
                        pending_sessions: crate::table::without(s.pending_sessions, t),
                        ..s
                    };
                    let session = entry.session.promoted();
                    let bound = ServerState {
                        clients: put(
                            consumed.clients,
                            crate::server::model::ClientRecord {
                                session_id: Some(session.id),
                                ..client
                            },
                        ),
                        ..consumed
                    };
                    lemma_disconnect_keeps(bound, client.id);
                },
                _ => {},
            }
        },
        C2SMsg::CreateSession(request) => {
            match lookup(s.clients, client_id) {
                None => {},
                Some(client) => {
                    let session = crate::sessions::PendingSession {
                        id: session_id,
                        role: crate::sessions::Role::of_protocol(request.role),
                        display_name: request.display_name,
                    };
                    lemma_disconnect_keeps(s.file_pending(token, session), client.id);
                },
            }
        },
        C2SMsg::BufferRequest { monitor_id, buffer, acquire_fence } => {
            match lookup(s.clients, client_id) {
                None => {},
                Some(client) => match s.session_of(client) {
                    None => {},
                    Some(session) => {
                        let slot = SlotRef { session_id: session.id, monitor_id, buffer };
                        if s.ledger.admission(slot) is Ok {
                            lemma_request_consistent(s.ledger, client_id, slot);
                        }
                    },
                },
            }
        },
        C2SMsg::FramebufferLink { payload, dma_bufs } => {
            match lookup(s.clients, client_id) {
                None => {},
                Some(client) => match client.session_id {
                    None => {},
                    Some(sid) => match crate::ids::id_value("mon_"@, payload.monitor_id@) {
                        None => {},
                        Some(m) => {
                            lemma_purge_consistent(s.ledger, Scope::Pair(sid, MonitorId(m)));
                        },
                    },
                },
            }
        },
    }
}

/// Flipping any number of monitors keeps the ledger consistent.
pub proof fn lemma_flip_all_keeps(l: LedgerState, session_id: SessionId, monitors: Seq<MonitorId>)
    requires
        l.consistent(),
    ensures
        flip_all(l, session_id, monitors).0.consistent(),
    decreases monitors.len(),
{
    if monitors.len() > 0 {
        lemma_flip_all_keeps(l, session_id, monitors.drop_last());
        lemma_flip_consistent(
            flip_all(l, session_id, monitors.drop_last()).0,
            session_id,
            monitors.last(),
        );
    }
}

/// Whatever the render loop reports, the ledger stays consistent.
pub proof fn lemma_render_event_keeps(s: ServerState, event: RenderEvt)
    requires
        s.ledger.consistent(),
    ensures
        s.render_event(event).state.ledger.consistent(),
{
    match event {
        RenderEvt::Started { monitors } => {},
        RenderEvt::MonitorOnline { monitor } => {},
        RenderEvt::MonitorOffline { monitor_id } => {
            lemma_purge_consistent(s.ledger, Scope::Monitor(monitor_id));
        },
        RenderEvt::FatalError { reason } => {},
        RenderEvt::PageFlip { monitors } => {
            match s.current_session {
                None => {},
                Some(active) => {
                    lemma_flip_all_keeps(s.ledger, active, monitors@);
                },
            }
        },
        RenderEvt::BufferRequestAck { session_id, monitor_id, buffer } => {
            let slot = SlotRef { session_id, monitor_id, buffer };
            lemma_ack_consistent(s.ledger, slot);
            match s.ledger.settled(slot) {
                None => {},
                Some(request) => {
                    let acked = ServerState {
                        ledger: s.ledger.ack(slot),
                        swap_buffers_received: s.swap_buffers_received.saturating_add(1),
                        ..s
                    };
                    match lookup(s.clients, request.client_id) {
                        None => {},
                        Some(client) => {
                            lemma_disconnect_keeps(acked, client.id);
                        },
                    }
                },
            }
        },
        RenderEvt::BufferRequestRejected { session_id, monitor_id, buffer, reason } => {
            lemma_reject_consistent(s.ledger, SlotRef { session_id, monitor_id, buffer });
        },
    }
}

/// Connecting a client, and learning whether a client or the render loop
/// can still be reached, leave the ledger as it is.
pub proof fn lemma_bookkeeping_keeps(s: ServerState, client_id: ClientId, reachable: bool)
    ensures
        s.connect(client_id).ledger == s.ledger,
        s.reach(client_id, reachable).ledger == s.ledger,
{
}

/// An acknowledgement is told to a client only where a request for the slot
/// was in flight, and then that request is in flight no more: no request is
/// acknowledged twice.
pub proof fn lemma_ack_answers_request(s: ServerState, slot: SlotRef)
    requires
        s.ledger.consistent(),
    ensures
        s.ledger.settled(slot) is None ==> s.request_acked(slot) == s.stay(),
        !s.request_acked(slot).state.ledger.has_pending(slot),
        s.request_acked(slot).actions.len() > 0 ==> s.ledger.has_pending(slot)
            && s.request_acked(slot).actions[0] == (ActionView::Notify {
            client_id: s.ledger.settled(slot)->0.client_id,
            message: S2CView::BufferRequestAck { monitor_id: slot.monitor_id, buffer: slot.buffer },
        }),
{
    lemma_answer_settles_once(s.ledger, slot);
    match s.ledger.settled(slot) {
        None => {},
        Some(request) => {
            let acked = ServerState {
                ledger: s.ledger.ack(slot),
                swap_buffers_received: s.swap_buffers_received.saturating_add(1),
                ..s
            };
            crate::table::lemma_position_found(s.clients, request.client_id);
            match lookup(s.clients, request.client_id) {
                None => {},
                Some(client) => {
                    lemma_disconnect_forgets(acked, client.id, slot);
                },
            }
        },
    }
}

/// Dropping a client brings no request in flight.
pub proof fn lemma_disconnect_forgets(s: ServerState, client_id: ClientId, slot: SlotRef)
    requires
        !s.ledger.has_pending(slot),
    ensures
        !s.disconnect(client_id).state.ledger.has_pending(slot),
{
    match lookup(s.clients, client_id) {
        None => {},
        Some(client) => match client.session_id {
            None => {},
            Some(session_id) => {
                let kept = s.ledger.pending.filter(
                    crate::ledger::request_outlives(client_id, session_id),
                );
                if crate::ledger::first_request(kept, slot) is Some {
                    let i = crate::ledger::first_request(kept, slot)->0;
                    assert(crate::ledger::is_first_request(kept, slot, i));
                    assert(kept.contains(kept[i]));
                    s.ledger.pending.lemma_filter_contains_rev(
                        crate::ledger::request_outlives(client_id, session_id),
                        kept[i],
                    );
                    let j = choose|j: int|
                        0 <= j < s.ledger.pending.len() && s.ledger.pending[j] == kept[i];
                    crate::ledger_proofs::lemma_some_request(s.ledger.pending, slot, j);
                }
            },
        },
    }
}

/// A monitor that is reported again with nothing new changes nothing and
/// is announced to nobody.
pub proof fn lemma_repeated_monitor_is_silent(s: ServerState, monitor: Monitor, again: Monitor)
    requires
        again.same_info(monitor),
    ensures
        s.monitor_online(monitor).state.monitor_online(again) == s.monitor_online(
            monitor,
        ).state.stay(),
{
    let after = s.monitor_online(monitor).state;
    match lookup(s.monitors, monitor.id) {
        Some(known) if known.same_info(monitor) => {},
        _ => {
            lemma_put_lookup(s.monitors, monitor);
        },
    }
}

/// After framebuffers were linked anew, both slots of the pair are the
/// client's, and no request, no waiting slot and no front of the pair is
/// left.
pub proof fn lemma_relink_resets_pair(
    s: ServerState,
    client_id: ClientId,
    payload: crate::protocol::FramebufferLinkPayload,
    dma_bufs: [i32; 2],
    buffer: BufferIndex,
)
    requires
        lookup(s.clients, client_id) is Some,
        lookup(s.clients, client_id)->0.session_id is Some,
        s.renderer_open,
        crate::ids::id_value("mon_"@, payload.monitor_id@) is Some,
    ensures
        ({
            let session_id = lookup(s.clients, client_id)->0.session_id->0;
            let monitor_id = MonitorId(crate::ids::id_value("mon_"@, payload.monitor_id@)->0);
            let after = s.framebuffer_link(client_id, payload, dma_bufs).state.ledger;
            let slot = SlotRef { session_id, monitor_id, buffer };
            &&& after.owner(slot) == BufferOwner::Client
            &&& !after.has_pending(slot)
            &&& !after.waiting.contains(slot)
            &&& after.front_of(session_id, monitor_id) is None
        }),
{
    let session_id = lookup(s.clients, client_id)->0.session_id->0;
    let monitor_id = MonitorId(crate::ids::id_value("mon_"@, payload.monitor_id@)->0);
    crate::ledger_proofs::lemma_relink_resets(s.ledger, session_id, monitor_id, buffer);
}

/// What can happen to the control plane.
pub enum Input {
    /// A client connected.
    Connected(ClientId),
    /// The caller learned whether a client can still be reached.
    Reachable(ClientId, bool),
    /// The caller learned whether the render loop can still be reached.
    RendererOpen(bool),
    /// A pending session was filed under a token.
    Pending(Token, crate::sessions::PendingSession),
    /// A client task sent a message; the token and the session identity
    /// are the fresh ones that were drawn for it.
    Client { client_id: ClientId, message: C2SMsg, token: Token, session_id: SessionId },
    /// The render loop reported an event.
    Render(RenderEvt),
    /// The statistics were read.
    Statistics,
}

impl ServerState {
    /// The state after one input.
    pub open spec fn next(self, input: Input) -> ServerState {
        match input {
            Input::Connected(client_id) => self.connect(client_id),
            Input::Reachable(client_id, reachable) => self.reach(client_id, reachable),
            Input::RendererOpen(open) => ServerState { renderer_open: open, ..self },
            Input::Pending(token, session) => self.file_pending(token, session),
            Input::Client { client_id, message, token, session_id } => self.client_message(
                client_id,
                message,
                token,
                session_id,
            ).state,
            Input::Render(event) => self.render_event(event).state,
            Input::Statistics => ServerState {
                swap_buffers_received: 0,
                frame_done_emitted: 0,
                ..self
            },
        }
    }

    /// The state of a server that started fresh and saw the inputs, one
    /// after the other.
    pub open spec fn after(inputs: Seq<Input>) -> ServerState
        decreases inputs.len(),
    {
        if inputs.len() == 0 {
            ServerState::initial()
        } else {
            ServerState::after(inputs.drop_last()).next(inputs.last())
        }
    }
}

/// Whatever happens, in whatever order: in every state that the control
/// plane can reach, the compositor owns a slot exactly while the slot waits
/// for its page flip or is scanned out, a slot with a request in flight is
/// the client's, and no slot has two requests in flight.
pub proof fn lemma_always_consistent(inputs: Seq<Input>, slot: SlotRef, i: int, j: int)
    ensures
        ({
            let ledger = ServerState::after(inputs).ledger;
            &&& ledger.consistent()
            &&& ledger.owner(slot) == BufferOwner::Compositor <==> (ledger.waiting.contains(slot)
                || ledger.front_of(slot.session_id, slot.monitor_id) == Some(slot.buffer))
            &&& ledger.has_pending(slot) ==> ledger.owner(slot) == BufferOwner::Client
            &&& (0 <= i < ledger.pending.len() && 0 <= j < ledger.pending.len()
                && ledger.pending[i].slot() == ledger.pending[j].slot()) ==> i == j
            &&& ledger.outstanding(slot.session_id, slot.monitor_id) <= 2
        }),
    decreases inputs.len(),
{
    if inputs.len() == 0 {
        lemma_initial_consistent();
    } else {
        let before = ServerState::after(inputs.drop_last());
        lemma_always_consistent(inputs.drop_last(), slot, i, j);
        match inputs.last() {
            Input::Client { client_id, message, token, session_id } => {
                lemma_client_message_keeps(before, client_id, message, token, session_id);
            },
            Input::Render(event) => {
                lemma_render_event_keeps(before, event);
            },
            Input::Connected(client_id) => {
                lemma_bookkeeping_keeps(before, client_id, true);
            },
            Input::Reachable(client_id, reachable) => {
                lemma_bookkeeping_keeps(before, client_id, reachable);
            },
            _ => {},
        }
    }
    let ledger = ServerState::after(inputs).ledger;
    crate::ledger_proofs::lemma_ownership(ledger, slot);
    if 0 <= i < ledger.pending.len() && 0 <= j < ledger.pending.len() && ledger.pending[i].slot()
        == ledger.pending[j].slot() {
        crate::ledger_proofs::lemma_one_request_in_flight(ledger, i, j);
    }
}

} // verus!
