//! The protocol server of the first generation, without its sockets.
//!
//! The server keeps the clients, the session registry and the monitors.
//! What it has to say to clients comes back as a list of messages, each
//! with the client it is for; the caller sends them.

use crate::protocol::frame::TabMessageFrame;
use crate::protocol::message::TabMessage;
use crate::protocol::text::same_text;
use crate::protocol::{MonitorAddedPayload, MonitorInfo, MonitorRemovedPayload, SessionInfo, SessionLifecycle, SessionRole, SessionStatePayload};
use crate::registry::SessionRegistry;
use crate::tab_server::client::{
    copy_monitor_info, copy_session_info, handles, Client, Handled, ServerEvent,
};
use crate::tab_server::monitor::Monitor;
use crate::table::{lookup, put, without, Table};
use vstd::prelude::*;

verus! {

/// A switch between sessions that is under way.
#[derive(Debug, Clone, PartialEq, Eq)]
pub struct SessionTransitionState {
    last_switch_time: u64,
    animation: String,
    duration: u64,
    old_session_id: Option<String>,
}

impl SessionTransitionState {
    /// A transition that starts at `now` and lasts `duration` ticks.
    pub fn new(animation: String, duration: u64, old_session_id: Option<String>, now: u64) -> (r:
        SessionTransitionState)
        ensures
            r.spec_animation() == animation,
            r.spec_old_session_id() == old_session_id,
            r.started() == now,
            r.lasts() == duration,
    {
        SessionTransitionState { animation, old_session_id, duration, last_switch_time: now }
    }

    pub closed spec fn spec_animation(&self) -> String {
        self.animation
    }

    pub closed spec fn spec_old_session_id(&self) -> Option<String> {
        self.old_session_id
    }

    /// When the transition started.
    pub closed spec fn started(&self) -> u64 {
        self.last_switch_time
    }

    /// How long the transition lasts.
    pub closed spec fn lasts(&self) -> u64 {
        self.duration
    }

    pub fn animation(&self) -> (r: &str)
        ensures
            r@ == self.spec_animation()@,
    {
        self.animation.as_str()
    }

    pub fn old_session_id(&self) -> (r: Option<&str>)
        ensures
            match r {
                Some(id) => self.spec_old_session_id() matches Some(old) && id@ == old@,
                None => self.spec_old_session_id() is None,
            },
    {
        match &self.old_session_id {
            Some(id) => Some(id.as_str()),
            None => None,
        }
    }

    /// The ticks that have passed since the transition started, and the
    /// ticks that it lasts: their quotient, cut to the unit interval, is
    /// the progress of the transition.
    pub fn elapsed_of(&self, now: u64) -> (r: (u64, u64))
        ensures
            r.0 == if now >= self.started() {
                (now - self.started()) as u64
            } else {
                0
            },
            r.1 == self.lasts(),
    {
        let elapsed = if now >= self.last_switch_time {
            now - self.last_switch_time
        } else {
            0
        };
        (elapsed, self.duration)
    }

    /// Whether the transition has run its course.
    pub fn is_over(&self, now: u64) -> (r: bool)
        ensures
            r == (now >= self.started() && now - self.started() >= self.lasts()),
    {
        now >= self.last_switch_time && now - self.last_switch_time >= self.duration
    }
}

/// A message for a client.
#[derive(Debug, Clone, PartialEq, Eq)]
pub struct Outbound {
    pub client_id: String,
    pub message: TabMessage,
}

/// What is to be drawn on a monitor.
pub struct MonitorRenderSnapshot<'a, Texture> {
    pub monitor_id: &'a str,
    pub info: &'a MonitorInfo,
    pub active_texture: Option<&'a Texture>,
    pub previous_texture: Option<&'a Texture>,
}

/// The message for every authenticated client, in the order of the clients.
pub open spec fn to_authenticated(clients: Seq<Client>, message: TabMessage) -> Seq<Outbound>
    decreases clients.len(),
{
    if clients.len() == 0 {
        Seq::empty()
    } else {
        let rest = to_authenticated(clients.drop_last(), message);
        if clients.last().session.authenticated {
            rest.push(Outbound { client_id: clients.last().id, message })
        } else {
            rest
        }
    }
}

/// The message for every admin client but the one named, in the order of
/// the clients.
pub open spec fn to_admins(clients: Seq<Client>, message: TabMessage, but: Option<String>) -> Seq<
    Outbound,
>
    decreases clients.len(),
{
    if clients.len() == 0 {
        Seq::empty()
    } else {
        let rest = to_admins(clients.drop_last(), message, but);
        let c = clients.last();
        if c.session.role == Some(SessionRole::Admin) && !(but matches Some(skip) && skip@ == c.id@) {
            rest.push(Outbound { client_id: c.id, message })
        } else {
            rest
        }
    }
}

/// The first authenticated client that is bound to the session.
pub open spec fn client_of_session(clients: Seq<Client>, session_id: Seq<char>) -> Option<Client>
    decreases clients.len(),
{
    if clients.len() == 0 {
        None
    } else {
        let c = clients[0];
        if c.session.authenticated && (c.session.session_id matches Some(s) && s@ == session_id) {
            Some(c)
        } else {
            client_of_session(clients.drop_first(), session_id)
        }
    }
}

/// Headless protocol server that coordinates client sessions.
pub struct TabServer<Texture> {
    clients: Vec<Client>,
    sessions: SessionRegistry,
    monitors: Table<Monitor<Texture>>,
    current_session_id: Option<String>,
    transition_state: Option<SessionTransitionState>,
}

impl<Texture> TabServer<Texture> {
    /// The connected clients, in the order in which they are served.
    pub closed spec fn spec_clients(&self) -> Seq<Client> {
        self.clients@
    }

    /// The monitors.
    pub closed spec fn spec_monitors(&self) -> Seq<Monitor<Texture>> {
        self.monitors@
    }

    /// The session that is shown.
    pub closed spec fn spec_current(&self) -> Option<String> {
        self.current_session_id
    }

    /// The switch between sessions that is under way.
    pub closed spec fn spec_transition(&self) -> Option<SessionTransitionState> {
        self.transition_state
    }

    /// The session registry.
    pub closed spec fn spec_sessions(&self) -> SessionRegistry {
        self.sessions
    }

    /// What holds of every server: its registry is well formed.
    pub open spec fn well_formed(&self) -> bool {
        self.spec_sessions().well_formed()
    }

    /// The session that a switch under way leaves behind.
    pub open spec fn left_behind(&self) -> Option<String> {
        match self.spec_transition() {
            Some(t) => t.spec_old_session_id(),
            None => None,
        }
    }

    /// The monitor of an identity.
    pub open spec fn monitor(&self, monitor_id: Seq<char>) -> Option<Monitor<Texture>> {
        lookup(self.spec_monitors(), monitor_id)
    }

    /// A server without clients, sessions and monitors.
    pub fn new() -> (r: TabServer<Texture>)
        ensures
            r.well_formed(),
            r.spec_clients() == Seq::<Client>::empty(),
            r.spec_monitors() == Seq::<Monitor<Texture>>::empty(),
            r.spec_current() is None,
            r.spec_transition() is None,
    {
        TabServer {
            clients: Vec::new(),
            sessions: SessionRegistry::new(),
            monitors: Table::new(),
            current_session_id: None,
            transition_state: None,
        }
    }

    /// Connected clients.
    pub fn clients(&self) -> (r: &Vec<Client>)
        ensures
            r@ == self.spec_clients(),
    {
        &self.clients
    }

    /// The session registry.
    pub fn sessions(&self) -> (r: &SessionRegistry)
        ensures
            *r == self.spec_sessions(),
    {
        &self.sessions
    }

    /// The session that is shown.
    pub fn current_session_id(&self) -> (r: Option<&str>)
        ensures
            match r {
                Some(id) => self.spec_current() matches Some(c) && id@ == c@,
                None => self.spec_current() is None,
            },
    {
        match &self.current_session_id {
            Some(id) => Some(id.as_str()),
            None => None,
        }
    }

    /// The switch between sessions that is under way.
    pub fn transition(&self) -> (r: &Option<SessionTransitionState>)
        ensures
            *r == self.spec_transition(),
    {
        &self.transition_state
    }

    /// A client connected.
    pub fn add_client(&mut self, client: Client)
        ensures
            final(self).spec_clients() == old(self).spec_clients().push(client),
            final(self).spec_monitors() == old(self).spec_monitors(),
            final(self).spec_current() == old(self).spec_current(),
            final(self).spec_transition() == old(self).spec_transition(),
            final(self).spec_sessions() == old(self).spec_sessions(),
    {
        self.clients.push(client);
    }

    /// Register a pending session and token pair waiting for a client.
    pub fn register_session(
        &mut self,
        session_id: String,
        token: String,
        role: SessionRole,
        display_name: Option<String>,
    )
        ensures
            final(self).spec_sessions()@ == old(self).spec_sessions()@.with_pending(
                session_id,
                token,
                role,
                display_name,
            ),
            old(self).well_formed() ==> final(self).well_formed(),
            final(self).spec_clients() == old(self).spec_clients(),
            final(self).spec_monitors() == old(self).spec_monitors(),
            final(self).spec_current() == old(self).spec_current(),
            final(self).spec_transition() == old(self).spec_transition(),
    {
        self.sessions.insert_pending(session_id, token, role, display_name);
    }

    /// What the clients are told of the monitors, in order.
    pub fn monitor_infos(&self) -> (r: Vec<MonitorInfo>)
        ensures
            r@ == infos(self.spec_monitors()),
    {
        let rows = self.monitors.rows();
        let mut out: Vec<MonitorInfo> = Vec::new();
        let mut i: usize = 0;
        while i < rows.len()
            invariant
                i <= rows.len(),
                out@.len() == i,
                forall|j: int| 0 <= j < i ==> #[trigger] out@[j] == rows@[j].spec_info(),
            decreases rows.len() - i,
        {
            out.push(copy_monitor_info(rows[i].info()));
            i += 1;
        }
        proof {
            assert(out@ =~= infos(self.spec_monitors()));
        }
        out
    }

    /// The message for every authenticated client.
    fn broadcast_monitor_added(&self, info: &MonitorInfo) -> (r: Vec<Outbound>)
        ensures
            r@ == to_authenticated(
                self.spec_clients(),
                TabMessage::MonitorAdded(MonitorAddedPayload { monitor: *info }),
            ),
    {
        let ghost message = TabMessage::MonitorAdded(MonitorAddedPayload { monitor: *info });
        let mut out: Vec<Outbound> = Vec::new();
        let mut i: usize = 0;
        proof {
            assert(self.clients@.take(0) =~= Seq::<Client>::empty());
        }
        while i < self.clients.len()
            invariant
                i <= self.clients.len(),
                message == TabMessage::MonitorAdded(MonitorAddedPayload { monitor: *info }),
                out@ == to_authenticated(self.clients@.take(i as int), message),
            decreases self.clients.len() - i,
        {
            proof {
                assert(self.clients@.take(i + 1).drop_last() =~= self.clients@.take(i as int));
            }
            if self.clients[i].session.authenticated {
                out.push(
                    Outbound {
                        client_id: self.clients[i].id.clone(),
                        message: TabMessage::MonitorAdded(
                            MonitorAddedPayload { monitor: copy_monitor_info(info) },
                        ),
                    },
                );
            }
            i += 1;
        }
        proof {
            assert(self.clients@.take(self.clients.len() as int) =~= self.clients@);
        }
        out
    }

    /// The message for every authenticated client.
    fn broadcast_monitor_removed(&self, info: &MonitorInfo) -> (r: Vec<Outbound>)
        ensures
            r@ == to_authenticated(
                self.spec_clients(),
                TabMessage::MonitorRemoved(
                    MonitorRemovedPayload { monitor_id: info.id, name: info.name },
                ),
            ),
    {
        let ghost message = TabMessage::MonitorRemoved(
            MonitorRemovedPayload { monitor_id: info.id, name: info.name },
        );
        let mut out: Vec<Outbound> = Vec::new();
        let mut i: usize = 0;
        proof {
            assert(self.clients@.take(0) =~= Seq::<Client>::empty());
        }
        while i < self.clients.len()
            invariant
                i <= self.clients.len(),
                message == TabMessage::MonitorRemoved(
                    MonitorRemovedPayload { monitor_id: info.id, name: info.name },
                ),
                out@ == to_authenticated(self.clients@.take(i as int), message),
            decreases self.clients.len() - i,
        {
            proof {
                assert(self.clients@.take(i + 1).drop_last() =~= self.clients@.take(i as int));
            }
            if self.clients[i].session.authenticated {
                out.push(
                    Outbound {
                        client_id: self.clients[i].id.clone(),
                        message: TabMessage::MonitorRemoved(
                            MonitorRemovedPayload {
                                monitor_id: info.id.clone(),
                                name: info.name.clone(),
                            },
                        ),
                    },
                );
            }
            i += 1;
        }
        proof {
            assert(self.clients@.take(self.clients.len() as int) =~= self.clients@);
        }
        out
    }

    /// The state of a session for every admin client but the one named.
    fn broadcast_session_state(&self, session: &SessionInfo, exclude_client_id: &Option<String>) -> (r:
        Vec<Outbound>)
        ensures
            r@ == to_admins(
                self.spec_clients(),
                TabMessage::SessionState(SessionStatePayload { session: *session }),
                *exclude_client_id,
            ),
    {
        let ghost message = TabMessage::SessionState(SessionStatePayload { session: *session });
        let mut out: Vec<Outbound> = Vec::new();
        let mut i: usize = 0;
        proof {
            assert(self.clients@.take(0) =~= Seq::<Client>::empty());
        }
        while i < self.clients.len()
            invariant
                i <= self.clients.len(),
                message == TabMessage::SessionState(SessionStatePayload { session: *session }),
                out@ == to_admins(self.clients@.take(i as int), message, *exclude_client_id),
            decreases self.clients.len() - i,
        {
            proof {
                assert(self.clients@.take(i + 1).drop_last() =~= self.clients@.take(i as int));
            }
            let c = &self.clients[i];
            let admin = match c.session.role {
                Some(SessionRole::Admin) => true,
                _ => false,
            };
            let skipped = match exclude_client_id {
                Some(skip) => same_text(skip.as_str(), c.id.as_str()),
                None => false,
            };
            if admin && !skipped {
                out.push(
                    Outbound {
                        client_id: c.id.clone(),
                        message: TabMessage::SessionState(
                            SessionStatePayload { session: copy_session_info(session) },
                        ),
                    },
                );
            }
            i += 1;
        }
        proof {
            assert(self.clients@.take(self.clients.len() as int) =~= self.clients@);
        }
        out
    }

    /// The first authenticated client that is bound to the session.
    fn find_client_of_session(&self, session_id: &str) -> (r: Option<&Client>)
        ensures
            match r {
                Some(c) => client_of_session(self.spec_clients(), session_id@) == Some(*c),
                None => client_of_session(self.spec_clients(), session_id@) is None,
            },
    {
        let mut i: usize = 0;
        proof {
            assert(self.clients@.skip(0) =~= self.clients@);
        }
        while i < self.clients.len()
            invariant
                i <= self.clients.len(),
                client_of_session(self.clients@, session_id@) == client_of_session(
                    self.clients@.skip(i as int),
                    session_id@,
                ),
            decreases self.clients.len() - i,
        {
            proof {
                assert(self.clients@.skip(i as int).drop_first() =~= self.clients@.skip(i + 1));
                assert(self.clients@.skip(i as int)[0] == self.clients@[i as int]);
            }
            let c = &self.clients[i];
            let bound = match &c.session.session_id {
                Some(s) => same_text(s.as_str(), session_id),
                None => false,
            };
            if c.session.authenticated && bound {
                return Some(c);
            }
            i += 1;
        }
        None
    }

    /// Takes note of a monitor.  A monitor that is new, or of which
    /// something new is known, is announced to every authenticated client;
    /// a monitor of which nothing new is said is not.
    pub fn register_monitor(&mut self, info: MonitorInfo) -> (r: Vec<Outbound>)
        ensures
            final(self).spec_clients() == old(self).spec_clients(),
            final(self).spec_current() == old(self).spec_current(),
            final(self).spec_transition() == old(self).spec_transition(),
            final(self).spec_sessions() == old(self).spec_sessions(),
            final(self).monitor(info.id@) matches Some(m) && m.spec_info().id@ == info.id@,
            match old(self).monitor(info.id@) {
                Some(known) => final(self).monitor(info.id@)->0.outputs() == known.outputs() && (
                if same_monitor(known.spec_info(), info) {
                    r@ == Seq::<Outbound>::empty() && final(self).spec_monitors() == old(self).spec_monitors()
                } else {
                    r@ == to_authenticated(
                        old(self).spec_clients(),
                        TabMessage::MonitorAdded(MonitorAddedPayload { monitor: info }),
                    ) && final(self).monitor(info.id@)->0.spec_info() == info
                }),
                None => r@ == to_authenticated(
                    old(self).spec_clients(),
                    TabMessage::MonitorAdded(MonitorAddedPayload { monitor: info }),
                ) && final(self).monitor(info.id@)->0.spec_info() == info && final(self).monitor(
                    info.id@,
                )->0.outputs() == Seq::<crate::tab_server::monitor::OutputEntry<Texture>>::empty(),
            },
            forall|other: Seq<char>|
                other != info.id@ ==> #[trigger] final(self).monitor(other) == old(self).monitor(
                    other,
                ),
    {
        let key = info.id.clone();
        proof {
            crate::table::lemma_position_found(self.monitors@, key@);
        }
        let changed = match self.monitors.get(&key) {
            Some(existing) => !infos_agree(existing.info(), &info),
            None => true,
        };
        if !changed {
            return Vec::new();
        }
        let monitor = match self.monitors.take(&key) {
            Some(mut existing) => {
                proof {
                    existing.lemma_key();
                }
                existing.update_info(copy_monitor_info(&info));
                existing
            },
            None => Monitor::new(copy_monitor_info(&info)),
        };
        proof {
            monitor.lemma_key();
            crate::table::lemma_put_lookup(self.monitors@, monitor);
            assert forall|other: Seq<char>| other != info.id@ implies lookup(
                put(self.monitors@, monitor),
                other,
            ) == lookup(old(self).monitors@, other) by {
                crate::table::lemma_other_rows(self.monitors@, monitor, other, other);
                crate::table::lemma_other_rows(old(self).monitors@, monitor, info.id@, other);
            }
        }
        self.monitors.put(monitor);
        self.broadcast_monitor_added(&info)
    }

    /// Forgets a monitor and tells every authenticated client; nothing
    /// happens where the monitor is not known.
    pub fn remove_monitor(&mut self, id: &String) -> (r: Vec<Outbound>)
        ensures
            final(self).spec_clients() == old(self).spec_clients(),
            final(self).spec_current() == old(self).spec_current(),
            final(self).spec_transition() == old(self).spec_transition(),
            final(self).spec_sessions() == old(self).spec_sessions(),
            final(self).spec_monitors() == without(old(self).spec_monitors(), id@),
            match old(self).monitor(id@) {
                Some(known) => r@ == to_authenticated(
                    old(self).spec_clients(),
                    TabMessage::MonitorRemoved(
                        MonitorRemovedPayload {
                            monitor_id: known.spec_info().id,
                            name: known.spec_info().name,
                        },
                    ),
                ),
                None => r@ == Seq::<Outbound>::empty(),
            },
    {
        match self.monitors.take(id) {
            Some(monitor) => self.broadcast_monitor_removed(monitor.info()),
            None => Vec::new(),
        }
    }

    /// The texture that a session presents on a monitor.
    pub fn monitor_texture(&self, monitor_id: &String, session_id: &String) -> (r: Option<&Texture>)
        ensures
            match r {
                Some(t) => self.monitor(monitor_id@) matches Some(m) && (m.output_of(
                    session_id@,
                ) matches Some(o) && o.shown() == Some(*t)),
                None => self.monitor(monitor_id@) is None || self.monitor(monitor_id@)->0.output_of(
                    session_id@,
                ) is None || self.monitor(monitor_id@)->0.output_of(session_id@)->0.shown() is None,
            },
    {
        match self.monitors.get(monitor_id) {
            Some(monitor) => monitor.current_buffer_for_session(session_id),
            None => None,
        }
    }

    /// What is to be drawn on each monitor: the texture of the session
    /// that is shown, and that of the session that was shown before where
    /// a switch is under way.
    pub fn render_snapshot(&self) -> (r: Vec<MonitorRenderSnapshot<'_, Texture>>)
        ensures
            r@.len() == self.spec_monitors().len(),
            forall|i: int|
                0 <= i < r@.len() ==> {
                    let monitor = self.spec_monitors()[i];
                    &&& *(#[trigger] r@[i]).info == monitor.spec_info()
                    &&& r@[i].monitor_id@ == monitor.spec_info().id@
                    &&& is_texture(r@[i].active_texture, presented(monitor, self.spec_current()))
                    &&& is_texture(r@[i].previous_texture, presented(monitor, self.left_behind()))
                },
    {
        let rows = self.monitors.rows();
        let mut out: Vec<MonitorRenderSnapshot<'_, Texture>> = Vec::new();
        let mut i: usize = 0;
        while i < rows.len()
            invariant
                i <= rows.len(),
                rows@ == self.monitors@,
                out@.len() == i,
                forall|j: int|
                    0 <= j < i ==> {
                        &&& *(#[trigger] out@[j]).info == rows@[j].spec_info()
                        &&& out@[j].monitor_id@ == rows@[j].spec_info().id@
                        &&& is_texture(
                            out@[j].active_texture,
                            presented(rows@[j], self.current_session_id),
                        )
                        &&& is_texture(out@[j].previous_texture, presented(rows@[j], self.left_behind()))
                    },
            decreases rows.len() - i,
        {
            let monitor = &rows[i];
            let active_texture = match &self.current_session_id {
                Some(session_id) => monitor.current_buffer_for_session(session_id),
                None => None,
            };
            let previous_texture = match &self.transition_state {
                Some(state) => match &state.old_session_id {
                    Some(session_id) => monitor.current_buffer_for_session(session_id),
                    None => None,
                },
                None => None,
            };
            out.push(
                MonitorRenderSnapshot {
                    monitor_id: monitor.info().id.as_str(),
                    info: monitor.info(),
                    active_texture,
                    previous_texture,
                },
            );
            i += 1;
        }
        out
    }

    /// Forgets the outputs of a session on every monitor.
    fn cleanup_session(&mut self, session_id: &String)
        ensures
            final(self).spec_clients() == old(self).spec_clients(),
            final(self).spec_current() == old(self).spec_current(),
            final(self).spec_transition() == old(self).spec_transition(),
            final(self).spec_sessions() == old(self).spec_sessions(),
            final(self).spec_monitors().len() == old(self).spec_monitors().len(),
            forall|i: int|
                0 <= i < old(self).spec_monitors().len() ==> (#[trigger] final(self).spec_monitors()[i]).spec_info() == old(self).spec_monitors()[i].spec_info()
                    && final(self).spec_monitors()[i].outputs() == without(
                    old(self).spec_monitors()[i].outputs(),
                    session_id@,
                ),
    {
        let mut table: Table<Monitor<Texture>> = Table::new();
        std::mem::swap(&mut table, &mut self.monitors);
        let mut rest = table.into_rows();
        let mut done: Vec<Monitor<Texture>> = Vec::new();
        let ghost before = rest@;
        while rest.len() > 0
            invariant
                done@.len() + rest@.len() == before.len(),
                rest@ == before.subrange(done@.len() as int, before.len() as int),
                forall|i: int|
                    0 <= i < done@.len() ==> (#[trigger] done@[i]).spec_info()
                        == before[i].spec_info() && done@[i].outputs() == without(
                        before[i].outputs(),
                        session_id@,
                    ),
                self.clients@ == old(self).clients@,
                self.current_session_id == old(self).current_session_id,
                self.transition_state == old(self).transition_state,
                self.sessions == old(self).sessions,
            decreases rest@.len(),
        {
            let mut monitor = rest.remove(0);
            monitor.remove_session(session_id);
            done.push(monitor);
            proof {
                assert(rest@ =~= before.subrange(done@.len() as int, before.len() as int));
            }
        }
        self.monitors = Table::from_rows(done);
    }

    /// Whether carrying out `event` at `now` takes the server from `before`
    /// to `after` and leaves `r` to be sent.
    pub open spec fn dispatches(
        before: TabServer<Texture>,
        event: ServerEvent<Texture>,
        now: u64,
        after: TabServer<Texture>,
        r: Seq<Outbound>,
    ) -> bool {
        &&& after.spec_clients() == before.spec_clients()
        &&& after.spec_sessions() == before.spec_sessions()
        &&& match event {
                ServerEvent::SessionState { session, exclude_client_id } => r == to_admins(
                    before.spec_clients(),
                    TabMessage::SessionState(SessionStatePayload { session }),
                    exclude_client_id,
                ) && after.spec_monitors() == before.spec_monitors() && after.spec_current() == before.spec_current() && after.spec_transition()
                    == before.spec_transition(),
                ServerEvent::FramebufferLinked { monitor_id, session_id, buffers } => r
                    == Seq::<Outbound>::empty() && after.spec_current() == before.spec_current() && after.spec_transition() == before.spec_transition()
                    && (match before.monitor(monitor_id@) {
                    Some(m) => after.monitor(monitor_id@) matches Some(n) && (n.output_of(
                        session_id@,
                    ) matches Some(o) && o.buffers == buffers && o.current is None),
                    None => after.spec_monitors() == before.spec_monitors(),
                }),
                ServerEvent::SwapBuffers { session_id, payload } => r == Seq::<Outbound>::empty()
                    && after.spec_transition() == before.spec_transition() && (match before.monitor(payload.monitor_id@) {
                    Some(m) => match m.output_of(session_id@) {
                        Some(o) => (after.monitor(payload.monitor_id@) matches Some(n) && (
                        n.output_of(session_id@) matches Some(p) && p.state() == o.swapped(
                            payload.buffer,
                            now,
                        ))) && after.spec_current() == (if before.spec_current() is None {
                            Some(session_id)
                        } else {
                            before.spec_current()
                        }),
                        None => after.spec_current() == before.spec_current(),
                    },
                    None => after.spec_monitors() == before.spec_monitors() && after.spec_current() == before.spec_current(),
                }),
                ServerEvent::SessionSwitch(payload) => r == Seq::<Outbound>::empty() && after.spec_monitors() == before.spec_monitors() && after.spec_current()
                    == Some(payload.session_id) && (match payload.animation {
                    Some(animation) => after.spec_transition() matches Some(t)
                        && t.spec_animation() == animation && t.spec_old_session_id() == before.spec_current() && t.started() == now,
                    None => after.spec_transition() is None,
                }),
            }
    }

    /// Whether the server `before` answers a message of the client at
    /// position `index` with `r` and is `after` then: the client makes `h`
    /// of the message, which leaves the server as `mid`; its replies come
    /// first in `r`, and `out` is what its event, where there is one, asks
    /// for.
    pub open spec fn answers(
        before: TabServer<Texture>,
        index: int,
        message: TabMessage,
        loaded: Option<[Texture; 2]>,
        now: u64,
        mid: TabServer<Texture>,
        h: Handled<Texture>,
        out: Seq<Outbound>,
        after: TabServer<Texture>,
        r: Seq<Outbound>,
    ) -> bool {
        &&& mid.spec_clients() == before.spec_clients().update(index, mid.spec_clients()[index])
        &&& mid.spec_monitors() == before.spec_monitors()
        &&& mid.spec_current() == before.spec_current()
        &&& mid.spec_transition() == before.spec_transition()
        &&& handles(
            before.spec_clients()[index],
            before.spec_sessions()@,
            message,
            infos(before.spec_monitors()),
            loaded,
            mid.spec_clients()[index],
            mid.spec_sessions()@,
            h,
        )
        &&& r == addressed(before.spec_clients()[index].id, h.replies@) + out
        &&& if h.events@.len() == 0 {
            after == mid && out == Seq::<Outbound>::empty()
        } else {
            h.events@.len() == 1 && Self::dispatches(mid, h.events@[0], now, after, out)
        }
    }

    /// Carries out what a message of a client asks for.  `now` is the time
    /// of the swap or the switch.
    pub fn dispatch_event(&mut self, event: ServerEvent<Texture>, now: u64) -> (r: Vec<Outbound>)
        ensures
            Self::dispatches(*old(self), event, now, *final(self), r@),
    {
        match event {
            ServerEvent::SessionState { session, exclude_client_id } => {
                self.broadcast_session_state(&session, &exclude_client_id)
            },
            ServerEvent::FramebufferLinked { monitor_id, session_id, buffers } => {
                match self.monitors.take(&monitor_id) {
                    Some(mut monitor) => {
                        proof {
                            monitor.lemma_key();
                        }
                        monitor.framebuffer_link(session_id, buffers);
                        proof {
                            monitor.lemma_key();
                            crate::table::lemma_put_lookup(self.monitors@, monitor);
                        }
                        self.monitors.put(monitor);
                    },
                    None => {},
                }
                Vec::new()
            },
            ServerEvent::SwapBuffers { session_id, payload } => {
                match self.monitors.take(&payload.monitor_id) {
                    Some(mut monitor) => {
                        proof {
                            monitor.lemma_key();
                        }
                        let known = monitor.swap_buffers(&session_id, payload.buffer, now);
                        proof {
                            monitor.lemma_key();
                            crate::table::lemma_put_lookup(self.monitors@, monitor);
                        }
                        self.monitors.put(monitor);
                        if known && self.current_session_id.is_none() {
                            self.current_session_id = Some(session_id);
                        }
                    },
                    None => {},
                }
                Vec::new()
            },
            ServerEvent::SessionSwitch(payload) => {
                let previous = self.current_session_id.take();
                match payload.animation {
                    Some(animation) => {
                        self.transition_state = Some(
                            SessionTransitionState::new(
                                animation,
                                duration_ticks(payload.duration_secs, payload.duration_nanos),
                                previous,
                                now,
                            ),
                        );
                    },
                    None => {
                        self.transition_state = None;
                    },
                }
                self.current_session_id = Some(payload.session_id);
                Vec::new()
            },
        }
    }

    /// Whether the page flip of the session `frame.1` on the monitor
    /// `frame.0` takes the monitors from `before` to `after` and leaves
    /// `out` to be sent: the output of the session moves on, and where a
    /// page flip was outstanding, the first client of the session is told
    /// `frame_done` with the monitor.
    pub open spec fn presents(
        before: Seq<Monitor<Texture>>,
        clients: Seq<Client>,
        frame: (String, String),
        now: u64,
        after: Seq<Monitor<Texture>>,
        out: Seq<Outbound>,
    ) -> bool {
        &&& forall|other: Seq<char>|
            other != frame.0@ ==> #[trigger] lookup(after, other) == lookup(before, other)
        &&& match lookup(before, frame.0@) {
            None => lookup(after, frame.0@) is None && out.len() == 0,
            Some(m) => (lookup(after, frame.0@) matches Some(n) && n.spec_info() == m.spec_info()
                && (forall|other: Seq<char>|
                other != frame.1@ ==> #[trigger] n.output_of(other) == m.output_of(other)) && (
            match m.output_of(frame.1@) {
                None => n.output_of(frame.1@) is None && out.len() == 0,
                Some(o) => (n.output_of(frame.1@) matches Some(p) && p.state() == o.flipped()
                    && p.buffers == o.buffers) && (match client_of_session(clients, frame.1@) {
                    Some(c) => if o.pending_page_flip {
                        out.len() == 1 && out[0].client_id == c.id && is_frame_done(
                            out[0].message,
                            frame.0@,
                        )
                    } else {
                        out.len() == 0
                    },
                    None => out.len() == 0,
                }),
            })),
        }
    }

    /// Whether the page flips of `frames`, one after the other, take the
    /// monitors from `before` to `after` and leave `out` to be sent.
    pub open spec fn presents_all(
        before: Seq<Monitor<Texture>>,
        clients: Seq<Client>,
        frames: Seq<(String, String)>,
        now: u64,
        after: Seq<Monitor<Texture>>,
        out: Seq<Outbound>,
    ) -> bool
        decreases frames.len(),
    {
        if frames.len() == 0 {
            after == before && out.len() == 0
        } else {
            exists|mid: Seq<Monitor<Texture>>, n: int|
                0 <= n <= out.len() && Self::presents_all(
                    before,
                    clients,
                    frames.drop_last(),
                    now,
                    mid,
                    out.take(n),
                ) && #[trigger] Self::presents(mid, clients, frames.last(), now, after, out.skip(n))
        }
    }

    /// Tells the sessions whose frames were presented, and moves their
    /// outputs on: for each pair of a monitor and a session, in order, the
    /// output of the session on the monitor takes its page flip, and where
    /// one was outstanding, the first client of the session is told
    /// `frame_done` with the monitor.
    pub fn notify_frame_rendered(&mut self, frames: &Vec<(String, String)>, now: u64) -> (r: Vec<
        Outbound,
    >)
        ensures
            final(self).spec_clients() == old(self).spec_clients(),
            final(self).spec_current() == old(self).spec_current(),
            final(self).spec_transition() == old(self).spec_transition(),
            final(self).spec_sessions() == old(self).spec_sessions(),
            Self::presents_all(
                old(self).spec_monitors(),
                old(self).spec_clients(),
                frames@,
                now,
                final(self).spec_monitors(),
                r@,
            ),
    {
        let mut out: Vec<Outbound> = Vec::new();
        let mut i: usize = 0;
        let ghost clients = self.clients@;
        proof {
            assert(frames@.take(0).len() == 0);
        }
        while i < frames.len()
            invariant
                i <= frames.len(),
                self.clients@ == old(self).clients@,
                clients == self.clients@,
                self.current_session_id == old(self).current_session_id,
                self.transition_state == old(self).transition_state,
                self.sessions == old(self).sessions,
                Self::presents_all(
                    old(self).monitors@,
                    clients,
                    frames@.take(i as int),
                    now,
                    self.monitors@,
                    out@,
                ),
            decreases frames.len() - i,
        {
            let monitor_id = &frames[i].0;
            let session_id = &frames[i].1;
            let ghost mid = self.monitors@;
            let ghost first = out@;
            let flipped = match self.monitors.take(monitor_id) {
                Some(mut monitor) => {
                    let ghost taken = monitor;
                    proof {
                        monitor.lemma_key();
                    }
                    let latency = monitor.take_pending_page_flip(session_id, now);
                    proof {
                        monitor.lemma_key();
                        crate::table::lemma_put_lookup(self.monitors@, monitor);
                        assert forall|other: Seq<char>| other != monitor_id@ implies lookup(
                            put(self.monitors@, monitor),
                            other,
                        ) == lookup(mid, other) by {
                            crate::table::lemma_other_rows(self.monitors@, monitor, other, other);
                            crate::table::lemma_other_rows(mid, monitor, monitor_id@, other);
                        }
                    }
                    self.monitors.put(monitor);
                    latency.is_some()
                },
                None => false,
            };
            if flipped {
                match self.find_client_of_session(session_id.as_str()) {
                    Some(client) => {
                        let message = TabMessage::Unknown(
                            TabMessageFrame::raw("frame_done", monitor_id.as_str()),
                        );
                        out.push(Outbound { client_id: client.id.clone(), message });
                    },
                    None => {},
                }
            }
            proof {
                let sofar = frames@.take(i + 1);
                let n = first.len() as int;
                assert(sofar.drop_last() =~= frames@.take(i as int));
                assert(sofar.last() == frames@[i as int]);
                assert(out@.take(n) =~= first);
                assert(Self::presents(mid, clients, sofar.last(), now, self.monitors@, out@.skip(n)));
            }
            i += 1;
        }
        proof {
            assert(frames@.take(frames.len() as int) =~= frames@);
        }
        out
    }

    /// Handles a message of the client at position `index`: what the client
    /// makes of it, and what the event that comes of it asks for.  The
    /// replies to the client come first.
    pub fn handle_client_message(
        &mut self,
        index: usize,
        message: TabMessage,
        loaded: Option<[Texture; 2]>,
        now: u64,
    ) -> (r: Vec<Outbound>)
        requires
            index < old(self).spec_clients().len(),
            old(self).well_formed(),
        ensures
            final(self).well_formed(),
            final(self).spec_clients().len() == old(self).spec_clients().len(),
            forall|i: int|
                0 <= i < final(self).spec_clients().len() && i != index ==> #[trigger] final(self).spec_clients()[i] == old(self).spec_clients()[i],
            exists|mid: TabServer<Texture>, h: Handled<Texture>, out: Seq<Outbound>| #[trigger]
                Self::answers(
                    *old(self),
                    index as int,
                    message,
                    loaded,
                    now,
                    mid,
                    h,
                    out,
                    *final(self),
                    r@,
                ),
    {
        let monitors = self.monitor_infos();
        proof {
            assert(monitors@ =~= infos(self.spec_monitors()));
        }
        let mut client = self.clients.remove(index);
        let handled = client.handle_message(message, &mut self.sessions, &monitors, loaded);
        let client_id = client.id.clone();
        self.clients.insert(index, client);
        let ghost mid = *self;
        let ghost h = handled;
        proof {
            assert(mid.spec_clients() =~= old(self).spec_clients().update(
                index as int,
                mid.spec_clients()[index as int],
            ));
        }
        let Handled { events, replies } = handled;
        let mut out: Vec<Outbound> = Vec::new();
        let mut replies = replies;
        let ghost said = replies@;
        while replies.len() > 0
            invariant
                out@.len() + replies@.len() == said.len(),
                replies@ == said.subrange(out@.len() as int, said.len() as int),
                forall|i: int|
                    0 <= i < out@.len() ==> #[trigger] out@[i] == (Outbound {
                        client_id,
                        message: said[i],
                    }),
            decreases replies.len(),
        {
            let message = replies.remove(0);
            out.push(Outbound { client_id: client_id.clone(), message });
            proof {
                assert(replies@ =~= said.subrange(out@.len() as int, said.len() as int));
            }
        }
        proof {
            assert(out@ =~= addressed(client_id, said));
        }
        let mut events = events;
        let ghost first = out@;
        match events.pop() {
            Some(event) => {
                let mut more = self.dispatch_event(event, now);
                let ghost asked = more@;
                out.append(&mut more);
                proof {
                    assert(out@ =~= first + asked);
                    assert(Self::answers(
                        *old(self),
                        index as int,
                        message,
                        loaded,
                        now,
                        mid,
                        h,
                        asked,
                        *self,
                        out@,
                    ));
                }
            },
            None => {
                proof {
                    assert(out@ =~= first + Seq::<Outbound>::empty());
                    assert(Self::answers(
                        *old(self),
                        index as int,
                        message,
                        loaded,
                        now,
                        mid,
                        h,
                        Seq::<Outbound>::empty(),
                        *self,
                        out@,
                    ));
                }
            },
        }
        out
    }

    /// Drops the client at position `index` after its connection failed:
    /// the outputs of its session are forgotten, the session is consumed,
    /// and the admin clients, the dropped one among them, are told.  The
    /// last client takes its place.
    pub fn drop_client(&mut self, index: usize) -> (r: Vec<Outbound>)
        requires
            index < old(self).spec_clients().len(),
        ensures
            old(self).well_formed() ==> final(self).well_formed(),
            final(self).spec_clients() == old(self).spec_clients().update(
                index as int,
                old(self).spec_clients().last(),
            ).drop_last(),
            final(self).spec_current() == old(self).spec_current(),
            final(self).spec_transition() == old(self).spec_transition(),
            match old(self).spec_clients()[index as int].session.session_id {
                Some(session_id) => {
                    &&& final(self).spec_sessions()@ == old(self).spec_sessions()@.with_state(
                        session_id@,
                        SessionLifecycle::Consumed,
                    )
                    &&& final(self).spec_monitors().len() == old(self).spec_monitors().len()
                    &&& forall|i: int|
                        0 <= i < old(self).spec_monitors().len() ==> (#[trigger] final(self).spec_monitors()[i]).spec_info() == old(self).spec_monitors()[i].spec_info()
                            && final(self).spec_monitors()[i].outputs() == without(
                            old(self).spec_monitors()[i].outputs(),
                            session_id@,
                        )
                    &&& if old(self).spec_sessions()@.sessions.contains_key(session_id@) {
                        exists|info: SessionInfo| #[trigger]
                            final(self).spec_sessions()@.sessions[session_id@].told(info) && r@
                                == to_admins(
                                old(self).spec_clients(),
                                TabMessage::SessionState(SessionStatePayload { session: info }),
                                None,
                            )
                    } else {
                        r@ == Seq::<Outbound>::empty()
                    }
                },
                None => final(self).spec_sessions() == old(self).spec_sessions() && r@
                    == Seq::<Outbound>::empty() && final(self).spec_monitors() == old(self).spec_monitors(),
            },
    {
        let mut out: Vec<Outbound> = Vec::new();
        let session_id = match &self.clients[index].session.session_id {
            Some(id) => Some(id.clone()),
            None => None,
        };
        match session_id {
            Some(session_id) => {
                self.cleanup_session(&session_id);
                match self.sessions.mark_consumed(session_id.as_str()) {
                    Some(info) => {
                        out = self.broadcast_session_state(&info, &None);
                        proof {
                            assert(self.sessions@.sessions[session_id@].told(info));
                        }
                    },
                    None => {},
                }
            },
            None => {},
        }
        let ghost told = self.sessions;
        self.clients.swap_remove(index);
        proof {
            match old(self).spec_clients()[index as int].session.session_id {
                Some(id) => {
                    assert(self.spec_sessions()@ == old(self).spec_sessions()@.with_state(
                        id@,
                        SessionLifecycle::Consumed,
                    ));
                    assert forall|i: int| 0 <= i < old(self).spec_monitors().len() implies (
                    #[trigger] self.spec_monitors()[i]).spec_info() == old(self).spec_monitors()[i].spec_info() && self.spec_monitors()[i].outputs()
                        == without(old(self).spec_monitors()[i].outputs(), id@) by {}
                    if old(self).spec_sessions()@.sessions.contains_key(id@) {
                        assert(exists|info: SessionInfo| #[trigger]
                            told@.sessions[id@].told(info) && out@ == to_admins(
                                old(self).spec_clients(),
                                TabMessage::SessionState(SessionStatePayload { session: info }),
                                None,
                            ));
                    }
                },
                None => {},
            }
        }
        out
    }
}

/// Whether a message says `frame_done` for the monitor.
pub open spec fn is_frame_done(m: TabMessage, monitor_id: Seq<char>) -> bool {
    m matches TabMessage::Unknown(f) && f@.header == "frame_done"@ && f@.payload == Some(monitor_id)
        && f@.fds.len() == 0
}

/// What the clients are told of the monitors, in order.
pub open spec fn infos<Texture>(monitors: Seq<Monitor<Texture>>) -> Seq<MonitorInfo> {
    Seq::new(monitors.len(), |i: int| monitors[i].spec_info())
}

/// The replies to a client, each with the client it is for.
pub open spec fn addressed(client_id: String, replies: Seq<TabMessage>) -> Seq<Outbound> {
    Seq::new(replies.len(), |i: int| Outbound { client_id, message: replies[i] })
}

/// The texture that a session presents on a monitor.
pub open spec fn presented<Texture>(monitor: Monitor<Texture>, session: Option<String>) -> Option<
    Texture,
> {
    match session {
        Some(id) => match monitor.output_of(id@) {
            Some(o) => o.shown(),
            None => None,
        },
        None => None,
    }
}

/// Whether what was borrowed is this texture.
pub open spec fn is_texture<Texture>(borrowed: Option<&Texture>, texture: Option<Texture>) -> bool {
    match borrowed {
        Some(t) => texture == Some(*t),
        None => texture is None,
    }
}

/// Whether two records say the same of a monitor.
pub open spec fn same_monitor(a: MonitorInfo, b: MonitorInfo) -> bool {
    &&& a.id@ == b.id@
    &&& a.width == b.width
    &&& a.height == b.height
    &&& a.refresh_rate == b.refresh_rate
    &&& a.name@ == b.name@
}

/// Whether two records say the same of a monitor.
pub fn infos_agree(a: &MonitorInfo, b: &MonitorInfo) -> (r: bool)
    ensures
        r == same_monitor(*a, *b),
{
    same_text(a.id.as_str(), b.id.as_str()) && a.width == b.width && a.height == b.height
        && a.refresh_rate == b.refresh_rate && same_text(a.name.as_str(), b.name.as_str())
}

/// A duration in nanoseconds, capped at what 64 bits hold.
pub fn duration_ticks(secs: u64, nanos: u32) -> (r: u64)
    ensures
        r == if secs * 1_000_000_000 + nanos > u64::MAX {
            u64::MAX
        } else {
            (secs * 1_000_000_000 + nanos) as u64
        },
{
    if secs > (u64::MAX - nanos as u64) / 1_000_000_000 {
        u64::MAX
    } else {
        secs * 1_000_000_000 + nanos as u64
    }
}

} // verus!
