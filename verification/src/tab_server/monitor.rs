//! A monitor and, for each session, the pair of buffers it presents there.
//!
//! A session swaps a buffer in; the swap is presented with the next page
//! flip.  Swaps that arrive while a page flip is outstanding wait in a
//! queue and are presented one per page flip, in the order they came.
//! Times are ticks of a clock of the caller's choice.

use crate::protocol::{BufferIndex, MonitorInfo};
use crate::protocol::text::same_text;
use crate::table::{lookup, put, without, Keyed, Table};
use vstd::prelude::*;

verus! {

/// The buffers of one session on one monitor.
pub struct Output<Texture> {
    pub buffers: [Texture; 2],
    /// The buffer that is presented, or about to be.
    pub current: Option<BufferIndex>,
    /// Swaps that wait for their turn, with the time they arrived.
    pub queue: Vec<(BufferIndex, u64)>,
    /// Whether the current buffer waits for its page flip.
    pub pending_page_flip: bool,
    /// When the current swap arrived.
    pub current_swap_started: Option<u64>,
}

impl<Texture> Output<Texture> {
    /// A fresh output: nothing presented, nothing waiting.
    pub fn new(buffers: [Texture; 2]) -> (r: Output<Texture>)
        ensures
            r.buffers == buffers,
            r.current is None,
            r.queue@ == Seq::<(BufferIndex, u64)>::empty(),
            !r.pending_page_flip,
            r.current_swap_started is None,
    {
        Output {
            buffers,
            current: None,
            queue: Vec::new(),
            pending_page_flip: false,
            current_swap_started: None,
        }
    }

    /// The texture of the current buffer.
    pub open spec fn shown(self) -> Option<Texture> {
        match self.current {
            Some(b) => Some(self.buffers@[b.index_of() as int]),
            None => None,
        }
    }

    /// The texture of the current buffer.
    pub fn borrow_current_texture(&self) -> (r: Option<&Texture>)
        ensures
            match r {
                Some(t) => self.shown() == Some(*t),
                None => self.shown() is None,
            },
    {
        match self.current {
            Some(BufferIndex::Zero) => Some(&self.buffers[0]),
            Some(BufferIndex::One) => Some(&self.buffers[1]),
            None => None,
        }
    }

    /// The output after a swap that arrived at `now`.
    pub open spec fn swapped(self, buffer: BufferIndex, now: u64) -> (
        Option<BufferIndex>,
        Seq<(BufferIndex, u64)>,
        bool,
        Option<u64>,
    ) {
        if !self.pending_page_flip && self.queue@.len() == 0 {
            (Some(buffer), self.queue@, true, Some(now))
        } else {
            (self.current, self.queue@.push((buffer, now)), self.pending_page_flip, self.current_swap_started)
        }
    }

    /// What the output holds beside its textures.
    pub open spec fn state(self) -> (
        Option<BufferIndex>,
        Seq<(BufferIndex, u64)>,
        bool,
        Option<u64>,
    ) {
        (self.current, self.queue@, self.pending_page_flip, self.current_swap_started)
    }

    /// A session swaps a buffer in: it is presented with the next page
    /// flip, or queued where a page flip is outstanding.
    pub fn swap(&mut self, buffer: BufferIndex, now: u64)
        ensures
            final(self).state() == old(self).swapped(buffer, now),
            final(self).buffers == old(self).buffers,
    {
        if !self.pending_page_flip && self.queue.len() == 0 {
            self.current = Some(buffer);
            self.current_swap_started = Some(now);
            self.pending_page_flip = true;
        } else {
            self.queue.push((buffer, now));
        }
    }

    /// The time that the page flip at `now` took, where one was
    /// outstanding.
    pub open spec fn latency(self, now: u64) -> Option<u64> {
        if self.pending_page_flip {
            Some(
                match self.current_swap_started {
                    Some(start) => if now >= start {
                        (now - start) as u64
                    } else {
                        0
                    },
                    None => 0,
                },
            )
        } else {
            None
        }
    }

    /// The output after the page flip.
    pub open spec fn flipped(self) -> (
        Option<BufferIndex>,
        Seq<(BufferIndex, u64)>,
        bool,
        Option<u64>,
    ) {
        if !self.pending_page_flip {
            self.state()
        } else if self.queue@.len() > 0 {
            (
                Some(self.queue@[0].0),
                self.queue@.subrange(1, self.queue@.len() as int),
                true,
                Some(self.queue@[0].1),
            )
        } else {
            (self.current, self.queue@, false, None)
        }
    }

    /// The page flip came: the current buffer is presented, and the swap
    /// that waited longest is next.  Returns how long the presented swap
    /// took; nothing where no page flip was outstanding.
    pub fn take_page_flip(&mut self, now: u64) -> (r: Option<u64>)
        ensures
            r == old(self).latency(now),
            final(self).state() == old(self).flipped(),
            final(self).buffers == old(self).buffers,
    {
        if !self.pending_page_flip {
            return None;
        }
        self.pending_page_flip = false;
        let latency = match self.current_swap_started {
            Some(start) => if now >= start {
                now - start
            } else {
                0
            },
            None => 0,
        };
        self.current_swap_started = None;
        if self.queue.len() > 0 {
            let (next, started) = self.queue.remove(0);
            proof {
                assert(self.queue@ =~= old(self).queue@.subrange(1, old(self).queue@.len() as int));
            }
            self.current = Some(next);
            self.current_swap_started = Some(started);
            self.pending_page_flip = true;
        }
        Some(latency)
    }
}

/// The output of a session.
pub struct OutputEntry<Texture> {
    pub session_id: String,
    pub output: Output<Texture>,
}

impl<Texture> Keyed for OutputEntry<Texture> {
    type Key = String;

    type Name = Seq<char>;

    open spec fn name_of(key: &String) -> Seq<char> {
        key@
    }

    open spec fn key(&self) -> Seq<char> {
        self.session_id@
    }

    fn id(&self) -> (r: String) {
        self.session_id.clone()
    }

    fn has_key(&self, key: &String) -> (r: bool) {
        same_text(self.session_id.as_str(), key.as_str())
    }
}

/// A monitor and the outputs of the sessions on it.
pub struct Monitor<Texture> {
    info: MonitorInfo,
    outputs: Table<OutputEntry<Texture>>,
}

impl<Texture> Monitor<Texture> {
    /// What the monitor is.
    pub closed spec fn spec_info(&self) -> MonitorInfo {
        self.info
    }

    /// The outputs of the sessions, each under the session's identity.
    pub closed spec fn outputs(&self) -> Seq<OutputEntry<Texture>> {
        self.outputs@
    }

    /// The output of a session.
    pub open spec fn output_of(&self, session_id: Seq<char>) -> Option<Output<Texture>> {
        match lookup(self.outputs(), session_id) {
            Some(e) => Some(e.output),
            None => None,
        }
    }

    /// A monitor without outputs.
    pub fn new(info: MonitorInfo) -> (r: Monitor<Texture>)
        ensures
            r.spec_info() == info,
            r.outputs() == Seq::<OutputEntry<Texture>>::empty(),
    {
        Monitor { info, outputs: Table::new() }
    }

    pub fn info(&self) -> (r: &MonitorInfo)
        ensures
            *r == self.spec_info(),
    {
        &self.info
    }

    pub fn update_info(&mut self, info: MonitorInfo)
        ensures
            final(self).spec_info() == info,
            final(self).outputs() == old(self).outputs(),
    {
        self.info = info;
    }

    /// Links the two buffers of a session, in the place of any earlier
    /// output of the session.
    pub fn framebuffer_link(&mut self, session_id: String, buffers: [Texture; 2])
        ensures
            final(self).spec_info() == old(self).spec_info(),
            final(self).output_of(session_id@) matches Some(o) && o.buffers == buffers
                && o.state() == (None::<BufferIndex>, Seq::<(BufferIndex, u64)>::empty(), false, None::<u64>),
            forall|other: Seq<char>|
                other != session_id@ ==> #[trigger] final(self).output_of(other) == old(self).output_of(other),
    {
        let entry = OutputEntry { session_id, output: Output::new(buffers) };
        proof {
            crate::table::lemma_put_lookup(self.outputs@, entry);
            assert forall|other: Seq<char>| other != session_id@ implies lookup(
                put(self.outputs@, entry),
                other,
            ) == lookup(self.outputs@, other) by {
                crate::table::lemma_other_rows(self.outputs@, entry, other, other);
            }
        }
        self.outputs.put(entry);
    }

    /// A session swaps a buffer in.  Says whether the session has an
    /// output on the monitor; without one nothing changes.
    pub fn swap_buffers(&mut self, session_id: &String, buffer: BufferIndex, now: u64) -> (r: bool)
        ensures
            r == old(self).output_of(session_id@) is Some,
            final(self).spec_info() == old(self).spec_info(),
            !r ==> final(self).outputs() == old(self).outputs(),
            r ==> (final(self).output_of(session_id@) matches Some(o) && o.state() == old(self).output_of(session_id@)->0.swapped(buffer, now)
                && o.buffers == old(self).output_of(session_id@)->0.buffers),
            forall|other: Seq<char>|
                other != session_id@ ==> #[trigger] final(self).output_of(other) == old(self).output_of(other),
    {
        let mut entry = match self.outputs.take(session_id) {
            Some(e) => e,
            None => {
                proof {
                    crate::table::lemma_position_found(old(self).outputs@, session_id@);
                }
                return false;
            },
        };
        entry.output.swap(buffer, now);
        proof {
            crate::table::lemma_put_lookup(self.outputs@, entry);
            assert forall|other: Seq<char>| other != session_id@ implies lookup(
                put(self.outputs@, entry),
                other,
            ) == lookup(old(self).outputs@, other) by {
                crate::table::lemma_other_rows(self.outputs@, entry, other, other);
                crate::table::lemma_other_rows(old(self).outputs@, entry, session_id@, other);
            }
        }
        self.outputs.put(entry);
        true
    }

    /// The texture that a session presents on the monitor.
    pub fn current_buffer_for_session(&self, session_id: &String) -> (r: Option<&Texture>)
        ensures
            match r {
                Some(t) => self.output_of(session_id@) matches Some(o) && o.shown() == Some(*t),
                None => self.output_of(session_id@) is None || self.output_of(
                    session_id@,
                )->0.shown() is None,
            },
    {
        match self.outputs.get(session_id) {
            Some(entry) => entry.output.borrow_current_texture(),
            None => None,
        }
    }

    /// Takes the output of a session off the monitor and returns it.
    pub fn remove_session(&mut self, session_id: &String) -> (r: Option<Output<Texture>>)
        ensures
            r == old(self).output_of(session_id@),
            final(self).spec_info() == old(self).spec_info(),
            final(self).outputs() == without(old(self).outputs(), session_id@),
    {
        match self.outputs.take(session_id) {
            Some(entry) => Some(entry.output),
            None => None,
        }
    }

    /// The page flip of a session came at `now`.  Returns how long the
    /// presented swap took; nothing, and nothing changes, where the session
    /// has no output here or no page flip was outstanding.
    pub fn take_pending_page_flip(&mut self, session_id: &String, now: u64) -> (r: Option<u64>)
        ensures
            r == match old(self).output_of(session_id@) {
                Some(o) => o.latency(now),
                None => None,
            },
            final(self).spec_info() == old(self).spec_info(),
            old(self).output_of(session_id@) is None ==> final(self).outputs() == old(self).outputs(),
            old(self).output_of(session_id@) is Some ==> (final(self).output_of(session_id@) matches Some(o)
                && o.state() == old(self).output_of(session_id@)->0.flipped() && o.buffers == old(self).output_of(session_id@)->0.buffers),            forall|other: Seq<char>|
                other != session_id@ ==> #[trigger] final(self).output_of(other) == old(self).output_of(other),
    {
        let mut entry = match self.outputs.take(session_id) {
            Some(e) => e,
            None => {
                proof {
                    crate::table::lemma_position_found(old(self).outputs@, session_id@);
                }
                return None;
            },
        };
        let latency = entry.output.take_page_flip(now);
        proof {
            crate::table::lemma_put_lookup(self.outputs@, entry);
            assert forall|other: Seq<char>| other != session_id@ implies lookup(
                put(self.outputs@, entry),
                other,
            ) == lookup(old(self).outputs@, other) by {
                crate::table::lemma_other_rows(self.outputs@, entry, other, other);
                crate::table::lemma_other_rows(old(self).outputs@, entry, session_id@, other);
            }
        }
        self.outputs.put(entry);
        latency
    }
}

impl<Texture> Keyed for Monitor<Texture> {
    type Key = String;

    type Name = Seq<char>;

    open spec fn name_of(key: &String) -> Seq<char> {
        key@
    }

    closed spec fn key(&self) -> Seq<char> {
        self.info.id@
    }

    fn id(&self) -> (r: String) {
        self.info.id.clone()
    }

    fn has_key(&self, key: &String) -> (r: bool) {
        same_text(self.info.id.as_str(), key.as_str())
    }
}

impl<Texture> Monitor<Texture> {
    /// A monitor is found under the identity that its information gives.
    pub proof fn lemma_key(&self)
        ensures
            self.key() == self.spec_info().id@,
    {
    }
}

} // verus!
