//! What to draw on a monitor, and which sessions are thereby presented.
//!
//! While a switch between sessions is under way and both sessions have a
//! texture for the monitor, the two are blended.  Otherwise the texture of
//! the shown session is drawn, else that of the session shown before, else
//! the monitor is cleared.

use crate::protocol::text::same_text;
use vstd::prelude::*;

verus! {

/// Which texture of a monitor is meant.
#[derive(Clone, Copy, Debug, PartialEq, Eq, Structural)]
pub enum Source {
    /// The texture of the session that is shown.
    Active,
    /// The texture of the session that was shown before.
    Previous,
}

/// What to draw on a monitor.
#[derive(Clone, Copy, Debug, PartialEq, Eq, Structural)]
pub enum Draw {
    /// Clear the monitor.
    Clear,
    /// Draw one texture.
    Single(Source),
    /// Blend from the texture of the session shown before to that of the
    /// session that is shown.
    Blend,
}

/// What there is to draw on a monitor.
pub struct Scene<'a> {
    /// The session that is shown.
    pub active_session_id: Option<&'a str>,
    /// The session that was shown before, where a switch was started.
    pub previous_session_id: Option<&'a str>,
    /// Whether the shown session has a texture for the monitor.
    pub has_active_texture: bool,
    /// Whether the session shown before has one.
    pub has_previous_texture: bool,
    /// Whether a switch was started and has not run its course.
    pub in_transition: bool,
}

impl<'a> Scene<'a> {
    /// Whether the two sessions are blended.
    pub open spec fn blends(self) -> bool {
        self.in_transition && self.has_previous_texture && self.has_active_texture
            && self.previous_session_id is Some && self.active_session_id is Some
    }

    /// What to draw.
    pub open spec fn drawing(self) -> Draw {
        if self.blends() {
            Draw::Blend
        } else if self.has_active_texture && self.active_session_id is Some {
            Draw::Single(Source::Active)
        } else if self.has_previous_texture && self.previous_session_id is Some {
            Draw::Single(Source::Previous)
        } else {
            Draw::Clear
        }
    }

    /// The sessions that are presented by the drawing: those whose texture
    /// is drawn, the one shown before first, none of them twice.
    pub open spec fn presented(self) -> Seq<Seq<char>> {
        match self.drawing() {
            Draw::Blend => if self.previous_session_id->0@ != self.active_session_id->0@ {
                seq![self.previous_session_id->0@, self.active_session_id->0@]
            } else {
                seq![self.previous_session_id->0@]
            },
            Draw::Single(Source::Active) => seq![self.active_session_id->0@],
            Draw::Single(Source::Previous) => seq![self.previous_session_id->0@],
            Draw::Clear => Seq::empty(),
        }
    }
}

/// The texts of a list of strings.
pub open spec fn texts(list: Seq<String>) -> Seq<Seq<char>> {
    list.map_values(|s: String| s@)
}

/// Decides what is drawn on the monitors.
#[derive(Clone, Copy, Debug, PartialEq, Eq, Structural)]
pub struct FramePresenter;

impl FramePresenter {
    pub fn new() -> (r: FramePresenter) {
        FramePresenter
    }

    /// Decides what to draw on one monitor and says which sessions are
    /// presented thereby.
    pub fn plan(&self, scene: &Scene<'_>) -> (r: (Draw, Vec<String>))
        ensures
            r.0 == scene.drawing(),
            texts(r.1@) == scene.presented(),
    {
        let mut presented: Vec<String> = Vec::new();
        proof {
            assert(texts(presented@) =~= Seq::<Seq<char>>::empty());
        }
        if scene.in_transition && scene.has_previous_texture && scene.has_active_texture {
            match (scene.previous_session_id, scene.active_session_id) {
                (Some(prev_id), Some(new_id)) => {
                    presented.push(prev_id.to_owned());
                    if !same_text(prev_id, new_id) {
                        presented.push(new_id.to_owned());
                    }
                    proof {
                        assert(texts(presented@) =~= scene.presented());
                    }
                    return (Draw::Blend, presented);
                },
                _ => {},
            }
        }
        if scene.has_active_texture {
            match scene.active_session_id {
                Some(session_id) => {
                    presented.push(session_id.to_owned());
                    proof {
                        assert(texts(presented@) =~= scene.presented());
                    }
                    return (Draw::Single(Source::Active), presented);
                },
                None => {},
            }
        }
        if scene.has_previous_texture {
            match scene.previous_session_id {
                Some(session_id) => {
                    presented.push(session_id.to_owned());
                    proof {
                        assert(texts(presented@) =~= scene.presented());
                    }
                    return (Draw::Single(Source::Previous), presented);
                },
                None => {},
            }
        }
        (Draw::Clear, presented)
    }
}

/// The sessions that were presented on a monitor with the last frame and
/// are owed a notice once the frame was shown.
pub struct PendingSessions {
    pending_sessions: Vec<String>,
}

impl PendingSessions {
    pub closed spec fn list(&self) -> Seq<String> {
        self.pending_sessions@
    }

    pub fn new() -> (r: PendingSessions)
        ensures
            r.list() == Seq::<String>::empty(),
    {
        PendingSessions { pending_sessions: Vec::new() }
    }

    /// Takes the sessions out; none are left.
    pub fn take_pending_sessions(&mut self) -> (r: Vec<String>)
        ensures
            r@ == old(self).list(),
            final(self).list() == Seq::<String>::empty(),
    {
        let mut out: Vec<String> = Vec::new();
        std::mem::swap(&mut out, &mut self.pending_sessions);
        out
    }

    /// Puts the sessions of the frame that was just drawn.
    pub fn set_pending_sessions(&mut self, sessions: Vec<String>)
        ensures
            final(self).list() == sessions@,
    {
        self.pending_sessions = sessions;
    }
}

} // verus!
