//! The work session and what the front end is told about it.

use vstd::prelude::*;

verus! {

/// A text field as a sequence of characters.
pub open spec fn opt_text(o: Option<String>) -> Option<Seq<char>> {
    match o {
        Some(s) => Some(s@),
        None => None,
    }
}

pub(crate) fn clone_text(o: &Option<String>) -> (r: Option<String>)
    ensures
        opt_text(r) == opt_text(*o),
{
    match o {
        Some(s) => Some(s.clone()),
        None => None,
    }
}

/// A work session. Instants are RFC 3339 text; `remaining_time` is the
/// decimal number of milliseconds that were left when the session was paused.
#[derive(Debug, PartialEq)]
pub struct Session {
    pub end_time: Option<String>,
    pub start_time: Option<String>,
    pub remaining_time: Option<String>,
    pub paused: bool,
    pub paused_at: Option<String>,
}

/// What a [`Session`] holds.
pub struct SessionView {
    pub end_time: Option<Seq<char>>,
    pub start_time: Option<Seq<char>>,
    pub remaining_time: Option<Seq<char>>,
    pub paused: bool,
    pub paused_at: Option<Seq<char>>,
}

impl View for Session {
    type V = SessionView;

    open spec fn view(&self) -> SessionView {
        SessionView {
            end_time: opt_text(self.end_time),
            start_time: opt_text(self.start_time),
            remaining_time: opt_text(self.remaining_time),
            paused: self.paused,
            paused_at: opt_text(self.paused_at),
        }
    }
}

/// The session before any has started: nothing set, not paused.
pub open spec fn empty_session() -> SessionView {
    SessionView {
        end_time: None,
        start_time: None,
        remaining_time: None,
        paused: false,
        paused_at: None,
    }
}

/// A session is running: it has an end and is not paused.
pub open spec fn session_active(s: SessionView) -> bool {
    s.end_time is Some && !s.paused
}

impl Default for Session {
    fn default() -> (s: Self)
        ensures
            s@ == empty_session(),
    {
        Session { end_time: None, start_time: None, remaining_time: None, paused: false, paused_at: None }
    }
}

impl Clone for Session {
    fn clone(&self) -> (s: Self)
        ensures
            s@ == self@,
    {
        Session {
            end_time: clone_text(&self.end_time),
            start_time: clone_text(&self.start_time),
            remaining_time: clone_text(&self.remaining_time),
            paused: self.paused,
            paused_at: clone_text(&self.paused_at),
        }
    }
}

/// The session as the front end sees it.
#[derive(Debug, PartialEq)]
pub struct SessionStateResponse {
    pub is_active: bool,
    pub is_paused: bool,
    pub end_time: Option<String>,
    pub remaining_secs: i64,
    pub short_break_count: u64,
}

} // verus!
