//! Continuity of a presence session: when the elapsed-time anchor restarts.
use vstd::prelude::*;
use vstd::string::*;

verus! {

/// What a session tracker holds: the anchor and the project it belongs to.
pub struct SessionView {
    pub started_at: i64,
    pub project: Seq<char>,
}

impl SessionView {
    /// The session after a tick that saw `project` at time `now`: it restarts
    /// on a fresh connection or a change of project, and is kept otherwise.
    pub open spec fn updated(self, project: Seq<char>, fresh: bool, now: i64) -> SessionView {
        if fresh || project != self.project {
            SessionView { started_at: now, project }
        } else {
            self
        }
    }
}

/// The start of the current session and the project it was started for.
pub struct SessionTracker {
    started_at: i64,
    project: String,
}

impl View for SessionTracker {
    type V = SessionView;

    closed spec fn view(&self) -> SessionView {
        SessionView { started_at: self.started_at, project: self.project@ }
    }
}

impl SessionTracker {
    /// A session started at `now` for no project.
    pub fn new(now: i64) -> (r: SessionTracker)
        ensures
            r@ == (SessionView { started_at: now, project: Seq::empty() }),
    {
        SessionTracker { started_at: now, project: String::new() }
    }

    /// Records the project seen at `now` and returns the session's start.
    pub fn update(&mut self, current_project: &str, is_fresh_connection: bool, now: i64) -> (r: i64)
        ensures
            final(self)@ == old(self)@.updated(current_project@, is_fresh_connection, now),
            r == final(self)@.started_at,
    {
        let seen = String::from_str(current_project);
        if is_fresh_connection || !seen.eq(&self.project) {
            self.started_at = now;
            self.project = seen;
        }
        self.started_at
    }

    /// The start of the current session.
    pub fn started_at(&self) -> (r: i64)
        ensures
            r == self@.started_at,
    {
        self.started_at
    }

    /// The project of the current session.
    pub fn project(&self) -> (r: &str)
        ensures
            r@ == self@.project,
    {
        self.project.as_str()
    }
}

/// Switching to another project never moves the anchor back while the clock
/// does not run back, and moves it forward whenever time has passed.
pub proof fn lemma_switch_restarts(s: SessionView, project: Seq<char>, now: i64)
    requires
        project != s.project,
        now >= s.started_at,
    ensures
        s.updated(project, false, now).started_at >= s.started_at,
        now > s.started_at ==> s.updated(project, false, now).started_at != s.started_at,
        s.updated(project, false, now).started_at == now,
{
}

/// Seeing the same project again without a new connection keeps the session
/// exactly, whatever the time; in particular a repeat of the call that set
/// the session changes nothing.
pub proof fn lemma_same_project_keeps(s: SessionView, project: Seq<char>, fresh: bool, now: i64, later: i64)
    ensures
        s.project == project ==> s.updated(project, false, later) == s,
        s.updated(project, fresh, now).updated(project, false, later)
            == s.updated(project, fresh, now),
{
}

} // verus!
