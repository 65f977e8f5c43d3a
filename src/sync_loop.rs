//! The synchronisation loop's decisions.
//!
//! The loop is a machine that is handed the outcome of each outside step (a
//! liveness answer, a connect or publish attempt, a poll, a wait) and answers
//! with the next step to perform. Whoever runs it performs the steps; the
//! machine never blocks and never fails.
use vstd::prelude::*;
use crate::connection::{ConnectionManager, ConnectionState};
use crate::presence::{compose, composed, ActivityPayload, ApplicationState, DisplayOptions, PayloadView};
use crate::session::{SessionTracker, SessionView};

verus! {

/// How many ticks may pass between two liveness checks while Xcode is
/// believed to run and no connection is up.
pub const LIVENESS_CHECK_CYCLE: u8 = 5;

/// The outside step that the loop awaits the outcome of.
#[derive(Clone, Copy, Debug, PartialEq, Eq, Structural)]
pub enum Phase {
    /// A wait that ends the tick; the next tick starts from the liveness gate.
    Idle,
    /// Asking whether Xcode runs, at the start of a tick.
    CheckingLiveness,
    /// A connect attempt.
    Connecting,
    /// A poll of the project and the file.
    Polling,
    /// A publish of a payload.
    Publishing,
    /// A wait after a publish; the next tick checks liveness first.
    ActiveWait,
    /// A liveness check while active.
    ActiveCheck,
}

/// The outcome of an outside step.
pub enum Event {
    /// Xcode runs, or not.
    Running(bool),
    /// A query of the scripting bridge failed.
    ProbeFailed,
    /// A connect attempt succeeded, or not.
    ConnectDone(bool),
    /// A poll saw this project and file at time `now`.
    Polled { project: String, file: String, now: i64 },
    /// A publish was delivered, or not.
    PublishDone(bool),
    /// A wait of one interval is over.
    Waited,
}

/// The next outside step to perform.
pub enum Action {
    /// Ask whether Xcode runs.
    CheckRunning,
    /// Connect to the transport.
    Connect,
    /// Ask for the current project and file.
    Poll,
    /// Publish this payload.
    Publish(ActivityPayload),
    /// Wait one interval.
    Wait,
}

/// An event with its texts as character sequences.
pub enum EventView {
    Running(bool),
    ProbeFailed,
    ConnectDone(bool),
    Polled(Seq<char>, Seq<char>, i64),
    PublishDone(bool),
    Waited,
}

/// An action with its payload as a view.
pub enum ActionView {
    CheckRunning,
    Connect,
    Poll,
    Publish(PayloadView),
    Wait,
}

impl View for Event {
    type V = EventView;

    open spec fn view(&self) -> EventView {
        match self {
            Event::Running(b) => EventView::Running(*b),
            Event::ProbeFailed => EventView::ProbeFailed,
            Event::ConnectDone(b) => EventView::ConnectDone(*b),
            Event::Polled { project, file, now } => EventView::Polled(project@, file@, *now),
            Event::PublishDone(b) => EventView::PublishDone(*b),
            Event::Waited => EventView::Waited,
        }
    }
}

impl View for Action {
    type V = ActionView;

    open spec fn view(&self) -> ActionView {
        match self {
            Action::CheckRunning => ActionView::CheckRunning,
            Action::Connect => ActionView::Connect,
            Action::Poll => ActionView::Poll,
            Action::Publish(p) => ActionView::Publish(p@),
            Action::Wait => ActionView::Wait,
        }
    }
}

/// What the loop holds, in spec terms.
pub struct LoopView {
    pub phase: Phase,
    pub running: bool,
    pub ticks: u8,
    pub fresh: bool,
    pub connection: ConnectionState,
    pub session: SessionView,
    pub options: DisplayOptions,
}

/// The loop's state is well formed: the tick counter stays within a cycle,
/// a connect is awaited only while disconnected, and the active phase runs
/// only while connected.
pub open spec fn loop_wf(s: LoopView) -> bool {
    &&& s.ticks <= LIVENESS_CHECK_CYCLE
    &&& s.phase == Phase::Connecting ==> s.connection == ConnectionState::Disconnected
    &&& (s.phase == Phase::Polling || s.phase == Phase::Publishing || s.phase == Phase::ActiveWait
        || s.phase == Phase::ActiveCheck) ==> s.connection == ConnectionState::Connected
}

/// Ends the tick with a wait; the next tick starts at the liveness gate.
pub open spec fn idle(s: LoopView) -> (LoopView, ActionView) {
    (LoopView { phase: Phase::Idle, ..s }, ActionView::Wait)
}

/// Xcode is gone, or could not be asked: drop the connection and wait.
pub open spec fn stopped(s: LoopView) -> (LoopView, ActionView) {
    idle(LoopView { running: false, connection: ConnectionState::Disconnected, ..s })
}

/// Connect where no connection is up, else go on to poll.
pub open spec fn connect_step(s: LoopView) -> (LoopView, ActionView) {
    if s.connection == ConnectionState::Connected {
        (LoopView { phase: Phase::Polling, ..s }, ActionView::Poll)
    } else {
        (LoopView { phase: Phase::Connecting, ..s }, ActionView::Connect)
    }
}

/// The start of a tick outside the active phase: liveness is asked when Xcode
/// is not known to run or a full cycle has passed since the last check.
pub open spec fn outer_tick(s: LoopView) -> (LoopView, ActionView) {
    if !s.running || s.ticks >= LIVENESS_CHECK_CYCLE {
        (LoopView { phase: Phase::CheckingLiveness, ..s }, ActionView::CheckRunning)
    } else {
        connect_step(LoopView { ticks: (s.ticks + 1) as u8, ..s })
    }
}

/// The loop after the outcome `e` of the step it awaits, and what it asks next.
/// An outcome that does not answer the awaited step ends the tick.
pub open spec fn next(s: LoopView, e: EventView) -> (LoopView, ActionView) {
    match (s.phase, e) {
        (Phase::Idle, EventView::Waited) => outer_tick(s),
        (Phase::CheckingLiveness, EventView::Running(true)) => connect_step(
            LoopView { running: true, ticks: 1, ..s },
        ),
        (Phase::CheckingLiveness, EventView::Running(false)) => stopped(LoopView { ticks: 0, ..s }),
        (Phase::CheckingLiveness, EventView::ProbeFailed) => stopped(LoopView { ticks: 0, ..s }),
        (Phase::Connecting, EventView::ConnectDone(ok)) => {
            if ok {
                (
                    LoopView {
                        phase: Phase::Polling,
                        connection: ConnectionState::Connected,
                        fresh: true,
                        ..s
                    },
                    ActionView::Poll,
                )
            } else {
                idle(s)
            }
        },
        (Phase::Polling, EventView::Polled(project, file, now)) => {
            let session = s.session.updated(project, s.fresh, now);
            (
                LoopView { phase: Phase::Publishing, fresh: false, session, ..s },
                ActionView::Publish(composed(project, file, session.started_at, s.options)),
            )
        },
        (Phase::Polling, EventView::ProbeFailed) => idle(s),
        (Phase::Publishing, EventView::PublishDone(delivered)) => {
            if delivered {
                (LoopView { phase: Phase::ActiveWait, ..s }, ActionView::Wait)
            } else {
                idle(LoopView { connection: ConnectionState::Disconnected, ..s })
            }
        },
        (Phase::ActiveWait, EventView::Waited) => (
            LoopView { phase: Phase::ActiveCheck, ..s },
            ActionView::CheckRunning,
        ),
        (Phase::ActiveCheck, EventView::Running(true)) => (
            LoopView { phase: Phase::Polling, ..s },
            ActionView::Poll,
        ),
        (Phase::ActiveCheck, EventView::Running(false)) => stopped(s),
        (Phase::ActiveCheck, EventView::ProbeFailed) => stopped(s),
        _ => idle(s),
    }
}

/// When a liveness check says that Xcode does not run, the loop attempts no
/// connection: it waits one interval and then asks about liveness again.
pub proof fn lemma_not_running_waits(s: LoopView)
    requires
        loop_wf(s),
        s.phase == Phase::CheckingLiveness || s.phase == Phase::ActiveCheck,
    ensures
        next(s, EventView::Running(false)).1 == ActionView::Wait,
        next(s, EventView::Running(false)).0.connection == ConnectionState::Disconnected,
        next(next(s, EventView::Running(false)).0, EventView::Waited).1 == ActionView::CheckRunning,
{
}

/// A failed connect attempt ends the tick with a wait of one interval, after
/// which the loop tries again (asking about liveness first where a cycle has
/// passed); it neither polls nor publishes in between.
pub proof fn lemma_connect_failure_retries(s: LoopView)
    requires
        loop_wf(s),
        s.phase == Phase::Connecting,
    ensures
        next(s, EventView::ConnectDone(false)).1 == ActionView::Wait,
        next(s, EventView::ConnectDone(false)).0.connection == ConnectionState::Disconnected,
        next(next(s, EventView::ConnectDone(false)).0, EventView::Waited).1 == ActionView::Connect
            || next(next(s, EventView::ConnectDone(false)).0, EventView::Waited).1
            == ActionView::CheckRunning,
{
}

/// A failed publish drops the connection, so the loop reconnects before it
/// publishes again.
pub proof fn lemma_publish_failure_reconnects(s: LoopView)
    requires
        loop_wf(s),
        s.phase == Phase::Publishing,
    ensures
        next(s, EventView::PublishDone(false)).1 == ActionView::Wait,
        next(s, EventView::PublishDone(false)).0.connection == ConnectionState::Disconnected,
        next(next(s, EventView::PublishDone(false)).0, EventView::Waited).1 != ActionView::Poll,
{
}

/// The state of the synchronisation loop, threaded through its steps.
pub struct SyncLoop {
    phase: Phase,
    running: bool,
    ticks: u8,
    fresh: bool,
    connection: ConnectionManager,
    session: SessionTracker,
    options: DisplayOptions,
}

impl View for SyncLoop {
    type V = LoopView;

    closed spec fn view(&self) -> LoopView {
        LoopView {
            phase: self.phase,
            running: self.running,
            ticks: self.ticks,
            fresh: self.fresh,
            connection: self.connection@,
            session: self.session@,
            options: self.options,
        }
    }
}

impl SyncLoop {
    /// A loop that has not observed anything yet, created at time `now`.
    pub fn new(options: DisplayOptions, now: i64) -> (r: SyncLoop)
        ensures
            r@ == (LoopView {
                phase: Phase::Idle,
                running: false,
                ticks: 0,
                fresh: false,
                connection: ConnectionState::Disconnected,
                session: SessionView { started_at: now, project: Seq::empty() },
                options,
            }),
            loop_wf(r@),
    {
        SyncLoop {
            phase: Phase::Idle,
            running: false,
            ticks: 0,
            fresh: false,
            connection: ConnectionManager::new(),
            session: SessionTracker::new(now),
            options,
        }
    }

    /// The step the loop awaits the outcome of.
    pub fn phase(&self) -> (r: Phase)
        ensures
            r == self@.phase,
    {
        self.phase
    }

    /// The state of the transport connection.
    pub fn connection_state(&self) -> (r: ConnectionState)
        ensures
            r == self@.connection,
    {
        self.connection.state()
    }

    /// The start of the current session.
    pub fn session_start(&self) -> (r: i64)
        ensures
            r == self@.session.started_at,
    {
        self.session.started_at()
    }

    /// The first step: the start of a tick.
    pub fn begin(&mut self) -> (r: Action)
        requires
            loop_wf(old(self)@),
        ensures
            (final(self)@, r@) == outer_tick(old(self)@),
            loop_wf(final(self)@),
    {
        self.outer_tick()
    }

    fn idle(&mut self) -> (r: Action)
        ensures
            (final(self)@, r@) == idle(old(self)@),
    {
        self.phase = Phase::Idle;
        Action::Wait
    }

    fn stopped(&mut self) -> (r: Action)
        ensures
            (final(self)@, r@) == stopped(old(self)@),
    {
        self.running = false;
        self.connection.connection_lost();
        self.idle()
    }

    fn connect_step(&mut self) -> (r: Action)
        ensures
            (final(self)@, r@) == connect_step(old(self)@),
    {
        if self.connection.needs_connect() {
            self.phase = Phase::Connecting;
            Action::Connect
        } else {
            self.phase = Phase::Polling;
            Action::Poll
        }
    }

    fn outer_tick(&mut self) -> (r: Action)
        requires
            loop_wf(old(self)@),
        ensures
            (final(self)@, r@) == outer_tick(old(self)@),
    {
        if !self.running || self.ticks >= LIVENESS_CHECK_CYCLE {
            self.phase = Phase::CheckingLiveness;
            Action::CheckRunning
        } else {
            self.ticks = self.ticks + 1;
            self.connect_step()
        }
    }

    /// Takes the outcome of the awaited step and returns the next step.
    pub fn step(&mut self, event: Event) -> (r: Action)
        requires
            loop_wf(old(self)@),
        ensures
            (final(self)@, r@) == next(old(self)@, event@),
            loop_wf(final(self)@),
    {
        match (self.phase, event) {
            (Phase::Idle, Event::Waited) => self.outer_tick(),
            (Phase::CheckingLiveness, Event::Running(true)) => {
                self.running = true;
                self.ticks = 1;
                self.connect_step()
            },
            (Phase::CheckingLiveness, Event::Running(false)) | (
                Phase::CheckingLiveness,
                Event::ProbeFailed,
            ) => {
                self.ticks = 0;
                self.stopped()
            },
            (Phase::Connecting, Event::ConnectDone(ok)) => {
                match self.connection.ensure_connected(ok) {
                    Ok(_) => {
                        self.fresh = true;
                        self.phase = Phase::Polling;
                        Action::Poll
                    },
                    Err(_) => self.idle(),
                }
            },
            (Phase::Polling, Event::Polled { project, file, now }) => {
                let started_at = self.session.update(project.as_str(), self.fresh, now);
                self.fresh = false;
                self.phase = Phase::Publishing;
                let observed = ApplicationState { running: true, project, file };
                Action::Publish(compose(&observed, started_at, self.options))
            },
            (Phase::Polling, Event::ProbeFailed) => self.idle(),
            (Phase::Publishing, Event::PublishDone(delivered)) => {
                match self.connection.publish_result(delivered) {
                    Ok(()) => {
                        self.phase = Phase::ActiveWait;
                        Action::Wait
                    },
                    Err(_) => self.idle(),
                }
            },
            (Phase::ActiveWait, Event::Waited) => {
                self.phase = Phase::ActiveCheck;
                Action::CheckRunning
            },
            (Phase::ActiveCheck, Event::Running(true)) => {
                self.phase = Phase::Polling;
                Action::Poll
            },
            (Phase::ActiveCheck, Event::Running(false)) | (Phase::ActiveCheck, Event::ProbeFailed) => {
                self.stopped()
            },
            _ => self.idle(),
        }
    }
}

} // verus!
