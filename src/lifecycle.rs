use vstd::prelude::*;
use crate::events::{any_close_request, dispatch_events, WindowEvent};
use crate::shutdown::{send_effect, ShutdownSender};
use crate::worker::DrawError;

verus! {

/// Why a session ended in failure.
#[derive(Debug)]
pub enum EngineError {
    /// The backend could not create the window or its context; its own
    /// message, unchanged.
    BackendInit(String),
    /// The render worker's thread could not be started.
    ThreadSpawn,
    /// A draw call of the render worker failed.
    Draw(DrawError),
}

/// Where the coordinator stands in a session.
#[derive(Clone, Copy, Debug, PartialEq, Eq, Structural)]
pub enum Phase {
    CreatingWindow,
    SpawningWorker,
    Polling,
    Signaling,
    Joining,
    DestroyingWindow,
    Finished,
}

/// What the coordinator's last command came to.
#[derive(Debug)]
pub enum Report {
    /// The window and its context were created, or the backend's message on
    /// why they were not.
    WindowCreated(Result<(), String>),
    /// Whether the render worker's thread was started.
    WorkerSpawned(bool),
    /// The pending events were drained and dispatched; whether the window now
    /// asks to close.
    EventsPolled(bool),
    /// The shutdown signal was sent.
    ShutdownSent,
    /// The render worker's thread was joined, with what it returned.
    WorkerJoined(Result<u64, DrawError>),
    /// The window was destroyed.
    WindowDestroyed,
}

/// What the coordinator does next.
#[derive(Clone, Copy, Debug, PartialEq, Eq, Structural)]
pub enum Command {
    /// Create the window and its context at this size.
    CreateWindow(u32, u32),
    /// Hand the context to a new render worker thread.
    SpawnWorker,
    /// Drain the event queue and dispatch each event in order.
    PollEvents,
    /// Send the shutdown signal to the render worker.
    SendShutdown,
    /// Block until the render worker's thread has returned.
    JoinWorker,
    /// Destroy the window.
    DestroyWindow,
    /// The session is over.
    Finish,
}

/// The coordinator as a value.
pub struct SessionState {
    pub phase: Phase,
    pub width: u32,
    pub height: u32,
    /// The window exists.
    pub window_open: bool,
    /// A render worker thread was started.
    pub spawned: bool,
    /// The shutdown signal was sent.
    pub signaled: bool,
    /// The render worker's thread was joined.
    pub joined: bool,
    /// The first failure of the session.
    pub error: Option<EngineError>,
}

/// The decisions of the lifecycle coordinator: create the window, hand the
/// context to a worker, poll events until a close is asked for, then signal,
/// join and destroy the window, in that order.
pub struct Lifecycle {
    phase: Phase,
    width: u32,
    height: u32,
    window_open: bool,
    spawned: bool,
    signaled: bool,
    joined: bool,
    error: Option<EngineError>,
}

impl View for Lifecycle {
    type V = SessionState;

    closed spec fn view(&self) -> SessionState {
        SessionState {
            phase: self.phase,
            width: self.width,
            height: self.height,
            window_open: self.window_open,
            spawned: self.spawned,
            signaled: self.signaled,
            joined: self.joined,
            error: self.error,
        }
    }
}

/// A session that has not done anything yet.
pub open spec fn session_start(width: u32, height: u32) -> SessionState {
    SessionState {
        phase: Phase::CreatingWindow,
        width,
        height,
        window_open: false,
        spawned: false,
        signaled: false,
        joined: false,
        error: None,
    }
}

/// The command the coordinator issues in a state.
pub open spec fn session_command(s: SessionState) -> Command {
    match s.phase {
        Phase::CreatingWindow => Command::CreateWindow(s.width, s.height),
        Phase::SpawningWorker => Command::SpawnWorker,
        Phase::Polling => Command::PollEvents,
        Phase::Signaling => Command::SendShutdown,
        Phase::Joining => Command::JoinWorker,
        Phase::DestroyingWindow => Command::DestroyWindow,
        Phase::Finished => Command::Finish,
    }
}

/// The coordinator's next state on a report; a report that does not answer
/// the current command changes nothing.
pub open spec fn session_next(s: SessionState, r: Report) -> SessionState {
    match (s.phase, r) {
        (Phase::CreatingWindow, Report::WindowCreated(Err(msg))) => SessionState {
            phase: Phase::Finished,
            error: Some(EngineError::BackendInit(msg)),
            ..s
        },
        (Phase::CreatingWindow, Report::WindowCreated(Ok(()))) => SessionState {
            phase: Phase::SpawningWorker,
            window_open: true,
            ..s
        },
        (Phase::SpawningWorker, Report::WorkerSpawned(started)) => if started {
            SessionState { phase: Phase::Polling, spawned: true, ..s }
        } else {
            SessionState {
                phase: Phase::DestroyingWindow,
                error: Some(EngineError::ThreadSpawn),
                ..s
            }
        },
        (Phase::Polling, Report::EventsPolled(close)) => if close {
            SessionState { phase: Phase::Signaling, ..s }
        } else {
            s
        },
        (Phase::Signaling, Report::ShutdownSent) => SessionState {
            phase: Phase::Joining,
            signaled: true,
            ..s
        },
        (Phase::Joining, Report::WorkerJoined(res)) => SessionState {
            phase: Phase::DestroyingWindow,
            joined: true,
            error: match res {
                Ok(_) => None,
                Err(e) => Some(EngineError::Draw(e)),
            },
            ..s
        },
        (Phase::DestroyingWindow, Report::WindowDestroyed) => SessionState {
            phase: Phase::Finished,
            window_open: false,
            ..s
        },
        _ => s,
    }
}

/// The coordinator's state after a run of reports from `s`.
pub open spec fn session_run(s: SessionState, reports: Seq<Report>) -> SessionState
    decreases reports.len(),
{
    if reports.len() == 0 {
        s
    } else {
        session_next(session_run(s, reports.drop_last()), reports.last())
    }
}

/// What a finished session yields.
pub open spec fn session_result(s: SessionState) -> Result<(), EngineError> {
    match s.error {
        Some(e) => Err(e),
        None => Ok(()),
    }
}

/// The ordering that every reachable state keeps: the worker is signaled only
/// after it was started, joined only after it was signaled, and the window is
/// destroyed, or about to be, only once a started worker has been joined.
pub open spec fn session_ordered(s: SessionState) -> bool {
    &&& s.signaled ==> s.spawned
    &&& s.joined ==> s.signaled
    &&& s.spawned ==> s.window_open || s.phase == Phase::Finished
    &&& match s.phase {
        Phase::CreatingWindow => !s.window_open && !s.spawned,
        Phase::SpawningWorker => s.window_open && !s.spawned,
        Phase::Polling => s.window_open && s.spawned && !s.signaled,
        Phase::Signaling => s.window_open && s.spawned && !s.signaled,
        Phase::Joining => s.window_open && s.signaled && !s.joined,
        Phase::DestroyingWindow => s.window_open && (s.spawned ==> s.joined),
        Phase::Finished => !s.window_open && (s.spawned ==> s.joined),
    }
}

impl Lifecycle {
    /// A session for a window of this size, about to create it.
    pub fn new(width: u32, height: u32) -> (r: Lifecycle)
        ensures
            r@ == session_start(width, height),
    {
        Lifecycle {
            phase: Phase::CreatingWindow,
            width,
            height,
            window_open: false,
            spawned: false,
            signaled: false,
            joined: false,
            error: None,
        }
    }

    /// The command to carry out now.
    pub fn command(&self) -> (c: Command)
        ensures
            c == session_command(self@),
    {
        match self.phase {
            Phase::CreatingWindow => Command::CreateWindow(self.width, self.height),
            Phase::SpawningWorker => Command::SpawnWorker,
            Phase::Polling => Command::PollEvents,
            Phase::Signaling => Command::SendShutdown,
            Phase::Joining => Command::JoinWorker,
            Phase::DestroyingWindow => Command::DestroyWindow,
            Phase::Finished => Command::Finish,
        }
    }

    /// Takes in what the last command came to.
    pub fn report(&mut self, r: Report)
        ensures
            final(self)@ == session_next(old(self)@, r),
    {
        match (self.phase, r) {
            (Phase::CreatingWindow, Report::WindowCreated(Err(msg))) => {
                self.phase = Phase::Finished;
                self.error = Some(EngineError::BackendInit(msg));
            },
            (Phase::CreatingWindow, Report::WindowCreated(Ok(()))) => {
                self.phase = Phase::SpawningWorker;
                self.window_open = true;
            },
            (Phase::SpawningWorker, Report::WorkerSpawned(started)) => {
                if started {
                    self.phase = Phase::Polling;
                    self.spawned = true;
                } else {
                    self.phase = Phase::DestroyingWindow;
                    self.error = Some(EngineError::ThreadSpawn);
                }
            },
            (Phase::Polling, Report::EventsPolled(close)) => {
                if close {
                    self.phase = Phase::Signaling;
                }
            },
            (Phase::Signaling, Report::ShutdownSent) => {
                self.phase = Phase::Joining;
                self.signaled = true;
            },
            (Phase::Joining, Report::WorkerJoined(res)) => {
                self.phase = Phase::DestroyingWindow;
                self.joined = true;
                self.error = match res {
                    Ok(_) => None,
                    Err(e) => Some(EngineError::Draw(e)),
                };
            },
            (Phase::DestroyingWindow, Report::WindowDestroyed) => {
                self.phase = Phase::Finished;
                self.window_open = false;
            },
            _ => {},
        }
    }

    /// Carries out `PollEvents` on a drained batch: dispatches the events in
    /// order to the window's close request and reports whether the window now
    /// asks to close.
    pub fn events_polled(&mut self, should_close: &mut bool, events: &Vec<WindowEvent>)
        ensures
            *final(should_close) == (*old(should_close) || any_close_request(events@)),
            final(self)@ == session_next(old(self)@, Report::EventsPolled(*final(should_close))),
    {
        dispatch_events(should_close, events);
        self.report(Report::EventsPolled(*should_close));
    }

    /// Carries out `SendShutdown`: requests the worker's stop on the
    /// channel and records it. In any other phase nothing is sent.
    pub fn send_shutdown(&mut self, tx: &mut ShutdownSender)
        ensures
            old(self)@.phase == Phase::Signaling ==> send_effect(*old(tx), *final(tx)),
            old(self)@.phase == Phase::Signaling ==> final(tx).requests() == if old(tx).sent() {
                old(tx).requests()
            } else {
                old(tx).requests() + 1
            },
            old(self)@.phase != Phase::Signaling ==> *final(tx) == *old(tx),
            final(self)@ == session_next(old(self)@, Report::ShutdownSent),
    {
        if self.phase == Phase::Signaling {
            tx.send();
        }
        self.report(Report::ShutdownSent);
    }

    /// Where the session stands.
    pub fn phase(&self) -> (p: Phase)
        ensures
            p == self@.phase,
    {
        self.phase
    }

    /// Whether the session is over.
    pub fn is_finished(&self) -> (b: bool)
        ensures
            b == (self@.phase == Phase::Finished),
    {
        self.phase == Phase::Finished
    }

    /// What the session yields: its first failure, if any.
    pub fn into_result(self) -> (r: Result<(), EngineError>)
        ensures
            r == session_result(self@),
    {
        match self.error {
            Some(e) => Err(e),
            None => Ok(()),
        }
    }
}

/// One report keeps the ordering.
pub proof fn lemma_next_ordered(s: SessionState, r: Report)
    requires
        session_ordered(s),
    ensures
        session_ordered(session_next(s, r)),
{
}

/// Every state that a session reaches, whatever its reports, keeps the
/// ordering.
pub proof fn lemma_run_ordered(width: u32, height: u32, reports: Seq<Report>)
    ensures
        session_ordered(session_run(session_start(width, height), reports)),
    decreases reports.len(),
{
    if reports.len() > 0 {
        lemma_run_ordered(width, height, reports.drop_last());
        lemma_next_ordered(
            session_run(session_start(width, height), reports.drop_last()),
            reports.last(),
        );
    }
}

/// Shutdown happens in order: whenever the coordinator is about to destroy
/// the window, or has finished, a worker that was started has already been
/// signaled and joined; and the window is gone once the session is over.
pub proof fn lemma_join_before_destroy(width: u32, height: u32, reports: Seq<Report>)
    ensures
        ({
            let s = session_run(session_start(width, height), reports);
            &&& session_command(s) == Command::DestroyWindow ==> (s.spawned ==> s.signaled
                && s.joined)
            &&& s.phase == Phase::Finished ==> !s.window_open && (s.spawned ==> s.signaled
                && s.joined)
        }),
{
    lemma_run_ordered(width, height, reports);
}

/// A finished session stays as it is, whatever is reported afterwards.
pub proof fn lemma_finished_stays(s: SessionState, reports: Seq<Report>)
    requires
        s.phase == Phase::Finished,
    ensures
        session_run(s, reports) == s,
    decreases reports.len(),
{
    if reports.len() > 0 {
        lemma_finished_stays(s, reports.drop_last());
    }
}

/// When the backend cannot create the window, the session ends with the
/// backend's own message, and no worker is started then or ever after.
pub proof fn lemma_backend_failure_spawns_nothing(
    width: u32,
    height: u32,
    msg: String,
    after: Seq<Report>,
)
    ensures
        ({
            let failed = session_next(
                session_start(width, height),
                Report::WindowCreated(Err(msg)),
            );
            let s = session_run(failed, after);
            &&& s.phase == Phase::Finished
            &&& !s.spawned
            &&& !s.window_open
            &&& session_command(s) == Command::Finish
            &&& session_result(s) == Err::<(), EngineError>(EngineError::BackendInit(msg))
        }),
{
    let failed = session_next(session_start(width, height), Report::WindowCreated(Err(msg)));
    lemma_finished_stays(failed, after);
}

/// A draw error that the worker's join yields is what the session yields,
/// and the window is still destroyed before the session ends.
pub proof fn lemma_draw_error_still_destroys(s: SessionState, err: DrawError)
    requires
        session_ordered(s),
        s.phase == Phase::Joining,
    ensures
        ({
            let joined = session_next(s, Report::WorkerJoined(Err(err)));
            let done = session_next(joined, Report::WindowDestroyed);
            &&& joined.joined
            &&& session_command(joined) == Command::DestroyWindow
            &&& done.phase == Phase::Finished
            &&& !done.window_open
            &&& session_result(done) == Err::<(), EngineError>(EngineError::Draw(err))
        }),
{
}

} // verus!
