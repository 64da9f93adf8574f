use vstd::prelude::*;
use crate::shutdown::{Poll, ShutdownReceiver};

verus! {

/// A failed draw call, with the backend's error code.
#[derive(Clone, Copy, Debug, PartialEq, Eq, Structural)]
pub struct DrawError {
    pub code: u32,
}

/// What the render worker reports back to its decisions.
#[derive(Clone, Copy, Debug)]
pub enum WorkerEvent {
    /// The shutdown channel was polled with this result.
    Polled(Poll),
    /// One frame's draw calls were issued with this result.
    FrameDrawn(Result<(), DrawError>),
}

/// What the render worker does next.
#[derive(Clone, Copy, Debug, PartialEq, Eq, Structural)]
pub enum WorkerAction {
    /// Poll the shutdown channel.
    PollShutdown,
    /// Issue one frame's draw calls (clear, then draw).
    DrawFrame,
    /// Release the rendering context from this thread and return.
    ReleaseContext,
}

/// The decisions of the render worker: it draws until a stop is observed or
/// a draw call fails, and then only releases its context.
#[derive(Clone, Copy, Debug)]
pub struct RenderWorker {
    stopped: bool,
    frames: u64,
    failure: Option<DrawError>,
}

/// The worker as a value: whether it has stopped, how many frames it drew
/// (counting stops at the largest `u64`), and the draw error it stopped on.
pub struct WorkerState {
    pub stopped: bool,
    pub frames: u64,
    pub failure: Option<DrawError>,
}

/// The frame count after one more frame, held at the largest `u64`.
pub open spec fn count_frame(frames: u64) -> u64 {
    if frames < u64::MAX {
        (frames + 1) as u64
    } else {
        frames
    }
}

/// The worker's next state and action on an event.
pub open spec fn worker_next(s: WorkerState, e: WorkerEvent) -> (WorkerState, WorkerAction) {
    if s.stopped {
        (s, WorkerAction::ReleaseContext)
    } else {
        match e {
            WorkerEvent::Polled(Poll::Signaled) => (
                WorkerState { stopped: true, ..s },
                WorkerAction::ReleaseContext,
            ),
            WorkerEvent::Polled(Poll::NotYet) => (s, WorkerAction::DrawFrame),
            WorkerEvent::FrameDrawn(Ok(())) => (
                WorkerState { frames: count_frame(s.frames), ..s },
                WorkerAction::PollShutdown,
            ),
            WorkerEvent::FrameDrawn(Err(err)) => (
                WorkerState { stopped: true, failure: Some(err), ..s },
                WorkerAction::ReleaseContext,
            ),
        }
    }
}

/// The worker's state after a run of events from `s`.
pub open spec fn worker_run(s: WorkerState, events: Seq<WorkerEvent>) -> WorkerState
    decreases events.len(),
{
    if events.len() == 0 {
        s
    } else {
        worker_next(worker_run(s, events.drop_last()), events.last()).0
    }
}

/// The state of a worker that has just started.
pub open spec fn worker_start() -> WorkerState {
    WorkerState { stopped: false, frames: 0, failure: None }
}

/// What the worker's join yields: the frames drawn, or the draw error it
/// stopped on.
pub open spec fn worker_result(s: WorkerState) -> Result<u64, DrawError> {
    match s.failure {
        Some(err) => Err(err),
        None => Ok(s.frames),
    }
}

impl View for RenderWorker {
    type V = WorkerState;

    closed spec fn view(&self) -> WorkerState {
        WorkerState { stopped: self.stopped, frames: self.frames, failure: self.failure }
    }
}

impl RenderWorker {
    /// A worker that has just taken ownership of the context: its first
    /// action is to poll the shutdown channel.
    pub fn new() -> (r: RenderWorker)
        ensures
            r@ == worker_start(),
    {
        RenderWorker { stopped: false, frames: 0, failure: None }
    }

    /// Takes in what the last action found and decides the next action.
    pub fn step(&mut self, event: WorkerEvent) -> (act: WorkerAction)
        ensures
            (final(self)@, act) == worker_next(old(self)@, event),
    {
        if self.stopped {
            return WorkerAction::ReleaseContext;
        }
        match event {
            WorkerEvent::Polled(Poll::Signaled) => {
                self.stopped = true;
                WorkerAction::ReleaseContext
            },
            WorkerEvent::Polled(Poll::NotYet) => WorkerAction::DrawFrame,
            WorkerEvent::FrameDrawn(Ok(())) => {
                if self.frames < u64::MAX {
                    self.frames = self.frames + 1;
                }
                WorkerAction::PollShutdown
            },
            WorkerEvent::FrameDrawn(Err(err)) => {
                self.stopped = true;
                self.failure = Some(err);
                WorkerAction::ReleaseContext
            },
        }
    }

    /// Carries out `PollShutdown`: polls the receiving end without blocking
    /// and decides on what it found. A stop observed earlier on this end is
    /// found again, so the worker then only releases its context.
    pub fn poll_shutdown(&mut self, rx: &mut ShutdownReceiver) -> (act: WorkerAction)
        ensures
            (final(self)@, act) == worker_next(
                old(self)@,
                WorkerEvent::Polled(
                    if final(rx).signaled() {
                        Poll::Signaled
                    } else {
                        Poll::NotYet
                    },
                ),
            ),
            old(rx).signaled() ==> final(rx).signaled() && act == WorkerAction::ReleaseContext,
    {
        let p = rx.try_receive();
        self.step(WorkerEvent::Polled(p))
    }

    /// Whether the worker has stopped drawing.
    pub fn is_stopped(&self) -> (r: bool)
        ensures
            r == self@.stopped,
    {
        self.stopped
    }

    /// The result that the worker's thread hands to its join.
    pub fn outcome(&self) -> (r: Result<u64, DrawError>)
        ensures
            r == worker_result(self@),
    {
        match self.failure {
            Some(err) => Err(err),
            None => Ok(self.frames),
        }
    }
}

/// A stopped worker stays stopped, whatever it is told afterwards.
pub proof fn lemma_stopped_stays(s: WorkerState, events: Seq<WorkerEvent>)
    requires
        s.stopped,
    ensures
        worker_run(s, events) == s,
    decreases events.len(),
{
    if events.len() > 0 {
        lemma_stopped_stays(s, events.drop_last());
    }
}

/// No frame is drawn once a stop has been observed: after a poll that found
/// the signal, every later action is to release the context, and the signal
/// is acted upon at the very poll that found it.
pub proof fn lemma_no_draw_after_signal(
    s: WorkerState,
    before: Seq<WorkerEvent>,
    after: Seq<WorkerEvent>,
    e: WorkerEvent,
)
    ensures
        worker_next(worker_run(s, before), WorkerEvent::Polled(Poll::Signaled)).1
            == WorkerAction::ReleaseContext,
        worker_next(
            worker_run(s, before.push(WorkerEvent::Polled(Poll::Signaled)) + after),
            e,
        ).1 == WorkerAction::ReleaseContext,
    decreases after.len(),
{
    let stop = worker_run(s, before.push(WorkerEvent::Polled(Poll::Signaled)));
    assert(before.push(WorkerEvent::Polled(Poll::Signaled)).drop_last() == before);
    assert(stop.stopped);
    lemma_worker_run_append(s, before.push(WorkerEvent::Polled(Poll::Signaled)), after);
    lemma_stopped_stays(stop, after);
}

/// Running two stretches of events one after the other is running their
/// concatenation.
pub proof fn lemma_worker_run_append(s: WorkerState, a: Seq<WorkerEvent>, b: Seq<WorkerEvent>)
    ensures
        worker_run(s, a + b) == worker_run(worker_run(s, a), b),
    decreases b.len(),
{
    if b.len() == 0 {
        assert(a + b == a);
    } else {
        assert((a + b).drop_last() == a + b.drop_last());
        assert((a + b).last() == b.last());
        lemma_worker_run_append(s, a, b.drop_last());
    }
}

/// A draw error stops the worker and is what its join yields.
pub proof fn lemma_draw_error_reaches_join(
    s: WorkerState,
    err: DrawError,
    after: Seq<WorkerEvent>,
)
    requires
        !s.stopped,
    ensures
        worker_result(worker_run(worker_next(s, WorkerEvent::FrameDrawn(Err(err))).0, after))
            == Err::<u64, DrawError>(err),
{
    lemma_stopped_stays(worker_next(s, WorkerEvent::FrameDrawn(Err(err))).0, after);
}

} // verus!
