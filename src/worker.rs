//! The decisions of the PDF worker: one owner of the non-reentrant PDF
//! engine that takes conversion jobs one at a time from a queue and answers
//! each on its own reply channel. The thread, the queue and the engine live
//! with the caller, which reports what happened as events and carries out
//! the actions handed back.
use crate::error::Error;
use vstd::prelude::*;

verus! {

/// Why a PDF could not be produced.
#[derive(Debug)]
pub enum PdfApplicationError {
    /// The engine failed while building the document.
    WkhtmlError(String),
    /// Reading the engine's output failed.
    IoError(String),
    /// An error that crossed a process boundary, reduced to its text.
    RawError(String),
    /// No worker process could be spawned for the job.
    SpawnError,
}

/// The outcome of one conversion.
pub type PdfResult = Result<Vec<u8>, PdfApplicationError>;

/// The text of a PDF failure.
pub open spec fn pdf_error_text(e: PdfApplicationError) -> Seq<char> {
    match e {
        PdfApplicationError::WkhtmlError(m) => m@,
        PdfApplicationError::IoError(m) => m@,
        PdfApplicationError::RawError(m) => m@,
        PdfApplicationError::SpawnError => "Failed to spawn a pdf worker process"@,
    }
}

impl PdfApplicationError {
    /// The text of this failure.
    pub fn to_string(&self) -> (r: String)
        ensures
            r@ == pdf_error_text(*self),
    {
        match self {
            PdfApplicationError::WkhtmlError(m) => m.clone(),
            PdfApplicationError::IoError(m) => m.clone(),
            PdfApplicationError::RawError(m) => m.clone(),
            PdfApplicationError::SpawnError => String::from_str(
                "Failed to spawn a pdf worker process",
            ),
        }
    }

    /// The failure as the request reports it.
    pub fn get_rejection(&self) -> (r: Error)
        ensures
            r matches Error::PdfError(m) && m@ == pdf_error_text(*self),
    {
        Error::PdfError(self.to_string())
    }
}

/// The outcome of a build whose output was then read: a failure of either
/// step, or the bytes read.
pub open spec fn flattened(r: Result<PdfResult, PdfApplicationError>) -> PdfResult {
    match r {
        Ok(inner) => inner,
        Err(e) => Err(e),
    }
}

/// Collapses the outcome of a build and of reading its output into one.
pub fn flatten_pdf_result(r: Result<PdfResult, PdfApplicationError>) -> (out: PdfResult)
    ensures
        out == flattened(r),
{
    match r {
        Ok(Err(e)) => Err(e),
        Ok(Ok(bytes)) => Ok(bytes),
        Err(e) => Err(e),
    }
}

/// Where the worker stands.
#[derive(PartialEq, Eq, Structural, Clone, Copy, Debug)]
pub enum WorkerState {
    /// The engine is being initialised.
    Starting,
    /// Waiting for the next job.
    Ready,
    /// The engine is converting a job's HTML.
    Rendering,
    /// The job's outcome is being sent to its requester.
    Replying,
    /// The worker has given up; the process is to end.
    Stopped,
}

/// What happened since the worker's last decision.
pub enum WorkerEvent {
    /// The engine was initialised.
    EngineReady,
    /// The engine could not be initialised, for the reason given.
    EngineFailed(String),
    /// A job arrived with this HTML.
    JobReceived(String),
    /// The engine finished the job: the build's outcome and, where it
    /// succeeded, that of reading its output.
    Rendered(Result<PdfResult, PdfApplicationError>),
    /// The outcome reached its requester.
    ReplySent,
    /// The requester had gone; the outcome was dropped.
    ReplyDropped,
    /// The job queue has no sender left.
    QueueClosed,
}

/// Why the worker stops.
#[derive(PartialEq, Eq, Structural, Clone, Copy, Debug)]
pub enum WorkerFault {
    EngineInit,
    QueueClosed,
    UnexpectedEvent,
}

/// What the worker's owner is to do next.
pub enum WorkerAction {
    /// Wait for the next job on the queue.
    AwaitJob,
    /// Convert this HTML with the engine.
    Render(String),
    /// Send this outcome on the current job's reply channel.
    Reply(PdfResult),
    /// End the process.
    Abort(WorkerFault),
}

/// The worker's next state and action after `event` in `state`. Job and
/// reply failures bring it back to waiting; only a failed engine start, a
/// closed queue, or an event that cannot happen in `state` stop it.
pub open spec fn next_step(state: WorkerState, event: WorkerEvent) -> (WorkerState, WorkerAction) {
    match event {
        WorkerEvent::QueueClosed => (
            WorkerState::Stopped,
            WorkerAction::Abort(WorkerFault::QueueClosed),
        ),
        WorkerEvent::EngineReady => if state == WorkerState::Starting {
            (WorkerState::Ready, WorkerAction::AwaitJob)
        } else {
            (WorkerState::Stopped, WorkerAction::Abort(WorkerFault::UnexpectedEvent))
        },
        WorkerEvent::EngineFailed(_) => if state == WorkerState::Starting {
            (WorkerState::Stopped, WorkerAction::Abort(WorkerFault::EngineInit))
        } else {
            (WorkerState::Stopped, WorkerAction::Abort(WorkerFault::UnexpectedEvent))
        },
        WorkerEvent::JobReceived(html) => if state == WorkerState::Ready {
            (WorkerState::Rendering, WorkerAction::Render(html))
        } else {
            (WorkerState::Stopped, WorkerAction::Abort(WorkerFault::UnexpectedEvent))
        },
        WorkerEvent::Rendered(outcome) => if state == WorkerState::Rendering {
            (WorkerState::Replying, WorkerAction::Reply(flattened(outcome)))
        } else {
            (WorkerState::Stopped, WorkerAction::Abort(WorkerFault::UnexpectedEvent))
        },
        WorkerEvent::ReplySent | WorkerEvent::ReplyDropped => if state == WorkerState::Replying {
            (WorkerState::Ready, WorkerAction::AwaitJob)
        } else {
            (WorkerState::Stopped, WorkerAction::Abort(WorkerFault::UnexpectedEvent))
        },
    }
}

/// Decides the worker's next state and action.
pub fn worker_step(state: WorkerState, event: WorkerEvent) -> (r: (WorkerState, WorkerAction))
    ensures
        r == next_step(state, event),
{
    let unexpected = (WorkerState::Stopped, WorkerAction::Abort(WorkerFault::UnexpectedEvent));
    match event {
        WorkerEvent::QueueClosed => (
            WorkerState::Stopped,
            WorkerAction::Abort(WorkerFault::QueueClosed),
        ),
        WorkerEvent::EngineReady => if state == WorkerState::Starting {
            (WorkerState::Ready, WorkerAction::AwaitJob)
        } else {
            unexpected
        },
        WorkerEvent::EngineFailed(_) => if state == WorkerState::Starting {
            (WorkerState::Stopped, WorkerAction::Abort(WorkerFault::EngineInit))
        } else {
            unexpected
        },
        WorkerEvent::JobReceived(html) => if state == WorkerState::Ready {
            (WorkerState::Rendering, WorkerAction::Render(html))
        } else {
            unexpected
        },
        WorkerEvent::Rendered(outcome) => if state == WorkerState::Rendering {
            (WorkerState::Replying, WorkerAction::Reply(flatten_pdf_result(outcome)))
        } else {
            unexpected
        },
        WorkerEvent::ReplySent | WorkerEvent::ReplyDropped => if state == WorkerState::Replying {
            (WorkerState::Ready, WorkerAction::AwaitJob)
        } else {
            unexpected
        },
    }
}

/// A failed conversion is answered to its requester and the worker then
/// waits for the next job, whether or not the answer was delivered: render
/// failures never stop the worker.
pub proof fn lemma_render_failure_recovers(
    failure: Result<PdfResult, PdfApplicationError>,
    delivery: WorkerEvent,
)
    requires
        flattened(failure) is Err,
        delivery is ReplySent || delivery is ReplyDropped,
    ensures
        next_step(WorkerState::Rendering, WorkerEvent::Rendered(failure)) == (
            WorkerState::Replying,
            WorkerAction::Reply(flattened(failure)),
        ),
        next_step(WorkerState::Replying, delivery) == (WorkerState::Ready, WorkerAction::AwaitJob),
{
}

} // verus!
