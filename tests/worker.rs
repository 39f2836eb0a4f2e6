use qr_slip::error::Error;
use qr_slip::worker::{
    flatten_pdf_result, worker_step, PdfApplicationError, WorkerAction, WorkerEvent, WorkerFault,
    WorkerState,
};

#[test]
fn engine_start_leads_to_waiting() {
    let (s, a) = worker_step(WorkerState::Starting, WorkerEvent::EngineReady);
    assert_eq!(s, WorkerState::Ready);
    assert!(matches!(a, WorkerAction::AwaitJob));
}

#[test]
fn engine_failure_is_fatal() {
    let (s, a) = worker_step(WorkerState::Starting, WorkerEvent::EngineFailed("no X".to_string()));
    assert_eq!(s, WorkerState::Stopped);
    assert!(matches!(a, WorkerAction::Abort(WorkerFault::EngineInit)));
}

#[test]
fn job_is_rendered_then_answered() {
    let (s, a) = worker_step(WorkerState::Ready, WorkerEvent::JobReceived("<p>x</p>".to_string()));
    assert_eq!(s, WorkerState::Rendering);
    match a {
        WorkerAction::Render(html) => assert_eq!(html, "<p>x</p>"),
        _ => panic!("expected a render"),
    }
    let (s, a) = worker_step(WorkerState::Rendering, WorkerEvent::Rendered(Ok(Ok(b"%PDF-1.4".to_vec()))));
    assert_eq!(s, WorkerState::Replying);
    match a {
        WorkerAction::Reply(Ok(bytes)) => assert_eq!(bytes, b"%PDF-1.4".to_vec()),
        _ => panic!("expected the bytes"),
    }
    let (s, a) = worker_step(WorkerState::Replying, WorkerEvent::ReplySent);
    assert_eq!(s, WorkerState::Ready);
    assert!(matches!(a, WorkerAction::AwaitJob));
}

#[test]
fn render_failure_does_not_stop_the_worker() {
    let failed = Err(PdfApplicationError::WkhtmlError("bad html".to_string()));
    let (s, a) = worker_step(WorkerState::Rendering, WorkerEvent::Rendered(failed));
    assert_eq!(s, WorkerState::Replying);
    match a {
        WorkerAction::Reply(Err(PdfApplicationError::WkhtmlError(m))) => assert_eq!(m, "bad html"),
        _ => panic!("expected the failure"),
    }
    let (s, _) = worker_step(WorkerState::Replying, WorkerEvent::ReplyDropped);
    assert_eq!(s, WorkerState::Ready);
}

#[test]
fn closed_queue_stops_the_worker() {
    for state in [WorkerState::Starting, WorkerState::Ready, WorkerState::Rendering] {
        let (s, a) = worker_step(state, WorkerEvent::QueueClosed);
        assert_eq!(s, WorkerState::Stopped);
        assert!(matches!(a, WorkerAction::Abort(WorkerFault::QueueClosed)));
    }
}

#[test]
fn unexpected_event_stops_the_worker() {
    let (s, a) = worker_step(WorkerState::Ready, WorkerEvent::ReplySent);
    assert_eq!(s, WorkerState::Stopped);
    assert!(matches!(a, WorkerAction::Abort(WorkerFault::UnexpectedEvent)));
}

#[test]
fn nested_results_flatten() {
    assert!(matches!(flatten_pdf_result(Ok(Ok(vec![1, 2]))), Ok(v) if v == vec![1, 2]));
    assert!(matches!(
        flatten_pdf_result(Ok(Err(PdfApplicationError::IoError("eof".to_string())))),
        Err(PdfApplicationError::IoError(m)) if m == "eof"
    ));
    assert!(matches!(
        flatten_pdf_result(Err(PdfApplicationError::SpawnError)),
        Err(PdfApplicationError::SpawnError)
    ));
}

#[test]
fn pdf_failures_become_rejections() {
    let e = PdfApplicationError::RawError("worker died".to_string());
    assert_eq!(e.to_string(), "worker died");
    match e.get_rejection() {
        Error::PdfError(m) => assert_eq!(m, "worker died"),
        _ => panic!("expected a pdf error"),
    }
    assert_eq!(e.get_rejection().status_code(), 500);
}
