use render_engine::events::{Action, Key, WindowEvent};
use render_engine::lifecycle::{Command, EngineError, Lifecycle, Phase, Report};
use render_engine::shutdown::shutdown_channel;
use render_engine::worker::{DrawError, RenderWorker, WorkerAction, WorkerEvent};

fn started(width: u32, height: u32) -> Lifecycle {
    let mut l = Lifecycle::new(width, height);
    assert_eq!(l.command(), Command::CreateWindow(width, height));
    l.report(Report::WindowCreated(Ok(())));
    assert_eq!(l.command(), Command::SpawnWorker);
    l.report(Report::WorkerSpawned(true));
    assert_eq!(l.command(), Command::PollEvents);
    l
}

#[test]
fn escape_before_first_frame_shuts_down_cleanly() {
    let (mut tx, mut rx) = shutdown_channel();
    let mut l = started(200, 200);
    let mut worker = RenderWorker::new();

    let mut close = false;
    let batch = vec![WindowEvent::Key(Key::Escape, 9, Action::Press, 0)];
    l.events_polled(&mut close, &batch);
    assert!(close);
    assert_eq!(l.command(), Command::SendShutdown);
    l.send_shutdown(&mut tx);
    assert!(tx.is_sent());
    assert_eq!(l.command(), Command::JoinWorker);

    let mut steps = 0;
    let mut act = worker.poll_shutdown(&mut rx);
    while act != WorkerAction::ReleaseContext {
        act = match act {
            WorkerAction::DrawFrame => worker.step(WorkerEvent::FrameDrawn(Ok(()))),
            _ => worker.poll_shutdown(&mut rx),
        };
        steps += 1;
        assert!(steps < 4);
    }
    assert_eq!(worker.outcome(), Ok(0));

    l.report(Report::WorkerJoined(worker.outcome()));
    assert_eq!(l.command(), Command::DestroyWindow);
    l.report(Report::WindowDestroyed);
    assert_eq!(l.command(), Command::Finish);
    assert!(l.is_finished());
    assert!(l.into_result().is_ok());
}

#[test]
fn polling_continues_until_close_requested() {
    let mut l = started(300, 300);
    let mut close = false;
    l.events_polled(&mut close, &vec![WindowEvent::Other]);
    assert_eq!(l.phase(), Phase::Polling);
    l.events_polled(&mut close, &Vec::new());
    assert_eq!(l.command(), Command::PollEvents);
    l.events_polled(&mut close, &vec![WindowEvent::Key(Key::Escape, 9, Action::Press, 0)]);
    assert_eq!(l.phase(), Phase::Signaling);
}

#[test]
fn backend_failure_spawns_no_worker() {
    let mut l = Lifecycle::new(200, 200);
    l.report(Report::WindowCreated(Err(String::from("no display"))));
    assert_eq!(l.command(), Command::Finish);
    l.report(Report::WorkerSpawned(true));
    assert_eq!(l.command(), Command::Finish);
    match l.into_result() {
        Err(EngineError::BackendInit(msg)) => assert_eq!(msg, "no display"),
        other => panic!("unexpected result {:?}", other),
    }
}

#[test]
fn spawn_failure_still_destroys_window() {
    let mut l = Lifecycle::new(200, 200);
    l.report(Report::WindowCreated(Ok(())));
    l.report(Report::WorkerSpawned(false));
    assert_eq!(l.command(), Command::DestroyWindow);
    l.report(Report::WindowDestroyed);
    assert_eq!(l.command(), Command::Finish);
    assert!(matches!(l.into_result(), Err(EngineError::ThreadSpawn)));
}

#[test]
fn draw_error_is_joined_and_window_destroyed() {
    let (mut tx, mut rx) = shutdown_channel();
    let mut l = started(200, 200);
    let mut worker = RenderWorker::new();
    assert_eq!(worker.poll_shutdown(&mut rx), WorkerAction::DrawFrame);
    let act = worker.step(WorkerEvent::FrameDrawn(Err(DrawError { code: 1285 })));
    assert_eq!(act, WorkerAction::ReleaseContext);

    let mut close = true;
    l.events_polled(&mut close, &Vec::new());
    l.send_shutdown(&mut tx);
    l.report(Report::WorkerJoined(worker.outcome()));
    assert_eq!(l.command(), Command::DestroyWindow);
    l.report(Report::WindowDestroyed);
    assert!(l.is_finished());
    match l.into_result() {
        Err(EngineError::Draw(e)) => assert_eq!(e, DrawError { code: 1285 }),
        other => panic!("unexpected result {:?}", other),
    }
}

#[test]
fn reports_out_of_order_change_nothing() {
    let mut l = Lifecycle::new(200, 200);
    l.report(Report::WindowDestroyed);
    l.report(Report::ShutdownSent);
    l.report(Report::WorkerJoined(Ok(5)));
    assert_eq!(l.command(), Command::CreateWindow(200, 200));
    let (mut tx, _rx) = shutdown_channel();
    l.send_shutdown(&mut tx);
    assert!(!tx.is_sent());
    assert_eq!(l.phase(), Phase::CreatingWindow);
}
