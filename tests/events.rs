use render_engine::events::{dispatch_events, handle_window_event, Action, Key, WindowEvent};

#[test]
fn escape_press_requests_close() {
    let mut close = false;
    handle_window_event(&mut close, WindowEvent::Key(Key::Escape, 9, Action::Press, 0));
    assert!(close);
}

#[test]
fn other_events_leave_close_request_unchanged() {
    let others = vec![
        WindowEvent::Key(Key::Escape, 9, Action::Release, 0),
        WindowEvent::Key(Key::Escape, 9, Action::Repeat, 0),
        WindowEvent::Key(Key::Other(65), 38, Action::Press, 0),
        WindowEvent::Other,
    ];
    for e in others {
        let mut close = false;
        handle_window_event(&mut close, e);
        assert!(!close);
        let mut close = true;
        handle_window_event(&mut close, e);
        assert!(close);
    }
}

#[test]
fn dispatch_closes_only_on_escape_press() {
    let mut close = false;
    let batch = vec![
        WindowEvent::Other,
        WindowEvent::Key(Key::Other(32), 65, Action::Press, 0),
        WindowEvent::Key(Key::Escape, 9, Action::Release, 0),
    ];
    dispatch_events(&mut close, &batch);
    assert!(!close);

    let batch = vec![
        WindowEvent::Other,
        WindowEvent::Key(Key::Escape, 9, Action::Press, 0),
        WindowEvent::Key(Key::Other(32), 65, Action::Press, 0),
    ];
    dispatch_events(&mut close, &batch);
    assert!(close);
}

#[test]
fn dispatch_of_empty_batch_changes_nothing() {
    let mut close = false;
    dispatch_events(&mut close, &Vec::new());
    assert!(!close);
    let mut close = true;
    dispatch_events(&mut close, &Vec::new());
    assert!(close);
}
