use vstd::prelude::*;

verus! {

/// A keyboard key, as far as the engine's input handling tells keys apart.
#[derive(Clone, Copy, Debug, PartialEq, Eq, Structural)]
pub enum Key {
    Escape,
    /// Any other key, by the backend's key code.
    Other(i32),
}

/// What happened to a key.
#[derive(Clone, Copy, Debug, PartialEq, Eq, Structural)]
pub enum Action {
    Press,
    Release,
    Repeat,
}

/// An input or window event drained from the event queue.
#[derive(Clone, Copy, Debug, PartialEq, Eq, Structural)]
pub enum WindowEvent {
    /// A key event: key, scan code, action, modifier bits.
    Key(Key, i32, Action, i32),
    /// Any event the engine does not act upon.
    Other,
}

/// True when the event is a press of the escape key.
pub open spec fn is_close_request(event: WindowEvent) -> bool {
    event matches WindowEvent::Key(Key::Escape, _, Action::Press, _)
}

/// Dispatches one event: a press of escape requests that the window close;
/// every other event leaves the close request as it was.
pub fn handle_window_event(should_close: &mut bool, event: WindowEvent)
    ensures
        *final(should_close) == (*old(should_close) || is_close_request(event)),
{
    match event {
        WindowEvent::Key(Key::Escape, _, Action::Press, _) => {
            *should_close = true;
        },
        _ => {},
    }
}

/// True when some event of the run is a press of the escape key.
pub open spec fn any_close_request(events: Seq<WindowEvent>) -> bool {
    exists|i: int| 0 <= i < events.len() && is_close_request(#[trigger] events[i])
}

/// Dispatches drained events in order. A close is requested afterwards
/// exactly when one was before or some event was a press of escape: no other
/// event changes the close request.
pub fn dispatch_events(should_close: &mut bool, events: &Vec<WindowEvent>)
    ensures
        *final(should_close) == (*old(should_close) || any_close_request(events@)),
        *final(should_close) == close_after(*old(should_close), events@),
{
    let n = events.len();
    let mut i: usize = 0;
    while i < n
        invariant
            n == events@.len(),
            0 <= i <= n,
            *should_close == (*old(should_close) || any_close_request(events@.take(i as int))),
        decreases n - i,
    {
        handle_window_event(should_close, events[i]);
        proof {
            let prefix = events@.take(i as int);
            let next = events@.take(i as int + 1);
            if any_close_request(next) {
                let k = choose|k: int| 0 <= k < next.len() && is_close_request(#[trigger] next[k]);
                if k < i {
                    assert(prefix[k] == next[k]);
                }
            }
            if any_close_request(prefix) {
                let k = choose|k: int| 0 <= k < prefix.len() && is_close_request(#[trigger] prefix[k]);
                assert(next[k] == prefix[k]);
            }
            if is_close_request(events@[i as int]) {
                assert(next[i as int] == events@[i as int]);
            }
        }
        i = i + 1;
    }
    assert(events@.take(n as int) == events@);
    proof {
        lemma_only_escape_closes(*old(should_close), events@);
    }
}

/// The close request after `handle_window_event` has handled each event of
/// the run in turn, starting from `should_close`.
pub open spec fn close_after(should_close: bool, events: Seq<WindowEvent>) -> bool
    decreases events.len(),
{
    if events.len() == 0 {
        should_close
    } else {
        close_after(should_close, events.drop_last()) || is_close_request(events.last())
    }
}

/// Handling the events of any run one at a time, in order, leaves a close
/// requested exactly when one was before or some event was a press of
/// escape: no other event ever changes the close request.
pub proof fn lemma_only_escape_closes(should_close: bool, events: Seq<WindowEvent>)
    ensures
        close_after(should_close, events) == (should_close || any_close_request(events)),
    decreases events.len(),
{
    if events.len() > 0 {
        let prefix = events.drop_last();
        let last = (events.len() - 1) as int;
        lemma_only_escape_closes(should_close, prefix);
        if any_close_request(prefix) {
            let k = choose|k: int| 0 <= k < prefix.len() && is_close_request(#[trigger] prefix[k]);
            assert(events[k] == prefix[k]);
        }
        if any_close_request(events) {
            let k = choose|k: int| 0 <= k < events.len() && is_close_request(#[trigger] events[k]);
            if k < last {
                assert(prefix[k] == events[k]);
            }
        }
        if is_close_request(events.last()) {
            assert(events[last] == events.last());
        }
    }
}

/// Draining the events in several batches ends as draining them in one.
pub proof fn lemma_batches_compose(should_close: bool, a: Seq<WindowEvent>, b: Seq<WindowEvent>)
    ensures
        close_after(close_after(should_close, a), b) == close_after(should_close, a + b),
    decreases b.len(),
{
    if b.len() == 0 {
        assert(a + b == a);
    } else {
        assert((a + b).drop_last() == a + b.drop_last());
        assert((a + b).last() == b.last());
        lemma_batches_compose(should_close, a, b.drop_last());
    }
}

} // verus!
