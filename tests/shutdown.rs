use render_engine::shutdown::{shutdown_channel, Poll};

#[test]
fn receiver_sees_nothing_before_send() {
    let (tx, mut rx) = shutdown_channel();
    assert!(!tx.is_sent());
    assert_eq!(rx.try_receive(), Poll::NotYet);
    assert_eq!(rx.try_receive(), Poll::NotYet);
}

#[test]
fn receiver_sees_send_and_keeps_seeing_it() {
    let (mut tx, mut rx) = shutdown_channel();
    tx.send();
    assert!(tx.is_sent());
    assert_eq!(rx.try_receive(), Poll::Signaled);
    assert_eq!(rx.try_receive(), Poll::Signaled);
}

#[test]
fn sending_twice_is_sending_once() {
    let (mut tx, mut rx) = shutdown_channel();
    tx.send();
    tx.send();
    assert!(tx.is_sent());
    assert_eq!(rx.try_receive(), Poll::Signaled);
}

#[test]
fn send_after_receiver_gone_does_not_fail() {
    let (mut tx, rx) = shutdown_channel();
    drop(rx);
    tx.send();
    tx.send();
    assert!(tx.is_sent());
}
