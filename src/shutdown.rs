use vstd::prelude::*;

verus! {

#[verifier::external_type_specification]
#[verifier::external_body]
#[verifier::reject_recursive_types(T)]
pub struct ExSender<T>(std::sync::mpsc::Sender<T>);

#[verifier::external_type_specification]
#[verifier::external_body]
#[verifier::reject_recursive_types(T)]
pub struct ExReceiver<T>(std::sync::mpsc::Receiver<T>);

/// The messages handed to `send` through this sending end, in order.
pub uninterp spec fn sent_on(tx: std::sync::mpsc::Sender<()>) -> Seq<()>;

/// Relies on std::sync::mpsc::channel: a fresh pair of ends, nothing sent yet.
#[verifier::external_body]
fn open_channel() -> (r: (std::sync::mpsc::Sender<()>, std::sync::mpsc::Receiver<()>))
    ensures
        sent_on(r.0).len() == 0,
{
    std::sync::mpsc::channel()
}

/// Relies on std::sync::mpsc::Sender::send: never blocks, puts the message on
/// the channel, and reports whether the receiving end was still there to
/// take it.
#[verifier::external_body]
fn channel_send(tx: &mut std::sync::mpsc::Sender<()>) -> (delivered: bool)
    ensures
        sent_on(*final(tx)) == sent_on(*old(tx)).push(()),
{
    tx.send(()).is_ok()
}

/// Relies on std::sync::mpsc::Receiver::try_recv: never blocks; reports
/// whether a message was waiting.
#[verifier::external_body]
fn channel_try_recv(rx: &std::sync::mpsc::Receiver<()>) -> (received: bool) {
    rx.try_recv().is_ok()
}

/// The sending end of the one-shot stop notification held by the coordinator.
pub struct ShutdownSender {
    tx: std::sync::mpsc::Sender<()>,
    sent: bool,
}

/// The receiving end of the stop notification, owned by the render worker.
pub struct ShutdownReceiver {
    rx: std::sync::mpsc::Receiver<()>,
    signaled: bool,
}

/// What a poll of the receiving end found.
#[derive(Clone, Copy, Debug, PartialEq, Eq, Structural)]
pub enum Poll {
    Signaled,
    NotYet,
}

/// How one call of `ShutdownSender::send` relates the end before it to the
/// end after it: a stop is requested from then on, and an end that had
/// already requested one is left exactly as it was.
pub open spec fn send_effect(before: ShutdownSender, after: ShutdownSender) -> bool {
    &&& after.sent()
    &&& before.sent() ==> after == before
}

/// Creates a connected pair of ends, with no stop requested yet.
pub fn shutdown_channel() -> (r: (ShutdownSender, ShutdownReceiver))
    ensures
        !r.0.sent(),
        r.0.requests() == 0,
        !r.1.signaled(),
{
    let (tx, rx) = open_channel();
    (ShutdownSender { tx, sent: false }, ShutdownReceiver { rx, signaled: false })
}

impl ShutdownSender {
    /// Whether a stop has been requested through this end.
    pub closed spec fn sent(&self) -> bool {
        self.sent
    }

    /// How many stop messages this end has put on the channel.
    pub closed spec fn requests(&self) -> nat {
        sent_on(self.tx).len()
    }

    /// Whether a stop has been requested through this end.
    pub fn is_sent(&self) -> (r: bool)
        ensures
            r == self.sent(),
    {
        self.sent
    }

    /// Requests a stop. Never blocks and never fails: a receiver that has
    /// already gone away makes this a no-op. The first request puts one stop
    /// message on the channel; a second puts nothing more there.
    pub fn send(&mut self)
        ensures
            send_effect(*old(self), *final(self)),
            final(self).requests() == if old(self).sent() {
                old(self).requests()
            } else {
                old(self).requests() + 1
            },
    {
        if !self.sent {
            let _delivered = channel_send(&mut self.tx);
            self.sent = true;
        }
    }
}

impl ShutdownReceiver {
    /// Whether a stop has been observed through this end.
    pub closed spec fn signaled(&self) -> bool {
        self.signaled
    }

    /// Polls for the stop notification without blocking. Once a stop has
    /// been observed, every later poll reports it too.
    pub fn try_receive(&mut self) -> (r: Poll)
        ensures
            old(self).signaled() ==> r == Poll::Signaled,
            final(self).signaled() == (r == Poll::Signaled),
    {
        if !self.signaled {
            self.signaled = channel_try_recv(&self.rx);
        }
        if self.signaled {
            Poll::Signaled
        } else {
            Poll::NotYet
        }
    }
}

/// Requesting a stop twice in a row has the effect of requesting it once:
/// the second request leaves the sending end exactly as the first left it.
pub proof fn lemma_send_idempotent(s0: ShutdownSender, s1: ShutdownSender, s2: ShutdownSender)
    requires
        send_effect(s0, s1),
        send_effect(s1, s2),
    ensures
        s2 == s1,
        send_effect(s0, s2),
{
}

} // verus!
