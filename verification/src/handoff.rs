//! The one-shot handoff for a single pending call.
//!
//! `open_call` creates the channel pair behind one call: the caller keeps the
//! [`PendingCall`] half and blocks on it, the completion hook carries the
//! [`CompletionHook`] half to the runtime's thread and consumes it to deliver
//! exactly once. The channel itself is `oneshot`'s; what is delivered, and
//! what the caller makes of it, is the verified protocol of
//! [`crate::protocol`].

use vstd::prelude::*;

use crate::protocol::{
    finish_call, finish_spec, immediate_delivery, immediate_outcome, rejection_delivery,
    rejection_outcome, resolution_delivery, resolution_outcome, CallError, Delivery,
};

verus! {

#[verifier::external_type_specification]
#[verifier::external_body]
#[verifier::reject_recursive_types(T)]
pub struct ExSender<T>(oneshot::Sender<T>);

#[verifier::external_type_specification]
#[verifier::external_body]
#[verifier::reject_recursive_types(T)]
pub struct ExReceiver<T>(oneshot::Receiver<T>);

// Declared only because `oneshot::Receiver`'s own impls mention it.
#[verifier::external_type_specification]
#[verifier::external_body]
pub struct ExRecvError(oneshot::RecvError);

/// Relies on oneshot::channel: allocates a fresh single-use channel and
/// returns its two endpoints.
#[verifier::external_body]
fn handoff_pair<T>() -> (pair: (oneshot::Sender<T>, oneshot::Receiver<T>)) {
    oneshot::channel()
}

/// Relies on oneshot::Sender::send: consumes the sender, hands the value to
/// the receiving end, and fails exactly when the receiver was already
/// dropped. It never blocks.
#[verifier::external_body]
fn send_value<T>(tx: oneshot::Sender<T>, value: T) -> (delivered: bool) {
    tx.send(value).is_ok()
}

/// Relies on oneshot::Receiver::recv: blocks the calling thread until a value
/// arrives (`Some`) or the sender is dropped without sending (`None`). The
/// receiver is consumed here without ever having been polled asynchronously,
/// so the call cannot panic.
#[verifier::external_body]
fn recv_value<T>(rx: oneshot::Receiver<T>) -> (received: Option<T>) {
    rx.recv().ok()
}

/// The caller's half of one pending call: whoever holds it can block until
/// the matching [`CompletionHook`] delivers.
#[verifier::reject_recursive_types(R)]
pub struct PendingCall<R> {
    receiver: oneshot::Receiver<R>,
}

/// The runtime-thread half of one pending call. It is consumed by whichever
/// completion path runs, so at most one delivery can ever be made per call.
#[verifier::reject_recursive_types(R)]
pub struct CompletionHook<R> {
    sender: oneshot::Sender<R>,
}

/// Open one pending call: a fresh channel pair, the blocking half for the
/// calling thread and the delivering half for the completion hook.
pub fn open_call<R>() -> (halves: (PendingCall<Delivery<R>>, CompletionHook<Delivery<R>>)) {
    let (tx, rx) = handoff_pair();
    (PendingCall { receiver: rx }, CompletionHook { sender: tx })
}

impl<R> CompletionHook<Delivery<R>> {
    /// Immediate path: the callable's raw value was not deferred and its
    /// conversion into the result type gave `conv`; deliver the outcome now.
    /// Returns whether the caller was still waiting, and the delivery made.
    pub fn complete_immediate(self, conv: Option<R>) -> (r: (bool, Ghost<Delivery<R>>))
        ensures
            r.1@ == immediate_outcome(conv),
    {
        let d = immediate_delivery(conv);
        let ghost sent = d;
        let delivered = send_value(self.sender, d);
        (delivered, Ghost(sent))
    }

    /// Deferred path, resolution: the deferred value resolved and converting
    /// the resolved value gave `conv`; deliver the outcome.
    /// Returns whether the caller was still waiting, and the delivery made.
    pub fn complete_resolution(self, conv: Option<R>) -> (r: (bool, Ghost<Delivery<R>>))
        ensures
            r.1@ == resolution_outcome(conv),
    {
        let d = resolution_delivery(conv);
        let ghost sent = d;
        let delivered = send_value(self.sender, d);
        (delivered, Ghost(sent))
    }

    /// Deferred path, rejection: the deferred value rejected; deliver the
    /// failure so the caller fails instead of blocking forever.
    /// Returns whether the caller was still waiting, and the delivery made.
    pub fn complete_rejection(self) -> (r: (bool, Ghost<Delivery<R>>))
        ensures
            r.1@ == rejection_outcome::<R>(),
    {
        let d = rejection_delivery();
        let ghost sent = d;
        let delivered = send_value(self.sender, d);
        (delivered, Ghost(sent))
    }
}

impl<R> PendingCall<Delivery<R>> {
    /// Block until the completion hook delivers — or disappears — and finish
    /// the call: the result is exactly the finish of what was received.
    /// There is no timeout: a hook that neither delivers nor drops keeps the
    /// caller blocked for good.
    pub fn wait(self) -> (r: (Result<R, CallError>, Ghost<Option<Delivery<R>>>))
        ensures
            r.0 == finish_spec(r.1@),
    {
        let received = recv_value(self.receiver);
        let ghost got = received;
        let res = finish_call(received);
        (res, Ghost(got))
    }
}

} // verus!
