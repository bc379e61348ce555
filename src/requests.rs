//! Requests that asynchronous tasks queue for the game thread, each with a
//! single-use completion signal.

use vstd::prelude::*;
use std::sync::Arc;
use std::sync::mpsc::{Receiver, Sender};
use tokio::sync::oneshot;
use crate::setup::GameSetupInfo;

verus! {

/// The unit of work that a request asks for.
#[derive(Debug)]
pub enum GameThreadRequestType {
    Initialize,
    RunWndProc,
    StartGame,
    ExitCleanup,
    SetupInfo(Arc<GameSetupInfo>),
}

/// A queued request: the work, and the signal that marks it done.
/// The signal carries no value: a request whose work produces one sends it as a
/// notification event.
pub struct GameThreadRequest {
    request_type: GameThreadRequestType,
    done: oneshot::Sender<()>,
}

/// The sending half of a request's completion signal, kept by the game thread
/// until the work is done.
pub struct Completion {
    done: oneshot::Sender<()>,
}

/// Why a request could not be queued.
#[derive(Debug, Eq, PartialEq, Copy, Clone, Structural)]
pub enum SubmitError {
    /// The game thread no longer receives requests.
    ConsumerGone,
}

#[verifier::external_type_specification]
#[verifier::external_body]
#[verifier::reject_recursive_types(T)]
pub struct ExOneshotSender<T>(oneshot::Sender<T>);

#[verifier::external_type_specification]
#[verifier::external_body]
#[verifier::reject_recursive_types(T)]
pub struct ExOneshotReceiver<T>(oneshot::Receiver<T>);

#[verifier::external_type_specification]
#[verifier::external_body]
#[verifier::reject_recursive_types(T)]
pub struct ExQueueSender<T>(Sender<T>);

#[verifier::external_type_specification]
#[verifier::external_body]
#[verifier::reject_recursive_types(T)]
pub struct ExQueueReceiver<T>(Receiver<T>);

#[verifier::external_type_specification]
#[verifier::external_body]
pub struct ExRecvError(oneshot::error::RecvError);

/// Relies on `tokio::sync::oneshot::channel`: a fresh, connected signal pair.
#[verifier::external_body]
fn done_channel() -> (r: (oneshot::Sender<()>, oneshot::Receiver<()>)) {
    oneshot::channel()
}

/// Relies on `tokio::sync::oneshot::Sender::send`, which never blocks; it fails only
/// where the receiving half is gone.
#[verifier::external_body]
fn signal_done(done: oneshot::Sender<()>) -> (delivered: bool) {
    done.send(()).is_ok()
}

/// Relies on `std::sync::mpsc::Sender::send`, which never blocks; it fails only where
/// the receiving half is gone, and the request is then dropped.
#[verifier::external_body]
fn enqueue(queue: &Sender<GameThreadRequest>, request: GameThreadRequest) -> (accepted: bool) {
    queue.send(request).is_ok()
}

impl GameThreadRequest {
    /// The work that the request asks for.
    pub closed spec fn kind(&self) -> GameThreadRequestType {
        self.request_type
    }

    /// A request for `request_type`, and the receiver that resolves once the game
    /// thread has done it.
    pub fn new(request_type: GameThreadRequestType) -> (r: (GameThreadRequest, oneshot::Receiver<()>))
        ensures
            r.0.kind() == request_type,
    {
        let (done, wait_done) = done_channel();
        (GameThreadRequest { request_type, done }, wait_done)
    }

    /// Splits the request into its work and its completion signal.
    pub fn into_parts(self) -> (r: (GameThreadRequestType, Completion))
        ensures
            r.0 == self.kind(),
    {
        (self.request_type, Completion { done: self.done })
    }
}

impl Completion {
    /// Marks the request done. A submitter that stopped waiting is no failure:
    /// the result only says whether anyone was still waiting.
    pub fn signal(self) -> (delivered: bool) {
        signal_done(self.done)
    }
}

/// Queues a request for `request_type` and returns the receiver that resolves once
/// the game thread has done it, or `ConsumerGone` where the game thread no longer
/// receives requests.
pub fn submit(queue: &Sender<GameThreadRequest>, request_type: GameThreadRequestType) -> (r: Result<
    oneshot::Receiver<()>,
    SubmitError,
>) {
    let (request, wait_done) = GameThreadRequest::new(request_type);
    if enqueue(queue, request) {
        Ok(wait_done)
    } else {
        Err(SubmitError::ConsumerGone)
    }
}

} // verus!
