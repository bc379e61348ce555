//! Notification events that the game thread sends to asynchronous listeners.

use vstd::prelude::*;
use tokio::sync::mpsc::UnboundedSender;
use crate::mapping::MAX_STORM_PLAYERS;
use crate::results::GameThreadResults;

verus! {

/// Something the game thread reports to the asynchronous side.
#[derive(Debug)]
pub enum GameThreadMessage {
    WindowMove(i32, i32),
    /// A network message, as bytes.
    Snp(Vec<u8>),
    /// Network player id (which stays stable) -> ingame player id mapping.
    /// Once this message is sent, any ingame player ids used so far should be
    /// considered invalid and updated to match this mapping.
    PlayersRandomized([Option<u8>; MAX_STORM_PLAYERS]),
    Results(GameThreadResults),
}

#[verifier::external_type_specification]
#[verifier::external_body]
#[verifier::reject_recursive_types(T)]
pub struct ExUnboundedSender<T>(UnboundedSender<T>);

/// Relies on `tokio::sync::mpsc::UnboundedSender::send`, which never blocks; it fails
/// only where every receiver is gone, and the message is then dropped.
#[verifier::external_body]
pub(crate) fn notify(send: &UnboundedSender<GameThreadMessage>, message: GameThreadMessage) -> (delivered: bool) {
    send.send(message).is_ok()
}

} // verus!
