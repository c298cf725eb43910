//! The outcome channel between the caller and the controller's worker:
//! a crossbeam channel of capacity one, reached through the trusted items
//! below.
use vstd::prelude::*;

use crate::transition::Msg;

verus! {

#[verifier::external_type_specification]
#[verifier::external_body]
#[verifier::reject_recursive_types(T)]
pub struct ExSender<T>(crossbeam_channel::Sender<T>);

#[verifier::external_type_specification]
#[verifier::external_body]
#[verifier::reject_recursive_types(T)]
pub struct ExReceiver<T>(crossbeam_channel::Receiver<T>);

/// What became of an outcome offered to the channel.
#[derive(Debug, Clone, Copy, PartialEq, Eq, Structural)]
pub enum Offer {
    /// The channel took the outcome.
    Accepted,
    /// The channel already holds an outcome.
    Full,
    /// The receiving side is gone.
    Disconnected,
}

/// Relies on crossbeam_channel::bounded: a fresh channel of capacity one,
/// both of its sides connected.
#[verifier::external_body]
pub(crate) fn outcome_channel() -> (crossbeam_channel::Sender<Msg>, crossbeam_channel::Receiver<Msg>) {
    crossbeam_channel::bounded(1)
}

/// Relies on crossbeam_channel::Sender::try_send: it never blocks; the
/// outcome is taken, or refused because the channel is full or disconnected.
/// Which of these comes depends on the other thread, so nothing is promised.
#[verifier::external_body]
pub(crate) fn offer(tx: &crossbeam_channel::Sender<Msg>, msg: Msg) -> (r: Offer) {
    match tx.try_send(msg) {
        Ok(()) => Offer::Accepted,
        Err(crossbeam_channel::TrySendError::Full(_)) => Offer::Full,
        Err(crossbeam_channel::TrySendError::Disconnected(_)) => Offer::Disconnected,
    }
}

/// Relies on crossbeam_channel::Receiver::try_recv: it never blocks, and
/// hands out a waiting outcome or nothing. Whether one waits depends on the
/// other thread, so nothing is promised.
#[verifier::external_body]
pub(crate) fn take(rx: &crossbeam_channel::Receiver<Msg>) -> (r: Option<Msg>) {
    rx.try_recv().ok()
}

} // verus!
