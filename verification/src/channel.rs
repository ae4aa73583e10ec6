//! Trusted declarations for the watch channel that carries the cancel
//! signal: a single-writer latch whose value goes from `false` to `true`
//! once, written by the time broker and polled by the search worker.

use vstd::prelude::*;

verus! {

#[verifier::external_type_specification]
#[verifier::external_body]
#[verifier::reject_recursive_types(T)]
pub struct ExWatchSender<T>(tokio::sync::watch::Sender<T>);

#[verifier::external_type_specification]
#[verifier::external_body]
#[verifier::reject_recursive_types(T)]
pub struct ExWatchReceiver<T>(tokio::sync::watch::Receiver<T>);

/// Relies on `tokio::sync::watch::channel`: a fresh latch, not yet
/// signalled.
#[verifier::external_body]
pub(crate) fn new_cancel_channel() -> (tokio::sync::watch::Sender<bool>, tokio::sync::watch::Receiver<
    bool,
>) {
    tokio::sync::watch::channel(false)
}

/// Relies on `Receiver::has_changed` and `Receiver::borrow`: polls the
/// latch without blocking; a closed channel counts as changed, and the
/// stored value then decides.  When the signal arrives depends on the
/// timer and on scheduling, so nothing is assumed of the result.
#[verifier::external_body]
pub(crate) fn cancel_requested(rx: &tokio::sync::watch::Receiver<bool>) -> bool {
    rx.has_changed().unwrap_or(true) && *rx.borrow()
}

/// Relies on `Sender::send`: writes `true` to the latch.  The send fails
/// only when every receiver is gone, and the stop is then moot.
#[verifier::external_body]
pub(crate) fn send_stop_signal(tx: &tokio::sync::watch::Sender<bool>) {
    let _ = tx.send(true);
}

/// Relies on `Clone for Receiver`: another receiver of the same latch.
#[verifier::external_body]
pub(crate) fn clone_receiver(rx: &tokio::sync::watch::Receiver<bool>) -> tokio::sync::watch::Receiver<
    bool,
> {
    rx.clone()
}

} // verus!
