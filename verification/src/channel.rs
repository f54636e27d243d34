//! Trusted declarations of the one-shot completion channel.
//!
//! A pending wait hands its caller a receiver and keeps the matching sender
//! as the "pending" slot; completing the wait sends one unit value. The
//! channel itself comes from std and is opaque here: nothing is claimed of
//! when a signal arrives, only that receiving is bounded by its timeout.

use vstd::prelude::*;

verus! {

#[verifier::external_type_specification]
#[verifier::external_body]
#[verifier::reject_recursive_types(T)]
pub struct ExSender<T>(std::sync::mpsc::Sender<T>);

#[verifier::external_type_specification]
#[verifier::external_body]
#[verifier::reject_recursive_types(T)]
pub struct ExReceiver<T>(std::sync::mpsc::Receiver<T>);

/// Relies on std::sync::mpsc::channel: a fresh, unshared sender/receiver
/// pair for the one-shot completion signal.
#[verifier::external_body]
pub(crate) fn signal_channel() -> (std::sync::mpsc::Sender<()>, std::sync::mpsc::Receiver<()>) {
    std::sync::mpsc::channel()
}

/// Relies on std::sync::mpsc::Sender::send: delivers the completion signal
/// to the receiving side; sending into a closed channel only returns the
/// value, so a wait that is already gone makes this a no-op.
#[verifier::external_body]
pub(crate) fn send_signal(tx: std::sync::mpsc::Sender<()>) {
    let _ = tx.send(());
}

/// Relies on std::sync::mpsc::Receiver::recv_timeout: blocks until a signal
/// arrives, every sender is dropped, or at most the given milliseconds have
/// elapsed, whichever comes first; true only when a signal arrived.
#[verifier::external_body]
pub(crate) fn recv_signal_with_timeout(rx: &std::sync::mpsc::Receiver<()>, ms: u64) -> bool {
    rx.recv_timeout(core::time::Duration::from_millis(ms)).is_ok()
}

} // verus!
