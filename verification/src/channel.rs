//! The one shared resource between the converter and the poller: an
//! unbounded, ordered, single-producer message channel. The channel itself
//! comes from an outside crate; the calls into it stand behind trusted
//! wrappers, and everything done with what they return is verified.

use vstd::prelude::*;

verus! {

#[verifier::external_type_specification]
#[verifier::external_body]
#[verifier::reject_recursive_types(T)]
pub struct ExUnboundedSender<T>(futures::channel::mpsc::UnboundedSender<T>);

#[verifier::external_type_specification]
#[verifier::external_body]
#[verifier::reject_recursive_types(T)]
pub struct ExUnboundedReceiver<T>(futures::channel::mpsc::UnboundedReceiver<T>);

/// Relies on `futures::channel::mpsc::UnboundedSender::unbounded_send`:
/// queues the message for the receiver, failing only when the receiving end
/// was closed or dropped. Whether it succeeds depends on the channel's state
/// at the moment of the call, so nothing more is stated of the outcome.
#[verifier::external_body]
pub(crate) fn channel_send(
    tx: &futures::channel::mpsc::UnboundedSender<String>,
    msg: String,
) -> bool {
    tx.unbounded_send(msg).is_ok()
}

/// Relies on `futures::channel::mpsc::UnboundedReceiver::try_recv`: pops the
/// next buffered message without blocking, and reports an error when the
/// channel is currently empty or closed. What arrives depends on the
/// producer's timing, so nothing more is stated of the outcome.
#[verifier::external_body]
pub(crate) fn channel_try_recv(
    rx: &mut futures::channel::mpsc::UnboundedReceiver<String>,
) -> Option<String> {
    match rx.try_recv() {
        Ok(m) => Some(m),
        Err(_) => None,
    }
}

} // verus!
