//! Trusted view of the outbound channel endpoints the control plane writes
//! to: the sender half of tokio's unbounded channel.

use vstd::prelude::*;

verus! {

#[verifier::external_type_specification]
#[verifier::external_body]
#[verifier::reject_recursive_types(T)]
pub struct ExUnboundedSender<T>(tokio::sync::mpsc::UnboundedSender<T>);

/// Relies on tokio's `UnboundedSender::send`: it never blocks, and it fails
/// exactly when the receiving half has been dropped. Whether that has
/// happened depends on the peer, so nothing is promised of the outcome.
#[verifier::external_body]
pub fn send_message<T>(sender: &tokio::sync::mpsc::UnboundedSender<T>, message: T) -> bool {
    sender.send(message).is_ok()
}

} // verus!
