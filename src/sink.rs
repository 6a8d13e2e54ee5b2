//! Client-bound packet sinks: the send ends of the per-session outbound
//! queues, which the routing snapshot holds and the routing actor pushes to.

use vstd::prelude::*;
use crate::protocol::ClientPacket;

verus! {

#[verifier::external_type_specification]
#[verifier::external_body]
#[verifier::reject_recursive_types(T)]
pub struct ExUnboundedSender<T>(tokio::sync::mpsc::UnboundedSender<T>);

/// Relies on tokio's `Clone` for `UnboundedSender`: a new handle to the same
/// queue. Nothing more is stated of it.
pub assume_specification<T>[ <tokio::sync::mpsc::UnboundedSender<T> as Clone>::clone ](
    s: &tokio::sync::mpsc::UnboundedSender<T>,
) -> tokio::sync::mpsc::UnboundedSender<T>;

/// Send end of a session's outbound queue.
pub type ClientSink = tokio::sync::mpsc::UnboundedSender<ClientPacket>;

/// Relies on tokio's `UnboundedSender::send`, given an owned copy of
/// `packet`: it never blocks, and it fails only when the receiving session
/// has gone away. Nothing is promised of the outcome, which depends on the
/// receiver.
#[verifier::external_body]
pub(crate) fn push_packet(sink: &ClientSink, packet: &ClientPacket) -> (accepted: bool) {
    sink.send(packet.clone()).is_ok()
}

} // verus!
