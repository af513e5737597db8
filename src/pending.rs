//! The registry of calls awaiting a response, seen from the transport: a
//! port that takes responses. Matching a response to its call happens on the
//! other side of the port.

use futures::channel::mpsc::UnboundedSender;
use vstd::prelude::*;

use crate::jsonrpc::Response;

verus! {

#[verifier::external_type_specification]
#[verifier::external_body]
#[verifier::reject_recursive_types(T)]
pub struct ExUnboundedSender<T>(UnboundedSender<T>);

/// Relies on futures' `UnboundedSender::unbounded_send`: it queues the value
/// without waiting, or hands it back when the receiving side is gone. Either
/// outcome is accepted here, so the result is dropped.
#[verifier::external_body]
fn forward(tx: &UnboundedSender<Response>, r: Response) {
    let _ = tx.unbounded_send(r);
}

/// Inbound port of the pending-call registry.
#[derive(Debug)]
pub struct Pending {
    tx: UnboundedSender<Response>,
}

impl Pending {
    /// A registry port that forwards every response to `tx`.
    pub fn new(tx: UnboundedSender<Response>) -> (r: Pending)
        ensures
            r.sender() == tx,
    {
        Pending { tx }
    }

    /// The sending end that responses are forwarded to.
    pub closed spec fn sender(&self) -> UnboundedSender<Response> {
        self.tx
    }

    /// Hands `r` to the registry, at once and without acknowledgement. A
    /// response that answers no outstanding call is the registry's concern.
    pub fn insert(&self, r: Response) {
        forward(&self.tx, r);
    }
}

} // verus!
