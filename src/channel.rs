//! The receiving end of the request queue, futures' bounded `mpsc`
//! channel, and the task types that polling it needs.
//!
//! What the queue holds changes under the producer's hand, so no contract
//! speaks of it. The one fact of the receiver itself is whether it is
//! exhausted: it has seen the channel closed and drained, and has let go of it.

use core::task::{Context, Poll};
use futures::channel::mpsc::Receiver;
use vstd::prelude::*;

use crate::jsonrpc::Request;

verus! {

#[verifier::external_type_specification]
#[verifier::external_body]
#[verifier::reject_recursive_types(T)]
pub struct ExReceiver<T>(Receiver<T>);

#[verifier::external_type_specification]
#[verifier::external_body]
pub struct ExContext<'a>(Context<'a>);

#[verifier::external_type_specification]
#[verifier::reject_recursive_types(T)]
pub struct ExPoll<T>(Poll<T>);

/// Whether the receiver is exhausted: what its `FusedStream::is_terminated`
/// reports.
pub uninterp spec fn queue_exhausted(rx: Receiver<Request>) -> bool;

/// Relies on futures' `FusedStream::is_terminated` for `mpsc::Receiver`,
/// which tells whether the receiver has let go of the channel.
#[verifier::external_body]
pub(crate) fn rx_is_terminated(rx: &Receiver<Request>) -> (r: bool)
    ensures
        r == queue_exhausted(*rx),
{
    futures::stream::FusedStream::is_terminated(rx)
}

/// Relies on futures' `Stream::poll_next` for `mpsc::Receiver`: an exhausted
/// receiver yields `Ready(None)` and stays exhausted; otherwise it yields the
/// next message, or registers the task and reports `Pending`, or, on a closed
/// and drained channel, yields `Ready(None)` and becomes exhausted.
#[verifier::external_body]
pub(crate) fn rx_poll_next(rx: &mut Receiver<Request>, cx: &mut Context) -> (r: Poll<Option<Request>>)
    ensures
        queue_exhausted(*old(rx)) ==> r matches Poll::Ready(None),
        queue_exhausted(*final(rx)) <==> r matches Poll::Ready(None),
{
    futures::stream::StreamExt::poll_next_unpin(rx, cx)
}

/// Relies on futures' `Stream::size_hint` for `mpsc::Receiver`: an exhausted
/// receiver reports exactly zero items left; otherwise the count comes from
/// the channel's shared state.
#[verifier::external_body]
pub(crate) fn rx_size_hint(rx: &Receiver<Request>) -> (r: (usize, Option<usize>))
    ensures
        queue_exhausted(*rx) ==> r == (0usize, Some(0usize)),
{
    futures::stream::Stream::size_hint(rx)
}

} // verus!
