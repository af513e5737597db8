//! Loopback connection to the language client: a socket that streams
//! server-to-client requests and routes client-to-server responses, and the
//! two halves it splits into.

use core::task::{Context, Poll};
use futures::channel::mpsc::Receiver;
use std::sync::Arc;
use vstd::prelude::*;

use crate::channel::{queue_exhausted, rx_is_terminated, rx_poll_next, rx_size_hint};
use crate::jsonrpc::{Request, Response};
use crate::pending::Pending;
use crate::state::{ServerState, State};

verus! {

/// The transport no longer takes traffic: the server has exited.
#[derive(Clone, Copy, Debug, PartialEq, Eq, Structural)]
pub struct ExitedError;

/// Whether a stream role has nothing more to yield: the server has exited,
/// or the queue is exhausted. Exit wins over draining buffered requests.
pub open spec fn stream_done(state: State, exhausted: bool) -> bool {
    state == State::Exited || exhausted
}

/// Readiness of the unsplit socket's sink role: it refuses once the server
/// has exited or the queue is exhausted.
pub open spec fn socket_readiness(state: State, exhausted: bool) -> Result<(), ExitedError> {
    if stream_done(state, exhausted) {
        Err(ExitedError)
    } else {
        Ok(())
    }
}

/// Readiness of the split sink half: it holds no queue, so only the
/// lifecycle state decides.
pub open spec fn sink_readiness(state: State) -> Result<(), ExitedError> {
    if state == State::Exited {
        Err(ExitedError)
    } else {
        Ok(())
    }
}

fn is_done(state: State, exhausted: bool) -> (r: bool)
    ensures
        r == stream_done(state, exhausted),
{
    state == State::Exited || exhausted
}

/// A loopback channel for server-to-client communication.
#[derive(Debug)]
pub struct ClientSocket {
    rx: Receiver<Request>,
    pending: Arc<Pending>,
    state: Arc<ServerState>,
}

impl ClientSocket {
    /// The receiving end of the request queue.
    pub closed spec fn queue(&self) -> Receiver<Request> {
        self.rx
    }

    /// The registry port that responses go to.
    pub closed spec fn registry(&self) -> Arc<Pending> {
        self.pending
    }

    /// The shared lifecycle state.
    pub closed spec fn lifecycle(&self) -> Arc<ServerState> {
        self.state
    }

    /// Whether the request queue is exhausted.
    pub open spec fn exhausted(&self) -> bool {
        queue_exhausted(self.queue())
    }

    /// A socket over a fresh queue's receiving end, a registry port and a
    /// lifecycle state.
    pub fn new(rx: Receiver<Request>, pending: Arc<Pending>, state: Arc<ServerState>) -> (r: ClientSocket)
        ensures
            r.queue() == rx,
            r.registry() == pending,
            r.lifecycle() == state,
    {
        ClientSocket { rx, pending, state }
    }

    /// Splits this socket into two halves that operate independently: the
    /// stream half takes the queue, the sink half takes the registry port, and
    /// both share the lifecycle state.
    pub fn split(self) -> (r: (RequestStream, ResponseSink))
        ensures
            r.0.queue() == self.queue(),
            r.0.lifecycle() == self.lifecycle(),
            r.1.registry() == self.registry(),
            r.1.lifecycle() == self.lifecycle(),
    {
        let ClientSocket { rx, pending, state } = self;
        let state_ = state.clone();
        (RequestStream { rx, state: state_ }, ResponseSink { pending, state })
    }
}

impl ClientSocket {
    /// Polls for the next request, as [`ClientSocket::poll_next_with`] does
    /// for the lifecycle phase read now.
    pub fn poll_next(&mut self, cx: &mut Context) -> (r: Poll<Option<Request>>)
        ensures
            old(self).exhausted() ==> r matches Poll::Ready(None),
            old(self).exhausted() ==> final(self).exhausted(),
            final(self).registry() == old(self).registry(),
            final(self).lifecycle() == old(self).lifecycle(),
    {
        let s = self.state.get();
        self.poll_next_with(s, cx)
    }

    /// Polls for the next request, given the lifecycle phase `state`. Once
    /// the server has exited or the queue is exhausted this yields
    /// `Ready(None)` and takes nothing off the queue, even where requests are
    /// still buffered. Otherwise the queue is polled, and the socket ends up
    /// exhausted exactly when that poll reports the end.
    pub fn poll_next_with(&mut self, state: State, cx: &mut Context) -> (r: Poll<Option<Request>>)
        ensures
            stream_done(state, old(self).exhausted()) ==> r matches Poll::Ready(None),
            stream_done(state, old(self).exhausted()) ==> *final(self) == *old(self),
            !stream_done(state, old(self).exhausted()) ==> (final(self).exhausted() <==> r matches Poll::Ready(None)),
            final(self).registry() == old(self).registry(),
            final(self).lifecycle() == old(self).lifecycle(),
    {
        if is_done(state, rx_is_terminated(&self.rx)) {
            Poll::Ready(None)
        } else {
            rx_poll_next(&mut self.rx, cx)
        }
    }

    /// Bounds on the number of requests still to come, from the queue.
    pub fn size_hint(&self) -> (r: (usize, Option<usize>))
        ensures
            self.exhausted() ==> r == (0usize, Some(0usize)),
    {
        rx_size_hint(&self.rx)
    }

    /// Whether the queue is exhausted. This ignores the lifecycle state, so
    /// after an exit the socket may yield nothing and still not report itself
    /// terminated.
    pub fn is_terminated(&self) -> (r: bool)
        ensures
            r == self.exhausted(),
    {
        rx_is_terminated(&self.rx)
    }

    /// Whether a response can be taken, as [`ClientSocket::poll_ready_with`]
    /// says for the lifecycle phase read now. This never suspends.
    pub fn poll_ready(&mut self, _cx: &mut Context) -> (r: Poll<Result<(), ExitedError>>)
        ensures
            old(self).exhausted() ==> r == Poll::<Result<(), ExitedError>>::Ready(Err(ExitedError)),
            r matches Poll::Ready(_),
            *final(self) == *old(self),
    {
        let s = self.state.get();
        Poll::Ready(self.poll_ready_with(s))
    }

    /// Readiness for the lifecycle phase `state`: refused with `ExitedError`
    /// once the server has exited or the queue is exhausted, else ready.
    pub fn poll_ready_with(&self, state: State) -> (r: Result<(), ExitedError>)
        ensures
            r == socket_readiness(state, self.exhausted()),
    {
        if is_done(state, rx_is_terminated(&self.rx)) {
            Err(ExitedError)
        } else {
            Ok(())
        }
    }

    /// Hands `item` to the registry at once; always succeeds.
    pub fn start_send(&mut self, item: Response) -> (r: Result<(), ExitedError>)
        ensures
            r == Ok::<(), ExitedError>(()),
            *final(self) == *old(self),
    {
        self.pending.insert(item);
        Ok(())
    }

    /// Nothing is buffered on the sink side: flushing succeeds at once.
    pub fn poll_flush(&mut self, _cx: &mut Context) -> (r: Poll<Result<(), ExitedError>>)
        ensures
            r == Poll::<Result<(), ExitedError>>::Ready(Ok(())),
            *final(self) == *old(self),
    {
        Poll::Ready(Ok(()))
    }

    /// Closing succeeds at once.
    pub fn poll_close(&mut self, _cx: &mut Context) -> (r: Poll<Result<(), ExitedError>>)
        ensures
            r == Poll::<Result<(), ExitedError>>::Ready(Ok(())),
            *final(self) == *old(self),
    {
        Poll::Ready(Ok(()))
    }
}

/// Yields a stream of pending server-to-client requests.
#[derive(Debug)]
#[must_use]
pub struct RequestStream {
    rx: Receiver<Request>,
    state: Arc<ServerState>,
}

impl RequestStream {
    /// The receiving end of the request queue.
    pub closed spec fn queue(&self) -> Receiver<Request> {
        self.rx
    }

    /// The shared lifecycle state.
    pub closed spec fn lifecycle(&self) -> Arc<ServerState> {
        self.state
    }

    /// Whether the request queue is exhausted.
    pub open spec fn exhausted(&self) -> bool {
        queue_exhausted(self.queue())
    }

    /// Polls for the next request, as [`RequestStream::poll_next_with`] does
    /// for the lifecycle phase read now.
    pub fn poll_next(&mut self, cx: &mut Context) -> (r: Poll<Option<Request>>)
        ensures
            old(self).exhausted() ==> r matches Poll::Ready(None),
            old(self).exhausted() ==> final(self).exhausted(),
            final(self).lifecycle() == old(self).lifecycle(),
    {
        let s = self.state.get();
        self.poll_next_with(s, cx)
    }

    /// Polls for the next request, given the lifecycle phase `state`, with
    /// the same rule as the unsplit socket.
    pub fn poll_next_with(&mut self, state: State, cx: &mut Context) -> (r: Poll<Option<Request>>)
        ensures
            stream_done(state, old(self).exhausted()) ==> r matches Poll::Ready(None),
            stream_done(state, old(self).exhausted()) ==> *final(self) == *old(self),
            !stream_done(state, old(self).exhausted()) ==> (final(self).exhausted() <==> r matches Poll::Ready(None)),
            final(self).lifecycle() == old(self).lifecycle(),
    {
        if is_done(state, rx_is_terminated(&self.rx)) {
            Poll::Ready(None)
        } else {
            rx_poll_next(&mut self.rx, cx)
        }
    }

    /// Bounds on the number of requests still to come, from the queue.
    pub fn size_hint(&self) -> (r: (usize, Option<usize>))
        ensures
            self.exhausted() ==> r == (0usize, Some(0usize)),
    {
        rx_size_hint(&self.rx)
    }

    /// Whether the queue is exhausted, whatever the lifecycle state.
    pub fn is_terminated(&self) -> (r: bool)
        ensures
            r == self.exhausted(),
    {
        rx_is_terminated(&self.rx)
    }
}

/// Routes client-to-server responses back to the server.
#[derive(Debug)]
pub struct ResponseSink {
    pending: Arc<Pending>,
    state: Arc<ServerState>,
}

impl ResponseSink {
    /// The registry port that responses go to.
    pub closed spec fn registry(&self) -> Arc<Pending> {
        self.pending
    }

    /// The shared lifecycle state.
    pub closed spec fn lifecycle(&self) -> Arc<ServerState> {
        self.state
    }

    /// Whether a response can be taken, as [`ResponseSink::poll_ready_with`]
    /// says for the lifecycle phase read now. This never suspends.
    pub fn poll_ready(&mut self, _cx: &mut Context) -> (r: Poll<Result<(), ExitedError>>)
        ensures
            r matches Poll::Ready(_),
            *final(self) == *old(self),
    {
        let s = self.state.get();
        Poll::Ready(self.poll_ready_with(s))
    }

    /// Readiness for the lifecycle phase `state`: refused with `ExitedError`
    /// exactly when the server has exited.
    pub fn poll_ready_with(&self, state: State) -> (r: Result<(), ExitedError>)
        ensures
            r == sink_readiness(state),
    {
        if state == State::Exited {
            Err(ExitedError)
        } else {
            Ok(())
        }
    }

    /// Hands `item` to the registry at once; always succeeds.
    pub fn start_send(&mut self, item: Response) -> (r: Result<(), ExitedError>)
        ensures
            r == Ok::<(), ExitedError>(()),
            *final(self) == *old(self),
    {
        self.pending.insert(item);
        Ok(())
    }

    /// Nothing is buffered on the sink side: flushing succeeds at once.
    pub fn poll_flush(&mut self, _cx: &mut Context) -> (r: Poll<Result<(), ExitedError>>)
        ensures
            r == Poll::<Result<(), ExitedError>>::Ready(Ok(())),
            *final(self) == *old(self),
    {
        Poll::Ready(Ok(()))
    }

    /// Closing succeeds at once.
    pub fn poll_close(&mut self, _cx: &mut Context) -> (r: Poll<Result<(), ExitedError>>)
        ensures
            r == Poll::<Result<(), ExitedError>>::Ready(Ok(())),
            *final(self) == *old(self),
    {
        Poll::Ready(Ok(()))
    }
}

/// Once the server has exited, every sink-capable handle refuses: the
/// unsplit socket, whatever its queue, and the split sink half.
pub proof fn lemma_exit_rejects_every_sink(exhausted: bool)
    ensures
        socket_readiness(State::Exited, exhausted) == Err::<(), ExitedError>(ExitedError),
        sink_readiness(State::Exited) == Err::<(), ExitedError>(ExitedError),
{
}

/// Before the server exits, the sink half is always ready, and so is the
/// unsplit socket while its queue lasts.
pub proof fn lemma_ready_before_exit(state: State, exhausted: bool)
    requires
        state != State::Exited,
    ensures
        sink_readiness(state) == Ok::<(), ExitedError>(()),
        !exhausted ==> socket_readiness(state, exhausted) == Ok::<(), ExitedError>(()),
{
}

/// The sink half does not depend on the stream half: with the queue
/// exhausted or gone it still takes responses until the server exits, where
/// the unsplit socket would refuse.
pub proof fn lemma_sink_half_ignores_queue(state: State)
    requires
        state != State::Exited,
    ensures
        sink_readiness(state) == Ok::<(), ExitedError>(()),
        socket_readiness(state, true) == Err::<(), ExitedError>(ExitedError),
{
}

/// An exit ends the stream role whatever the queue still holds, and an
/// exhausted queue ends it whatever the phase.
pub proof fn lemma_exit_ends_stream(state: State, exhausted: bool)
    ensures
        stream_done(State::Exited, exhausted),
        stream_done(state, true),
{
}

} // verus!
