//! The unbounded channel: a queue without a capacity, so that sending never
//! waits.
//!
//! Waiting for the next payload is the caller's part. Everything else is
//! done here.

use vstd::prelude::*;
use vstd::std_specs::convert::FromSpecImpl;
use core::time::Duration;
use tokio::sync::mpsc;
use tokio::sync::mpsc::error::SendError as MpscSendError;
use tokio::sync::oneshot;
use crate::error::{RequestError, RespondError, SendError};
use crate::reply::{Responder, ResponseReceiver};
use crate::tokio_specs::{reply_slot, unbounded_queue};

verus! {

/// What travels through the queue: a request and the capability to answer
/// it.
pub type Payload<Req, Res> = (Req, UnboundedResponder<Res>);

/// A producer handle of the queue. Clones share the queue and the deadline.
#[derive(Debug)]
#[verifier::reject_recursive_types(Req)]
#[verifier::reject_recursive_types(Res)]
pub struct UnboundedRequestSender<Req, Res> {
    request_sender: mpsc::UnboundedSender<Payload<Req, Res>>,
    timeout_duration: Option<Duration>,
}

/// The consumer handle of the queue. There is one for each channel.
#[derive(Debug)]
#[verifier::reject_recursive_types(Req)]
#[verifier::reject_recursive_types(Res)]
pub struct UnboundedRequestReceiver<Req, Res> {
    request_receiver: mpsc::UnboundedReceiver<Payload<Req, Res>>,
}

/// The capability to answer one request. Answering consumes it, so a request
/// is answered at most once.
#[derive(Debug)]
#[verifier::reject_recursive_types(Res)]
pub struct UnboundedResponder<Res> {
    response_sender: oneshot::Sender<Res>,
}

impl<Req, Res> UnboundedRequestSender<Req, Res> {
    /// The queue that this handle feeds.
    pub closed spec fn queue_handle(&self) -> mpsc::UnboundedSender<Payload<Req, Res>> {
        self.request_sender
    }

    /// The deadline given to every response that is awaited through this
    /// handle.
    pub closed spec fn deadline(&self) -> Option<Duration> {
        self.timeout_duration
    }

    /// What `send` answers, given what the queue answered: the receiver for
    /// the reply where the payload was queued, else the request that came
    /// back in the payload.
    pub open spec fn completed(
        receiver: ResponseReceiver<Res>,
        queued: Result<(), MpscSendError<Payload<Req, Res>>>,
    ) -> Result<ResponseReceiver<Res>, SendError<Req>> {
        match queued {
            Ok(()) => Ok(receiver),
            Err(refused) => Err(SendError(refused.0.0)),
        }
    }

    fn new(
        request_sender: mpsc::UnboundedSender<Payload<Req, Res>>,
        timeout_duration: Option<Duration>,
    ) -> (sender: Self)
        ensures
            sender.queue_handle() == request_sender,
            sender.deadline() == timeout_duration,
    {
        UnboundedRequestSender { request_sender, timeout_duration }
    }

    /// Decides what `send` answers once the queue has answered: on success
    /// the receiver for the reply; on failure the request, taken back out of
    /// the payload.
    pub fn complete(
        receiver: ResponseReceiver<Res>,
        queued: Result<(), MpscSendError<Payload<Req, Res>>>,
    ) -> (outcome: Result<ResponseReceiver<Res>, SendError<Req>>)
        ensures
            outcome == Self::completed(receiver, queued),
    {
        match queued {
            Ok(()) => Ok(receiver),
            Err(refused) => Err(SendError(refused.0.0)),
        }
    }

    /// Opens a fresh reply slot, queues the request with the slot's filling
    /// half, and returns a receiver for the slot's waiting half that is held
    /// to this handle's deadline. Never waits. Fails where the queue is
    /// closed, and then hands the request back unchanged.
    pub fn send(&self, request: Req) -> (outcome: Result<ResponseReceiver<Res>, SendError<Req>>)
        ensures
            match outcome {
                Ok(receiver) => receiver.is_pending() && receiver.deadline() == self.deadline(),
                Err(refused) => refused == SendError(request),
            },
    {
        let (response_sender, response_receiver) = reply_slot::<Res>();
        let responder = UnboundedResponder::new(response_sender);
        let receiver = ResponseReceiver::new(response_receiver, self.timeout_duration);
        let queued = self.request_sender.send((request, responder));
        Self::complete(receiver, queued)
    }

    /// Whether the queue has stopped taking requests for good.
    pub fn is_closed(&self) -> (closed: bool) {
        self.request_sender.is_closed()
    }
}

impl<Req, Res> Clone for UnboundedRequestSender<Req, Res> {
    /// One more handle to the same queue, with the same deadline.
    fn clone(&self) -> (other: Self)
        ensures
            other.deadline() == self.deadline(),
    {
        UnboundedRequestSender {
            request_sender: self.request_sender.clone(),
            timeout_duration: self.timeout_duration,
        }
    }
}

impl<Req, Res> UnboundedRequestReceiver<Req, Res> {
    /// The queue that this handle drains.
    pub closed spec fn queue_handle(&self) -> mpsc::UnboundedReceiver<Payload<Req, Res>> {
        self.request_receiver
    }

    /// What receiving comes to for what the queue gave: the payload, or
    /// `RecvError` where the queue has ended.
    pub open spec fn accepted(next: Option<Payload<Req, Res>>) -> Result<
        Payload<Req, Res>,
        RequestError<Req>,
    > {
        match next {
            Some(payload) => Ok(payload),
            None => Err(RequestError::RecvError),
        }
    }

    fn new(receiver: mpsc::UnboundedReceiver<Payload<Req, Res>>) -> (made: Self)
        ensures
            made.queue_handle() == receiver,
    {
        UnboundedRequestReceiver { request_receiver: receiver }
    }

    /// The queue handle, for the caller to wait on.
    pub fn queue_mut(&mut self) -> (handle: &mut mpsc::UnboundedReceiver<Payload<Req, Res>>)
        ensures
            *handle == old(self).queue_handle(),
            final(self).queue_handle() == *final(handle),
    {
        &mut self.request_receiver
    }

    /// Decides what receiving comes to once the queue has answered.
    pub fn accept(next: Option<Payload<Req, Res>>) -> (outcome: Result<
        Payload<Req, Res>,
        RequestError<Req>,
    >)
        ensures
            outcome == Self::accepted(next),
    {
        match next {
            Some(payload) => Ok(payload),
            None => Err(RequestError::RecvError),
        }
    }

    /// Stops the queue from taking new requests. What it holds can still be
    /// received.
    pub fn close(&mut self) {
        self.request_receiver.close()
    }

    /// Wraps the receiver for use as a stream of payloads.
    pub fn into_stream(self) -> (stream: UnboundedRequestReceiverStream<Req, Res>)
        ensures
            stream.receiver() == self,
    {
        UnboundedRequestReceiverStream::from(self)
    }
}

impl<Res> UnboundedResponder<Res> {
    /// The half of the reply slot that this responder fills.
    pub closed spec fn slot(&self) -> oneshot::Sender<Res> {
        self.response_sender
    }

    fn new(response_sender: oneshot::Sender<Res>) -> (responder: Self)
        ensures
            responder.slot() == response_sender,
    {
        UnboundedResponder { response_sender }
    }

    /// Answers the request. Fails where nobody waits for the answer any more,
    /// and then hands the response back unchanged.
    pub fn respond(self, response: Res) -> (outcome: Result<(), RespondError<Res>>)
        ensures
            outcome == Responder::<Res>::delivered(Ok(())) || outcome == Responder::<
                Res,
            >::delivered(Err(response)),
    {
        Responder::<Res>::delivery(self.response_sender.send(response))
    }

    /// Whether the task that asked has given up on the answer.
    pub fn is_closed(&self) -> (closed: bool) {
        self.response_sender.is_closed()
    }
}

/// Makes an unbounded channel. Responses are awaited without a deadline.
pub fn channel<Req, Res>() -> (pair: (
    UnboundedRequestSender<Req, Res>,
    UnboundedRequestReceiver<Req, Res>,
))
    ensures
        pair.0.deadline() is None,
{
    let (sender, receiver) = unbounded_queue::<Payload<Req, Res>>();
    let request_sender = UnboundedRequestSender::new(sender, None);
    let request_receiver = UnboundedRequestReceiver::new(receiver);
    (request_sender, request_receiver)
}

/// Makes an unbounded channel. Every response is awaited for
/// `timeout_duration` at most.
pub fn channel_with_timeout<Req, Res>(timeout_duration: Duration) -> (pair: (
    UnboundedRequestSender<Req, Res>,
    UnboundedRequestReceiver<Req, Res>,
))
    ensures
        pair.0.deadline() == Some(timeout_duration),
{
    let (sender, receiver) = unbounded_queue::<Payload<Req, Res>>();
    let request_sender = UnboundedRequestSender::new(sender, Some(timeout_duration));
    let request_receiver = UnboundedRequestReceiver::new(receiver);
    (request_sender, request_receiver)
}

/// A receiver set up to be drained as a stream of payloads.
#[derive(Debug)]
#[verifier::reject_recursive_types(Req)]
#[verifier::reject_recursive_types(Res)]
pub struct UnboundedRequestReceiverStream<Req, Res> {
    inner: UnboundedRequestReceiver<Req, Res>,
}

impl<Req, Res> UnboundedRequestReceiverStream<Req, Res> {
    /// The receiver inside.
    pub closed spec fn receiver(&self) -> UnboundedRequestReceiver<Req, Res> {
        self.inner
    }

    /// Wraps a receiver.
    pub fn new(recv: UnboundedRequestReceiver<Req, Res>) -> (stream: Self)
        ensures
            stream.receiver() == recv,
    {
        UnboundedRequestReceiverStream { inner: recv }
    }

    /// Gives the receiver back.
    pub fn into_inner(self) -> (recv: UnboundedRequestReceiver<Req, Res>)
        ensures
            recv == self.receiver(),
    {
        self.inner
    }

    /// Stops the queue from taking new requests. What it holds can still be
    /// received.
    pub fn close(&mut self) {
        self.inner.close()
    }
}

/// The receiver inside, to look at.
impl<Req, Res> AsRef<UnboundedRequestReceiver<Req, Res>> for UnboundedRequestReceiverStream<
    Req,
    Res,
> {
    fn as_ref(&self) -> (recv: &UnboundedRequestReceiver<Req, Res>)
        ensures
            *recv == self.receiver(),
    {
        &self.inner
    }
}

/// The receiver inside, to receive from.
impl<Req, Res> AsMut<UnboundedRequestReceiver<Req, Res>> for UnboundedRequestReceiverStream<
    Req,
    Res,
> {
    fn as_mut(&mut self) -> (recv: &mut UnboundedRequestReceiver<Req, Res>)
        ensures
            *recv == old(self).receiver(),
            final(self).receiver() == *final(recv),
    {
        &mut self.inner
    }
}

/// Wraps a receiver.
impl<Req, Res> From<UnboundedRequestReceiver<Req, Res>> for UnboundedRequestReceiverStream<
    Req,
    Res,
> {
    fn from(receiver: UnboundedRequestReceiver<Req, Res>) -> (stream: Self) {
        UnboundedRequestReceiverStream::new(receiver)
    }
}

impl<Req, Res> FromSpecImpl<UnboundedRequestReceiver<Req, Res>> for UnboundedRequestReceiverStream<
    Req,
    Res,
> {
    open spec fn obeys_from_spec() -> bool {
        true
    }

    closed spec fn from_spec(receiver: UnboundedRequestReceiver<Req, Res>) -> Self {
        UnboundedRequestReceiverStream { inner: receiver }
    }
}

} // verus!
