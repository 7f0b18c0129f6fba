//! The bounded channel: a queue of fixed capacity that makes producers wait
//! while it is full.
//!
//! Waiting for room in the queue and for the next payload is the caller's
//! part. This module builds what goes into the queue and decides what the
//! queue's answers mean.

use vstd::prelude::*;
use vstd::std_specs::convert::FromSpecImpl;
use core::time::Duration;
use tokio::sync::mpsc;
use tokio::sync::mpsc::error::SendError as MpscSendError;
use crate::error::{RequestError, SendError};
use crate::reply::{Responder, ResponseReceiver};
use crate::tokio_specs::{bounded_queue, reply_slot};

verus! {

/// What travels through the queue: a request and the capability to answer
/// it.
#[derive(Debug)]
#[verifier::reject_recursive_types(Res)]
pub struct Payload<Req, Res> {
    /// The request.
    pub request: Req,
    /// The capability to answer it.
    pub responder: Responder<Res>,
}

/// A producer handle of the queue. Clones share the queue and the deadline.
#[derive(Debug)]
#[verifier::reject_recursive_types(Req)]
#[verifier::reject_recursive_types(Res)]
pub struct RequestSender<Req, Res> {
    request_sender: mpsc::Sender<Payload<Req, Res>>,
    timeout_duration: Option<Duration>,
}

/// The consumer handle of the queue. There is one for each channel.
#[derive(Debug)]
#[verifier::reject_recursive_types(Req)]
#[verifier::reject_recursive_types(Res)]
pub struct RequestReceiver<Req, Res> {
    request_receiver: mpsc::Receiver<Payload<Req, Res>>,
}

/// A request that is ready for the queue: the payload to put in, and the
/// receiver for the reply slot whose filling half the payload carries.
#[derive(Debug)]
#[verifier::reject_recursive_types(Res)]
pub struct Outgoing<Req, Res> {
    /// What to put into the queue.
    pub payload: Payload<Req, Res>,
    /// Where the answer will arrive. It is for the caller once the queue has
    /// taken the payload.
    pub receiver: ResponseReceiver<Res>,
}

impl<Req, Res> RequestSender<Req, Res> {
    /// The queue that this handle feeds.
    pub closed spec fn queue_handle(&self) -> mpsc::Sender<Payload<Req, Res>> {
        self.request_sender
    }

    /// The deadline given to every response that is awaited through this
    /// handle.
    pub closed spec fn deadline(&self) -> Option<Duration> {
        self.timeout_duration
    }

    /// What sending comes to, given what the queue answered: the receiver for
    /// the reply where the payload was queued, else the request that came
    /// back in the payload.
    pub open spec fn completed(
        receiver: ResponseReceiver<Res>,
        queued: Result<(), MpscSendError<Payload<Req, Res>>>,
    ) -> Result<ResponseReceiver<Res>, SendError<Req>> {
        match queued {
            Ok(()) => Ok(receiver),
            Err(refused) => Err(SendError(refused.0.request)),
        }
    }

    fn new(
        request_sender: mpsc::Sender<Payload<Req, Res>>,
        timeout_duration: Option<Duration>,
    ) -> (sender: Self)
        ensures
            sender.queue_handle() == request_sender,
            sender.deadline() == timeout_duration,
    {
        RequestSender { request_sender, timeout_duration }
    }

    /// The queue handle, for the caller to wait on.
    pub fn queue(&self) -> (handle: &mpsc::Sender<Payload<Req, Res>>)
        ensures
            *handle == self.queue_handle(),
    {
        &self.request_sender
    }

    /// Opens a fresh reply slot for the request. The request goes into the
    /// payload with the slot's filling half; the slot's waiting half goes
    /// into a receiver that is held to this handle's deadline.
    pub fn prepare(&self, request: Req) -> (outgoing: Outgoing<Req, Res>)
        ensures
            outgoing.payload.request == request,
            outgoing.receiver.is_pending(),
            outgoing.receiver.deadline() == self.deadline(),
    {
        let (response_sender, response_receiver) = reply_slot::<Res>();
        let responder = Responder::new(response_sender);
        let receiver = ResponseReceiver::new(response_receiver, self.timeout_duration);
        Outgoing { payload: Payload { request, responder }, receiver }
    }

    /// Decides what sending comes to once the queue has answered: on success
    /// the receiver for the reply; on failure the request, taken back out of
    /// the payload.
    pub fn complete(
        receiver: ResponseReceiver<Res>,
        queued: Result<(), MpscSendError<Payload<Req, Res>>>,
    ) -> (outcome: Result<ResponseReceiver<Res>, SendError<Req>>)
        ensures
            outcome == Self::completed(receiver, queued),
    {
        match queued {
            Ok(()) => Ok(receiver),
            Err(refused) => Err(SendError(refused.0.request)),
        }
    }

    /// Whether the queue has stopped taking requests for good.
    pub fn is_closed(&self) -> (closed: bool) {
        self.request_sender.is_closed()
    }
}

impl<Req, Res> Clone for RequestSender<Req, Res> {
    /// One more handle to the same queue, with the same deadline.
    fn clone(&self) -> (other: Self)
        ensures
            other.deadline() == self.deadline(),
    {
        RequestSender {
            request_sender: self.request_sender.clone(),
            timeout_duration: self.timeout_duration,
        }
    }
}

impl<Req, Res> RequestReceiver<Req, Res> {
    /// The queue that this handle drains.
    pub closed spec fn queue_handle(&self) -> mpsc::Receiver<Payload<Req, Res>> {
        self.request_receiver
    }

    /// What receiving comes to for what the queue gave: the payload, or
    /// `RecvError` where the queue has ended.
    pub open spec fn accepted(next: Option<Payload<Req, Res>>) -> Result<
        Payload<Req, Res>,
        RequestError<Req>,
    > {
        match next {
            Some(payload) => Ok(payload),
            None => Err(RequestError::RecvError),
        }
    }

    fn new(receiver: mpsc::Receiver<Payload<Req, Res>>) -> (made: Self)
        ensures
            made.queue_handle() == receiver,
    {
        RequestReceiver { request_receiver: receiver }
    }

    /// The queue handle, for the caller to wait on.
    pub fn queue_mut(&mut self) -> (handle: &mut mpsc::Receiver<Payload<Req, Res>>)
        ensures
            *handle == old(self).queue_handle(),
            final(self).queue_handle() == *final(handle),
    {
        &mut self.request_receiver
    }

    /// Decides what receiving comes to once the queue has answered.
    pub fn accept(next: Option<Payload<Req, Res>>) -> (outcome: Result<
        Payload<Req, Res>,
        RequestError<Req>,
    >)
        ensures
            outcome == Self::accepted(next),
    {
        match next {
            Some(payload) => Ok(payload),
            None => Err(RequestError::RecvError),
        }
    }

    /// Stops the queue from taking new requests. What it holds can still be
    /// received.
    pub fn close(&mut self) {
        self.request_receiver.close()
    }

    /// Wraps the receiver for use as a stream of payloads.
    pub fn into_stream(self) -> (stream: RequestReceiverStream<Req, Res>)
        ensures
            stream.receiver() == self,
    {
        RequestReceiverStream::from(self)
    }
}

/// Makes a bounded channel that holds up to `buffer` requests. Responses are
/// awaited without a deadline.
pub fn channel<Req, Res>(buffer: usize) -> (pair: (
    RequestSender<Req, Res>,
    RequestReceiver<Req, Res>,
))
    requires
        1 <= buffer <= usize::MAX / 8,
    ensures
        pair.0.deadline() is None,
{
    let (sender, receiver) = bounded_queue::<Payload<Req, Res>>(buffer);
    let request_sender = RequestSender::new(sender, None);
    let request_receiver = RequestReceiver::new(receiver);
    (request_sender, request_receiver)
}

/// Makes a bounded channel that holds up to `buffer` requests. Every
/// response is awaited for `timeout_duration` at most.
pub fn channel_with_timeout<Req, Res>(buffer: usize, timeout_duration: Duration) -> (pair: (
    RequestSender<Req, Res>,
    RequestReceiver<Req, Res>,
))
    requires
        1 <= buffer <= usize::MAX / 8,
    ensures
        pair.0.deadline() == Some(timeout_duration),
{
    let (sender, receiver) = bounded_queue::<Payload<Req, Res>>(buffer);
    let request_sender = RequestSender::new(sender, Some(timeout_duration));
    let request_receiver = RequestReceiver::new(receiver);
    (request_sender, request_receiver)
}

/// A receiver set up to be drained as a stream of payloads.
#[derive(Debug)]
#[verifier::reject_recursive_types(Req)]
#[verifier::reject_recursive_types(Res)]
pub struct RequestReceiverStream<Req, Res> {
    inner: RequestReceiver<Req, Res>,
}

impl<Req, Res> RequestReceiverStream<Req, Res> {
    /// The receiver inside.
    pub closed spec fn receiver(&self) -> RequestReceiver<Req, Res> {
        self.inner
    }

    /// Wraps a receiver.
    pub fn new(recv: RequestReceiver<Req, Res>) -> (stream: Self)
        ensures
            stream.receiver() == recv,
    {
        RequestReceiverStream { inner: recv }
    }

    /// Gives the receiver back.
    pub fn into_inner(self) -> (recv: RequestReceiver<Req, Res>)
        ensures
            recv == self.receiver(),
    {
        self.inner
    }

    /// Stops the queue from taking new requests. What it holds can still be
    /// received.
    pub fn close(&mut self) {
        self.inner.close()
    }
}

/// The receiver inside, to look at.
impl<Req, Res> AsRef<RequestReceiver<Req, Res>> for RequestReceiverStream<Req, Res> {
    fn as_ref(&self) -> (recv: &RequestReceiver<Req, Res>)
        ensures
            *recv == self.receiver(),
    {
        &self.inner
    }
}

/// The receiver inside, to receive from.
impl<Req, Res> AsMut<RequestReceiver<Req, Res>> for RequestReceiverStream<Req, Res> {
    fn as_mut(&mut self) -> (recv: &mut RequestReceiver<Req, Res>)
        ensures
            *recv == old(self).receiver(),
            final(self).receiver() == *final(recv),
    {
        &mut self.inner
    }
}

/// Wraps a receiver.
impl<Req, Res> From<RequestReceiver<Req, Res>> for RequestReceiverStream<Req, Res> {
    fn from(receiver: RequestReceiver<Req, Res>) -> (stream: Self) {
        RequestReceiverStream::new(receiver)
    }
}

impl<Req, Res> FromSpecImpl<RequestReceiver<Req, Res>> for RequestReceiverStream<Req, Res> {
    open spec fn obeys_from_spec() -> bool {
        true
    }

    closed spec fn from_spec(receiver: RequestReceiver<Req, Res>) -> Self {
        RequestReceiverStream { inner: receiver }
    }
}

} // verus!
