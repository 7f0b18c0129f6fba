//! The reply pair: the single-use slot that carries one response from the
//! task that answers a request to the task that asked.
//!
//! A slot starts out pending and is settled once, in one of three ways: it is
//! fulfilled, its responder goes away, or its deadline passes. Waiting is the
//! caller's part. This module decides what to wait for and what the result of
//! the wait means.

use vstd::prelude::*;
use core::time::Duration;
use tokio::sync::oneshot;
use tokio::sync::oneshot::error::RecvError as ReplyDropped;
use tokio::time::error::Elapsed;
use crate::error::{ReceiveError, RespondError};

verus! {

/// The capability to answer one request. Answering consumes it, so a request
/// is answered at most once.
#[derive(Debug)]
#[verifier::reject_recursive_types(Res)]
pub struct Responder<Res> {
    response_sender: oneshot::Sender<Res>,
}

/// The capability to wait for the answer to one request, with the deadline
/// that the wait is held to, if any.
#[derive(Debug)]
#[verifier::reject_recursive_types(Res)]
pub struct ResponseReceiver<Res> {
    response_receiver: Option<oneshot::Receiver<Res>>,
    timeout_duration: Option<Duration>,
}

/// What the holder of a claimed reply slot has to wait for.
#[derive(Debug)]
#[verifier::reject_recursive_types(Res)]
pub enum Wait<Res> {
    /// The reply, however long it takes.
    Reply(oneshot::Receiver<Res>),
    /// The reply or the end of the duration, whichever comes first.
    ReplyWithin(oneshot::Receiver<Res>, Duration),
}

/// How a reply slot was settled.
#[derive(Debug, Copy, PartialEq)]
pub enum Settled<Res> {
    /// The responder answered.
    Fulfilled(Res),
    /// The responder went away without answering.
    PeerDropped,
    /// The deadline passed first.
    TimedOut,
}

impl<Res> Responder<Res> {
    /// The half of the reply slot that this responder fills.
    pub closed spec fn slot(&self) -> oneshot::Sender<Res> {
        self.response_sender
    }

    /// A responder for the given half of a reply slot.
    pub(crate) fn new(response_sender: oneshot::Sender<Res>) -> (responder: Self)
        ensures
            responder.slot() == response_sender,
    {
        Responder { response_sender }
    }

    /// What `respond` answers, given what filling the slot came to.
    pub open spec fn delivered(sent: Result<(), Res>) -> Result<(), RespondError<Res>> {
        match sent {
            Ok(()) => Ok(()),
            Err(response) => Err(RespondError(response)),
        }
    }

    /// Turns the result of filling the slot into the result of `respond`: a
    /// value that came back is handed on inside the error.
    pub fn delivery(sent: Result<(), Res>) -> (outcome: Result<(), RespondError<Res>>)
        ensures
            outcome == Self::delivered(sent),
    {
        match sent {
            Ok(()) => Ok(()),
            Err(response) => Err(RespondError(response)),
        }
    }

    /// Answers the request. Fails where nobody waits for the answer any more,
    /// and then hands the response back unchanged.
    pub fn respond(self, response: Res) -> (outcome: Result<(), RespondError<Res>>)
        ensures
            outcome == Self::delivered(Ok(())) || outcome == Self::delivered(Err(response)),
    {
        Self::delivery(self.response_sender.send(response))
    }

    /// Whether the task that asked has given up on the answer.
    pub fn is_closed(&self) -> (closed: bool) {
        self.response_sender.is_closed()
    }
}

/// A clone is settled the same way, with a clone of the response where it
/// holds one.
impl<Res: Clone> Clone for Settled<Res> {
    fn clone(&self) -> (other: Self)
        ensures
            match *self {
                Settled::Fulfilled(response) => other matches Settled::Fulfilled(copy) && cloned::<
                    Res,
                >(response, copy),
                Settled::PeerDropped => other is PeerDropped,
                Settled::TimedOut => other is TimedOut,
            },
    {
        match self {
            Settled::Fulfilled(response) => Settled::Fulfilled(response.clone()),
            Settled::PeerDropped => Settled::PeerDropped,
            Settled::TimedOut => Settled::TimedOut,
        }
    }
}

impl<Res> Settled<Res> {
    /// How a wait without a deadline settled the slot.
    pub open spec fn of_reply(reply: Result<Res, ReplyDropped>) -> Self {
        match reply {
            Ok(response) => Settled::Fulfilled(response),
            Err(_) => Settled::PeerDropped,
        }
    }

    /// How a wait against a deadline settled the slot.
    pub open spec fn of_race(raced: Result<Result<Res, ReplyDropped>, Elapsed>) -> Self {
        match raced {
            Ok(reply) => Self::of_reply(reply),
            Err(_) => Settled::TimedOut,
        }
    }

    /// What the task that waited gets for a slot settled this way.
    pub open spec fn outcome(self) -> Result<Res, ReceiveError> {
        match self {
            Settled::Fulfilled(response) => Ok(response),
            Settled::PeerDropped => Err(ReceiveError::RecvError),
            Settled::TimedOut => Err(ReceiveError::TimeoutError),
        }
    }

    /// Reads the result of waiting for the reply alone.
    pub fn from_reply(reply: Result<Res, ReplyDropped>) -> (settled: Self)
        ensures
            settled == Self::of_reply(reply),
    {
        match reply {
            Ok(response) => Settled::Fulfilled(response),
            Err(_) => Settled::PeerDropped,
        }
    }

    /// Reads the result of racing the reply against a deadline.
    pub fn from_race(raced: Result<Result<Res, ReplyDropped>, Elapsed>) -> (settled: Self)
        ensures
            settled == Self::of_race(raced),
    {
        match raced {
            Ok(reply) => Self::from_reply(reply),
            Err(_) => Settled::TimedOut,
        }
    }

    /// The response, or the error that stands for the way the slot was
    /// settled without one.
    pub fn into_result(self) -> (result: Result<Res, ReceiveError>)
        ensures
            result == self.outcome(),
    {
        match self {
            Settled::Fulfilled(response) => Ok(response),
            Settled::PeerDropped => Err(ReceiveError::RecvError),
            Settled::TimedOut => Err(ReceiveError::TimeoutError),
        }
    }
}

impl<Res> ResponseReceiver<Res> {
    /// The waiting half of the reply slot, as long as nobody has claimed it.
    pub closed spec fn slot(&self) -> Option<oneshot::Receiver<Res>> {
        self.response_receiver
    }

    /// The deadline that a wait on this slot is held to.
    pub closed spec fn deadline(&self) -> Option<Duration> {
        self.timeout_duration
    }

    /// Whether the slot is still to be claimed.
    pub open spec fn is_pending(&self) -> bool {
        self.slot() is Some
    }

    /// What a claim answers on a receiver with the given slot and deadline.
    pub open spec fn claimed(
        slot: Option<oneshot::Receiver<Res>>,
        deadline: Option<Duration>,
    ) -> Result<Wait<Res>, ReceiveError> {
        match slot {
            None => Err(ReceiveError::RecvError),
            Some(reply) => match deadline {
                None => Ok(Wait::Reply(reply)),
                Some(limit) => Ok(Wait::ReplyWithin(reply, limit)),
            },
        }
    }

    /// This receiver once its slot has been claimed: the slot is gone, the
    /// deadline is as before.
    pub closed spec fn spent(self) -> Self {
        ResponseReceiver { response_receiver: None, timeout_duration: self.timeout_duration }
    }

    /// A claimed receiver has no slot, keeps its deadline, and stays as it is
    /// when claimed again.
    pub proof fn lemma_spent(self)
        ensures
            self.spent().slot() is None,
            self.spent().deadline() == self.deadline(),
            self.spent().spent() == self.spent(),
    {
    }

    /// A receiver that waits on the given half of a reply slot.
    pub(crate) fn new(
        response_receiver: oneshot::Receiver<Res>,
        timeout_duration: Option<Duration>,
    ) -> (receiver: Self)
        ensures
            receiver.slot() == Some(response_receiver),
            receiver.deadline() == timeout_duration,
    {
        ResponseReceiver { response_receiver: Some(response_receiver), timeout_duration }
    }

    /// Claims the reply slot and says what to wait for. The slot can be
    /// claimed once: every later claim fails with `RecvError`.
    pub fn claim(&mut self) -> (wait: Result<Wait<Res>, ReceiveError>)
        ensures
            wait == Self::claimed(old(self).slot(), old(self).deadline()),
            *final(self) == old(self).spent(),
            final(self).slot() is None,
            final(self).deadline() == old(self).deadline(),
    {
        match self.response_receiver.take() {
            Some(reply) => match self.timeout_duration {
                Some(limit) => Ok(Wait::ReplyWithin(reply, limit)),
                None => Ok(Wait::Reply(reply)),
            },
            None => Err(ReceiveError::RecvError),
        }
    }
}

} // verus!
