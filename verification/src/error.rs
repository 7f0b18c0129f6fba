//! The errors of the channel. Each one that stands for a value that did not
//! arrive carries that value back.

use vstd::prelude::*;
use vstd::std_specs::convert::FromSpecImpl;
use tokio::sync::mpsc::error::SendError as MpscSendError;
use tokio::sync::oneshot::error::RecvError as ReplyDropped;

verus! {

/// A request could not be queued because the queue is closed. Holds the
/// request.
#[derive(Debug, PartialEq)]
pub struct SendError<T>(pub T);

/// A response could not be delivered because nobody waits for it any more.
/// Holds the response.
#[derive(Debug, Copy, PartialEq)]
pub struct RespondError<T>(pub T);

/// Why waiting for a response failed.
#[derive(Debug, Copy, Clone, PartialEq)]
pub enum ReceiveError {
    /// The responder went away without answering, or the response was
    /// already taken.
    RecvError,
    /// The deadline passed before the response came.
    TimeoutError,
}

/// Why a request failed, on either side of the queue.
#[derive(Debug, Copy, PartialEq)]
pub enum RequestError<T> {
    /// The other side of the queue or of the reply slot is gone.
    RecvError,
    /// The deadline passed before the response came.
    RecvTimeoutError,
    /// The request could not be queued. Holds the request.
    SendError(T),
}

/// A clone holds a clone of the response.
impl<T: Clone> Clone for RespondError<T> {
    fn clone(&self) -> (other: Self)
        ensures
            cloned::<T>(self.0, other.0),
    {
        RespondError(self.0.clone())
    }
}

/// A clone is the same kind of error, with a clone of the request where it
/// holds one.
impl<T: Clone> Clone for RequestError<T> {
    fn clone(&self) -> (other: Self)
        ensures
            match *self {
                RequestError::RecvError => other is RecvError,
                RequestError::RecvTimeoutError => other is RecvTimeoutError,
                RequestError::SendError(request) => other matches RequestError::SendError(copy)
                    && cloned::<T>(request, copy),
            },
    {
        match self {
            RequestError::RecvError => RequestError::RecvError,
            RequestError::RecvTimeoutError => RequestError::RecvTimeoutError,
            RequestError::SendError(request) => RequestError::SendError(request.clone()),
        }
    }
}

/// The error as tokio's own, with the request as the message.
impl<T> From<SendError<T>> for MpscSendError<T> {
    fn from(err: SendError<T>) -> (ret: Self) {
        MpscSendError(err.0)
    }
}

impl<T> FromSpecImpl<SendError<T>> for MpscSendError<T> {
    open spec fn obeys_from_spec() -> bool {
        true
    }

    open spec fn from_spec(err: SendError<T>) -> Self {
        MpscSendError(err.0)
    }
}

/// tokio's error as this crate's, with the message as the request.
impl<T> From<MpscSendError<T>> for SendError<T> {
    fn from(err: MpscSendError<T>) -> (ret: Self) {
        SendError(err.0)
    }
}

impl<T> FromSpecImpl<MpscSendError<T>> for SendError<T> {
    open spec fn obeys_from_spec() -> bool {
        true
    }

    open spec fn from_spec(err: MpscSendError<T>) -> Self {
        SendError(err.0)
    }
}

/// A request that could not be queued fails with `SendError`, and keeps the
/// request.
impl<T> From<SendError<T>> for RequestError<T> {
    fn from(err: SendError<T>) -> (ret: Self) {
        RequestError::SendError(err.0)
    }
}

impl<T> FromSpecImpl<SendError<T>> for RequestError<T> {
    open spec fn obeys_from_spec() -> bool {
        true
    }

    open spec fn from_spec(err: SendError<T>) -> Self {
        RequestError::SendError(err.0)
    }
}

/// A response that could not be delivered fails with `SendError`, and keeps
/// the response.
impl<T> From<RespondError<T>> for RequestError<T> {
    fn from(err: RespondError<T>) -> (ret: Self) {
        RequestError::SendError(err.0)
    }
}

impl<T> FromSpecImpl<RespondError<T>> for RequestError<T> {
    open spec fn obeys_from_spec() -> bool {
        true
    }

    open spec fn from_spec(err: RespondError<T>) -> Self {
        RequestError::SendError(err.0)
    }
}

/// An error of the wait for a response, as the error of the request.
impl<T> From<ReceiveError> for RequestError<T> {
    fn from(err: ReceiveError) -> (ret: Self) {
        match err {
            ReceiveError::RecvError => RequestError::RecvError,
            ReceiveError::TimeoutError => RequestError::RecvTimeoutError,
        }
    }
}

impl<T> FromSpecImpl<ReceiveError> for RequestError<T> {
    open spec fn obeys_from_spec() -> bool {
        true
    }

    open spec fn from_spec(err: ReceiveError) -> Self {
        match err {
            ReceiveError::RecvError => RequestError::RecvError,
            ReceiveError::TimeoutError => RequestError::RecvTimeoutError,
        }
    }
}

/// A reply slot whose filling half was dropped fails with `RecvError`.
impl From<ReplyDropped> for ReceiveError {
    fn from(_err: ReplyDropped) -> (ret: Self) {
        ReceiveError::RecvError
    }
}

impl FromSpecImpl<ReplyDropped> for ReceiveError {
    open spec fn obeys_from_spec() -> bool {
        true
    }

    open spec fn from_spec(_err: ReplyDropped) -> Self {
        ReceiveError::RecvError
    }
}

impl<T> SendError<T> {
    /// The text that describes the error.
    pub open spec fn message(&self) -> Seq<char> {
        "channel closed"@
    }

    /// The error in words.
    pub fn to_string(&self) -> (text: String)
        ensures
            text@ == self.message(),
    {
        "channel closed".to_owned()
    }
}

impl<T> RespondError<T> {
    /// The text that describes the error.
    pub open spec fn message(&self) -> Seq<char> {
        "sender closed the response channel"@
    }

    /// The error in words.
    pub fn to_string(&self) -> (text: String)
        ensures
            text@ == self.message(),
    {
        "sender closed the response channel".to_owned()
    }
}

impl ReceiveError {
    /// The text that describes the error.
    pub open spec fn message(&self) -> Seq<char> {
        match self {
            ReceiveError::RecvError => "receive channel closed"@,
            ReceiveError::TimeoutError => "request timed out"@,
        }
    }

    /// The error in words.
    pub fn to_string(&self) -> (text: String)
        ensures
            text@ == self.message(),
    {
        match self {
            ReceiveError::RecvError => "receive channel closed".to_owned(),
            ReceiveError::TimeoutError => "request timed out".to_owned(),
        }
    }
}

impl<T> RequestError<T> {
    /// What a request that was queued comes to, given what waiting for its
    /// response came to.
    pub open spec fn concluded<Res>(received: Result<Res, ReceiveError>) -> Result<Res, Self> {
        match received {
            Ok(response) => Ok(response),
            Err(ReceiveError::RecvError) => Err(RequestError::RecvError),
            Err(ReceiveError::TimeoutError) => Err(RequestError::RecvTimeoutError),
        }
    }

    /// Hands a response on, and turns an error of the wait into the error of
    /// the request.
    pub fn conclude<Res>(received: Result<Res, ReceiveError>) -> (outcome: Result<Res, Self>)
        ensures
            outcome == Self::concluded(received),
    {
        match received {
            Ok(response) => Ok(response),
            Err(err) => Err(Self::from(err)),
        }
    }

    /// The text that describes the error.
    pub open spec fn message(&self) -> Seq<char> {
        match self {
            RequestError::RecvError => "request channel closed"@,
            RequestError::RecvTimeoutError => "request timed out"@,
            RequestError::SendError(_) => "channel closed"@,
        }
    }

    /// The error in words.
    pub fn to_string(&self) -> (text: String)
        ensures
            text@ == self.message(),
    {
        match self {
            RequestError::RecvError => "request channel closed".to_owned(),
            RequestError::RecvTimeoutError => "request timed out".to_owned(),
            RequestError::SendError(_) => "channel closed".to_owned(),
        }
    }
}

} // verus!
