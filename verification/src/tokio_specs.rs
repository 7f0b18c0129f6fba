//! What this crate assumes of tokio, without proof.
//!
//! The queue and the reply slot are shared with other tasks, so nothing is
//! claimed here of what a handle will answer next: only what holds of every
//! answer.

use vstd::prelude::*;
use tokio::sync::mpsc::error::SendError as MpscSendError;

verus! {

/// `tokio::sync::mpsc::Sender`: a producer handle of a bounded queue.
#[verifier::external_type_specification]
#[verifier::external_body]
#[verifier::reject_recursive_types(T)]
pub struct ExMpscSender<T>(tokio::sync::mpsc::Sender<T>);

/// `tokio::sync::mpsc::Receiver`: the consumer handle of a bounded queue.
#[verifier::external_type_specification]
#[verifier::external_body]
#[verifier::reject_recursive_types(T)]
pub struct ExMpscReceiver<T>(tokio::sync::mpsc::Receiver<T>);

/// `tokio::sync::mpsc::UnboundedSender`: a producer handle of an unbounded
/// queue.
#[verifier::external_type_specification]
#[verifier::external_body]
#[verifier::reject_recursive_types(T)]
pub struct ExMpscUnboundedSender<T>(tokio::sync::mpsc::UnboundedSender<T>);

/// `tokio::sync::mpsc::UnboundedReceiver`: the consumer handle of an
/// unbounded queue.
#[verifier::external_type_specification]
#[verifier::external_body]
#[verifier::reject_recursive_types(T)]
pub struct ExMpscUnboundedReceiver<T>(tokio::sync::mpsc::UnboundedReceiver<T>);

/// `tokio::sync::oneshot::Sender`: the half of a reply slot that fills it.
#[verifier::external_type_specification]
#[verifier::external_body]
#[verifier::reject_recursive_types(T)]
pub struct ExOneshotSender<T>(tokio::sync::oneshot::Sender<T>);

/// `tokio::sync::oneshot::Receiver`: the half of a reply slot that waits.
#[verifier::external_type_specification]
#[verifier::external_body]
#[verifier::reject_recursive_types(T)]
pub struct ExOneshotReceiver<T>(tokio::sync::oneshot::Receiver<T>);

/// `tokio::sync::mpsc::error::SendError`: the error of a send on a closed
/// queue. Its one public field is the message that was not sent.
#[verifier::external_type_specification]
#[verifier::reject_recursive_types(T)]
pub struct ExMpscSendError<T>(MpscSendError<T>);

/// `tokio::sync::oneshot::error::RecvError`: the sending half of a reply slot
/// was dropped without a value.
#[verifier::external_type_specification]
#[verifier::external_body]
pub struct ExOneshotRecvError(tokio::sync::oneshot::error::RecvError);

/// `tokio::time::error::Elapsed`: a deadline passed.
#[verifier::external_type_specification]
#[verifier::external_body]
pub struct ExElapsed(tokio::time::error::Elapsed);

/// Calls `tokio::sync::mpsc::channel`, which makes a bounded queue. It
/// panics on a capacity of zero and on one above `usize::MAX >> 3`, so both
/// are left out. Nothing is claimed of the two handles.
#[verifier::external_body]
pub(crate) fn bounded_queue<T>(buffer: usize) -> (pair: (
    tokio::sync::mpsc::Sender<T>,
    tokio::sync::mpsc::Receiver<T>,
))
    requires
        1 <= buffer <= usize::MAX / 8,
{
    tokio::sync::mpsc::channel(buffer)
}

/// Calls `tokio::sync::mpsc::unbounded_channel`, which makes an unbounded
/// queue. Nothing is claimed of the two handles.
#[verifier::external_body]
pub(crate) fn unbounded_queue<T>() -> (pair: (
    tokio::sync::mpsc::UnboundedSender<T>,
    tokio::sync::mpsc::UnboundedReceiver<T>,
)) {
    tokio::sync::mpsc::unbounded_channel()
}

/// Calls `tokio::sync::oneshot::channel`, which makes a reply slot. Nothing
/// is claimed of the two halves.
#[verifier::external_body]
pub(crate) fn reply_slot<T>() -> (pair: (
    tokio::sync::oneshot::Sender<T>,
    tokio::sync::oneshot::Receiver<T>,
)) {
    tokio::sync::oneshot::channel()
}

/// `tokio::sync::oneshot::Sender::send` fills the slot, or hands the value
/// back where the waiting half is gone: the value in `Err` is the one that
/// was offered.
pub assume_specification<T>[ tokio::sync::oneshot::Sender::<T>::send ](
    sender: tokio::sync::oneshot::Sender<T>,
    t: T,
) -> (sent: Result<(), T>)
    ensures
        sent matches Err(back) ==> back == t,
;

/// `tokio::sync::oneshot::Sender::is_closed` tells whether the waiting half
/// is gone at this moment. Nothing is claimed of the answer.
pub assume_specification<T>[ tokio::sync::oneshot::Sender::<T>::is_closed ](
    sender: &tokio::sync::oneshot::Sender<T>,
) -> (closed: bool);

/// `tokio::sync::mpsc::UnboundedSender::send` queues the message, or hands it
/// back where the queue is closed: the message in `Err` is the one that was
/// offered. It never waits. (It ends the process where the count of queued
/// messages would pass half of `usize::MAX`, more than memory can hold.)
pub assume_specification<T>[ tokio::sync::mpsc::UnboundedSender::<T>::send ](
    sender: &tokio::sync::mpsc::UnboundedSender<T>,
    message: T,
) -> (sent: Result<(), MpscSendError<T>>)
    ensures
        sent matches Err(refused) ==> refused.0 == message,
;

/// `tokio::sync::mpsc::UnboundedSender::is_closed` tells whether the queue is
/// closed at this moment. Nothing is claimed of the answer.
pub assume_specification<T>[ tokio::sync::mpsc::UnboundedSender::<T>::is_closed ](
    sender: &tokio::sync::mpsc::UnboundedSender<T>,
) -> (closed: bool);

/// `tokio::sync::mpsc::Sender::is_closed` tells whether the queue is closed
/// at this moment. Nothing is claimed of the answer.
pub assume_specification<T>[ tokio::sync::mpsc::Sender::<T>::is_closed ](
    sender: &tokio::sync::mpsc::Sender<T>,
) -> (closed: bool);

/// `Clone` of `tokio::sync::mpsc::Sender` gives one more handle. Nothing is
/// claimed of it.
pub assume_specification<T>[ <tokio::sync::mpsc::Sender<T> as Clone>::clone ](
    sender: &tokio::sync::mpsc::Sender<T>,
) -> (other: tokio::sync::mpsc::Sender<T>);

/// `Clone` of `tokio::sync::mpsc::UnboundedSender` gives one more handle.
/// Nothing is claimed of it.
pub assume_specification<T>[ <tokio::sync::mpsc::UnboundedSender<T> as Clone>::clone ](
    sender: &tokio::sync::mpsc::UnboundedSender<T>,
) -> (other: tokio::sync::mpsc::UnboundedSender<T>);

/// `tokio::sync::mpsc::Receiver::close` closes the queue to further sends.
/// Nothing is claimed of the handle afterwards.
pub assume_specification<T>[ tokio::sync::mpsc::Receiver::<T>::close ](
    receiver: &mut tokio::sync::mpsc::Receiver<T>,
);

/// `tokio::sync::mpsc::UnboundedReceiver::close` closes the queue to further
/// sends. Nothing is claimed of the handle afterwards.
pub assume_specification<T>[ tokio::sync::mpsc::UnboundedReceiver::<T>::close ](
    receiver: &mut tokio::sync::mpsc::UnboundedReceiver<T>,
);

} // verus!
