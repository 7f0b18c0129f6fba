//! What holds of every exchange, whatever the queue and the reply slots do.
//!
//! Each law is stated over the functions that say what the channel decides:
//! how a reply slot was settled, what the waiting caller gets for it, and
//! what the request comes to.

use vstd::prelude::*;
use vstd::std_specs::convert::FromSpec;
use core::time::Duration;
use tokio::sync::mpsc::error::SendError as MpscSendError;
use tokio::sync::oneshot;
use tokio::sync::oneshot::error::RecvError as ReplyDropped;
use tokio::time::error::Elapsed;
use crate::bounded::{Payload, RequestReceiver, RequestSender};
use crate::error::{ReceiveError, RequestError, RespondError, SendError};
use crate::reply::{Responder, ResponseReceiver, Settled, Wait};
use crate::unbounded::{UnboundedRequestReceiver, UnboundedRequestSender};

verus! {

/// Round trip: a response that the wait on a reply slot yields, alone or
/// raced against a deadline, is handed on unchanged to the task that waited
/// for it, also where it sent the request and waited in one go.
pub proof fn round_trip<Req, Res>(response: Res)
    ensures
        Settled::of_reply(Ok(response)).outcome() == Ok::<Res, ReceiveError>(response),
        Settled::of_race(Ok(Ok(response))).outcome() == Ok::<Res, ReceiveError>(response),
        RequestError::<Req>::concluded(Settled::of_reply(Ok(response)).outcome()) == Ok::<
            Res,
            RequestError<Req>,
        >(response),
        RequestError::<Req>::concluded(Settled::of_race(Ok(Ok(response))).outcome()) == Ok::<
            Res,
            RequestError<Req>,
        >(response),
{
}

/// Dropped responder: where the wait on a reply slot yields that the
/// responder was dropped, alone or raced against a deadline, the task that
/// waited gets `RecvError`, as a `ReceiveError` and as a `RequestError`.
pub proof fn dropped_responder_is_recv_error<Req, Res>(dropped: ReplyDropped)
    ensures
        Settled::<Res>::of_reply(Err(dropped)).outcome() == Err::<Res, _>(ReceiveError::RecvError),
        Settled::<Res>::of_race(Ok(Err(dropped))).outcome() == Err::<Res, _>(
            ReceiveError::RecvError,
        ),
        RequestError::<Req>::concluded(Settled::<Res>::of_reply(Err(dropped)).outcome()) == Err::<
            Res,
            _,
        >(RequestError::<Req>::RecvError),
        RequestError::<Req>::concluded(Settled::<Res>::of_race(Ok(Err(dropped))).outcome())
            == Err::<Res, _>(RequestError::<Req>::RecvError),
{
}

/// Timeout race: the first claim on a receiver with a deadline asks for a
/// wait held to that deadline. Where the race yields that the deadline
/// passed, the task that waited gets `TimeoutError` as a `ReceiveError` and
/// `RecvTimeoutError` as a `RequestError`; where it yields a response, the
/// task gets the response.
pub proof fn timeout_race<Req, Res>(
    reply: oneshot::Receiver<Res>,
    limit: Duration,
    elapsed: Elapsed,
    response: Res,
)
    ensures
        ResponseReceiver::claimed(Some(reply), Some(limit)) == Ok::<_, ReceiveError>(
            Wait::ReplyWithin(reply, limit),
        ),
        Settled::<Res>::of_race(Err(elapsed)).outcome() == Err::<Res, _>(
            ReceiveError::TimeoutError,
        ),
        RequestError::<Req>::concluded(Settled::<Res>::of_race(Err(elapsed)).outcome()) == Err::<
            Res,
            _,
        >(RequestError::<Req>::RecvTimeoutError),
        Settled::of_race(Ok(Ok(response))).outcome() == Ok::<Res, ReceiveError>(response),
        RequestError::<Req>::concluded(Settled::of_race(Ok(Ok(response))).outcome()) == Ok::<
            Res,
            RequestError<Req>,
        >(response),
{
}

/// Without a deadline the first claim asks for a wait on the reply alone,
/// and whatever that wait yields, the task that waited does not get
/// `TimeoutError`.
pub proof fn no_deadline_no_timeout<Res>(
    reply: oneshot::Receiver<Res>,
    waited: Result<Res, ReplyDropped>,
)
    ensures
        ResponseReceiver::claimed(Some(reply), None) == Ok::<_, ReceiveError>(Wait::Reply(reply)),
        Settled::of_reply(waited) != Settled::<Res>::TimedOut,
        Settled::of_reply(waited).outcome() != Err::<Res, _>(ReceiveError::TimeoutError),
{
}

/// The receiver that a successful send returns is the one that was prepared
/// for the request: where it was pending, its first claim asks for a wait on
/// its reply slot, held to its deadline where it has one.
pub proof fn first_claim_waits_on_the_sent_slot<Req, Res>(
    receiver: ResponseReceiver<Res>,
    reply: oneshot::Receiver<Res>,
)
    requires
        receiver.slot() == Some(reply),
    ensures
        RequestSender::<Req, Res>::completed(receiver, Ok(())) == Ok::<_, SendError<Req>>(receiver),
        UnboundedRequestSender::<Req, Res>::completed(receiver, Ok(())) == Ok::<
            _,
            SendError<Req>,
        >(receiver),
        ResponseReceiver::claimed(receiver.slot(), receiver.deadline()) == Ok::<_, ReceiveError>(
            match receiver.deadline() {
                Some(limit) => Wait::ReplyWithin(reply, limit),
                None => Wait::Reply(reply),
            },
        ),
{
}

/// Single-use receiver: a claim on a receiver whose reply slot is gone
/// fails with `RecvError`, whatever the deadline.
pub proof fn claim_without_slot_fails<Res>(deadline: Option<Duration>)
    ensures
        ResponseReceiver::<Res>::claimed(None, deadline) == Err::<Wait<Res>, _>(
            ReceiveError::RecvError,
        ),
{
}

/// Single-use receiver: whatever a receiver was before its first claim, every
/// later claim fails with `RecvError` and leaves the receiver as it is. A
/// claimed receiver never becomes pending again.
pub proof fn later_claims_fail<Res>(receiver: ResponseReceiver<Res>)
    ensures
        ResponseReceiver::claimed(receiver.spent().slot(), receiver.spent().deadline()) == Err::<
            Wait<Res>,
            _,
        >(ReceiveError::RecvError),
        receiver.spent().spent() == receiver.spent(),
        !receiver.spent().is_pending(),
{
    receiver.lemma_spent();
}

/// The result tells how the slot was settled: two ways of settling that give
/// the same result are the same way.
pub proof fn result_tells_how_settled<Res>(first: Settled<Res>, second: Settled<Res>)
    requires
        first.outcome() == second.outcome(),
    ensures
        first == second,
{
}

/// No response is lost: where filling the reply slot hands the response
/// back, `respond` hands it on unchanged inside the error; where it does
/// not, `respond` succeeds.
pub proof fn undelivered_response_comes_back<Res>(response: Res)
    ensures
        Responder::<Res>::delivered(Err(response)) == Err::<(), _>(RespondError(response)),
        Responder::<Res>::delivered(Ok(())) == Ok::<(), RespondError<Res>>(()),
{
}

/// No request is lost: where the queue refuses a payload, sending fails
/// with the payload's request unchanged inside the error, whatever the
/// receiver, and the request stays unchanged where that error is turned into
/// a `RequestError`.
pub proof fn refused_request_comes_back<Req, Res>(
    receiver: ResponseReceiver<Res>,
    payload: Payload<Req, Res>,
)
    ensures
        RequestSender::completed(receiver, Err(MpscSendError(payload))) == Err::<
            ResponseReceiver<Res>,
            _,
        >(SendError(payload.request)),
        RequestError::<Req>::from_spec(SendError(payload.request)) == RequestError::SendError(
            payload.request,
        ),
{
}

/// The same for the unbounded channel.
pub proof fn refused_unbounded_request_comes_back<Req, Res>(
    receiver: ResponseReceiver<Res>,
    payload: crate::unbounded::Payload<Req, Res>,
)
    ensures
        UnboundedRequestSender::completed(receiver, Err(MpscSendError(payload))) == Err::<
            ResponseReceiver<Res>,
            _,
        >(SendError(payload.0)),
        RequestError::<Req>::from_spec(SendError(payload.0)) == RequestError::SendError(payload.0),
{
}

/// Where the queue yields that it has ended, receiving fails with
/// `RecvError`, and only there: a payload that the queue yields is handed on
/// unchanged.
pub proof fn recv_fails_where_the_queue_ends<Req, Res>(next: Option<Payload<Req, Res>>)
    ensures
        RequestReceiver::accepted(next) is Err <==> next is None,
        next is None ==> RequestReceiver::accepted(next) == Err::<Payload<Req, Res>, _>(
            RequestError::<Req>::RecvError,
        ),
        next matches Some(payload) ==> RequestReceiver::accepted(next) == Ok::<
            _,
            RequestError<Req>,
        >(payload),
{
}

/// The same for the unbounded channel.
pub proof fn unbounded_recv_fails_where_the_queue_ends<Req, Res>(
    next: Option<crate::unbounded::Payload<Req, Res>>,
)
    ensures
        UnboundedRequestReceiver::accepted(next) is Err <==> next is None,
        next is None ==> UnboundedRequestReceiver::accepted(next) == Err::<
            crate::unbounded::Payload<Req, Res>,
            _,
        >(RequestError::<Req>::RecvError),
        next matches Some(payload) ==> UnboundedRequestReceiver::accepted(next) == Ok::<
            _,
            RequestError<Req>,
        >(payload),
{
}

} // verus!
