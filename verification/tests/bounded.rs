use bmrng::error::{ReceiveError, RequestError, RespondError, SendError};
use bmrng::{
    Outgoing, Payload, RequestReceiver, RequestReceiverStream, RequestSender, ResponseReceiver,
    Settled, Wait,
};
use std::future::Future;
use std::task::{Context, Poll, Waker};
use tokio::sync::mpsc::error::{SendError as MpscSendError, TrySendError};
use tokio::sync::oneshot;
use tokio::sync::oneshot::error::RecvError;
use tokio::time::error::Elapsed;
use tokio::time::Duration;

/// Waits for the reply or the end of `limit`, on a runtime of its own.
fn race<Res>(
    limit: Duration,
    reply: oneshot::Receiver<Res>,
) -> Result<Result<Res, RecvError>, Elapsed> {
    let runtime = tokio::runtime::Builder::new_current_thread()
        .enable_time()
        .build()
        .unwrap();
    let _guard = runtime.enter();
    runtime.block_on(tokio::time::timeout(limit, reply))
}

/// `send`, with the calling thread waiting for room in the queue.
fn send<Req, Res>(
    tx: &RequestSender<Req, Res>,
    request: Req,
) -> Result<ResponseReceiver<Res>, SendError<Req>> {
    let Outgoing { payload, receiver } = tx.prepare(request);
    let queued = tx.queue().blocking_send(payload);
    RequestSender::complete(receiver, queued)
}

/// `recv` on the response side, with the calling thread waiting.
fn recv_response<Res>(receiver: &mut ResponseReceiver<Res>) -> Result<Res, ReceiveError> {
    let settled = match receiver.claim()? {
        Wait::Reply(reply) => Settled::from_reply(reply.blocking_recv()),
        Wait::ReplyWithin(reply, limit) => Settled::from_race(race(limit, reply)),
    };
    settled.into_result()
}

/// `recv` on the request side, with the calling thread waiting.
fn recv_request<Req, Res>(
    rx: &mut RequestReceiver<Req, Res>,
) -> Result<Payload<Req, Res>, RequestError<Req>> {
    RequestReceiver::accept(rx.queue_mut().blocking_recv())
}

/// The next item of the stream, with the calling thread waiting.
fn next<Req, Res>(stream: &mut RequestReceiverStream<Req, Res>) -> Option<Payload<Req, Res>> {
    stream.as_mut().queue_mut().blocking_recv()
}

#[derive(Debug)]
struct Req(u32);

#[test]
fn bounded_send_receive() {
    let (tx, mut rx) = bmrng::channel::<i32, i32>(1);
    assert!(!tx.is_closed());
    let mut receiver = send(&tx, 8).expect("Unexpected err");
    {
        let Payload { request: input, responder } = recv_request(&mut rx).expect("Unexpected err");
        assert!(!responder.is_closed());
        let res = responder.respond(input * input);
        assert!(res.is_ok());
    }
    drop(rx);
    let response: Result<i32, RequestError<i32>> =
        RequestError::conclude(recv_response(&mut receiver));
    assert!(tx.is_closed());
    assert_eq!(response, Ok(64));
}

#[test]
fn bounded_request_sender_clone() {
    let (tx, mut rx) = bmrng::channel::<i32, i32>(1);
    let tx2 = tx.clone();

    let mut receiver = send(&tx2, 7).expect("Unexpected err");
    let Payload { request: input, responder } = recv_request(&mut rx).expect("Unexpected err");
    assert!(!responder.is_closed());
    let res = responder.respond(input * input);
    assert!(res.is_ok());
    let response: Result<i32, RequestError<i32>> =
        RequestError::conclude(recv_response(&mut receiver));
    assert_eq!(response, Ok(49));

    assert!(!tx.is_closed());
    let mut receiver = send(&tx, 8).expect("Unexpected err");
    let Payload { request: input, responder } = recv_request(&mut rx).expect("Unexpected err");
    assert!(!responder.is_closed());
    let res = responder.respond(input * input);
    assert!(res.is_ok());
    let response: Result<i32, RequestError<i32>> =
        RequestError::conclude(recv_response(&mut receiver));
    assert_eq!(response, Ok(64));
}

#[test]
fn bounded_drop_while_waiting_for_response() {
    let (tx, mut rx) = bmrng::channel::<i32, i32>(1);
    let mut receiver = send(&tx, 8).expect("Unexpected err");
    let Payload { request: _, responder } = recv_request(&mut rx).expect("Unexpected err");
    drop(responder);
    let response: Result<i32, RequestError<i32>> =
        RequestError::conclude(recv_response(&mut receiver));
    assert_eq!(response, Err(RequestError::RecvError));
}

#[test]
fn bounded_drop_while_waiting_for_request() {
    let (tx, mut rx) = bmrng::channel::<i32, i32>(1);
    drop(tx);
    let err = recv_request(&mut rx).expect_err("this should not be ok");
    assert_eq!(err, RequestError::RecvError);
    let again = recv_request(&mut rx).expect_err("this should not be ok");
    assert_eq!(again, RequestError::RecvError);
}

#[test]
fn bounded_drop_sender_while_sending_response() {
    let (tx, mut rx) = bmrng::channel::<i32, i32>(1);
    let response_receiver = send(&tx, 21);
    drop(response_receiver);
    let Payload { request: _, responder } = recv_request(&mut rx).expect("Unexpected err");
    assert!(responder.is_closed());
    let respond_result = responder.respond(42);
    assert_eq!(respond_result, Err(RespondError(42)));
}

#[test]
fn bounded_close_request_receiver() {
    let (tx, mut rx) = bmrng::channel::<i32, i32>(4);
    let mut response_receiver = send(&tx, 21).unwrap();
    rx.close();
    let Payload { request: input, responder } = recv_request(&mut rx).unwrap();
    assert!(responder.respond(input * 2).is_ok());
    let response = recv_response(&mut response_receiver);
    assert_eq!(response, Ok(42));
    drop(response_receiver);
    assert!(tx.is_closed());
    let refused = send(&tx, 1);
    assert!(refused.is_err());
    assert_eq!(refused.unwrap_err(), SendError(1));
    assert_eq!(recv_request(&mut rx).unwrap_err(), RequestError::RecvError);
}

#[test]
fn bounded_timeout() {
    let (tx, mut rx) = bmrng::channel_with_timeout::<i32, i32>(1, Duration::from_millis(100));
    assert!(!tx.is_closed());
    let mut receiver = send(&tx, 8).expect("Unexpected err");
    let Payload { request: _input, responder } = recv_request(&mut rx).expect("Unexpected err");
    assert!(!responder.is_closed());
    let response: Result<i32, RequestError<i32>> =
        RequestError::conclude(recv_response(&mut receiver));
    assert_eq!(response, Err(RequestError::<i32>::RecvTimeoutError));
    assert!(responder.is_closed());
    assert_eq!(responder.respond(64), Err(RespondError(64)));
}

#[test]
fn bounded_response_before_timeout() {
    let (tx, mut rx) = bmrng::channel_with_timeout::<i32, i32>(1, Duration::from_millis(100));
    let mut receiver = send(&tx, 8).expect("Unexpected err");
    let Payload { request: input, responder } = recv_request(&mut rx).expect("Unexpected err");
    assert!(responder.respond(input * input).is_ok());
    assert_eq!(recv_response(&mut receiver), Ok(64));
}

#[test]
fn bounded_timeout_is_handed_to_the_wait() {
    let limit = Duration::from_millis(100);
    let (tx, _rx) = bmrng::channel_with_timeout::<i32, i32>(1, limit);
    let mut receiver = send(&tx.clone(), 8).expect("Unexpected err");
    match receiver.claim() {
        Ok(Wait::ReplyWithin(_, given)) => assert_eq!(given, limit),
        other => panic!("expected a wait with a deadline, got {:?}", other),
    }
    let (tx, _rx) = bmrng::channel::<i32, i32>(1);
    let mut receiver = send(&tx, 8).expect("Unexpected err");
    assert!(matches!(receiver.claim(), Ok(Wait::Reply(_))));
}

#[test]
fn bounded_stream() {
    let (tx, rx) = bmrng::channel::<i32, i32>(1);
    let mut stream = rx.into_stream();
    for (request, expected) in [(8, 64), (3, 9), (1, 1)] {
        assert!(!tx.is_closed());
        let mut receiver = send(&tx, request).expect("Unexpected err");
        let Payload { request: input, responder } = next(&mut stream).expect("Unexpected end");
        assert_eq!(responder.is_closed(), false);
        let res = responder.respond(input * input);
        assert!(res.is_ok());
        let response: Result<i32, RequestError<i32>> =
            RequestError::conclude(recv_response(&mut receiver));
        assert_eq!(response, Ok(expected));
    }
    assert!(!tx.is_closed());
    drop(tx);
    assert!(next(&mut stream).is_none());
    assert!(next(&mut stream).is_none());
}

#[test]
fn bounded_stream_close() {
    let (tx, rx) = bmrng::channel::<i32, i32>(2);
    let mut stream = RequestReceiverStream::from(rx);
    let _receiver = send(&tx, 5).expect("Unexpected err");
    stream.close();
    assert_eq!(send(&tx, 6).unwrap_err(), SendError(6));
    assert_eq!(next(&mut stream).expect("Unexpected end").request, 5);
    assert!(next(&mut stream).is_none());
    let _rx: &RequestReceiver<i32, i32> = stream.as_ref();
}

#[test]
fn req_receiver_into_inner() {
    let (tx, rx) = bmrng::channel::<i32, i32>(1);
    let stream = RequestReceiverStream::new(rx);
    let mut rx = stream.into_inner();
    assert!(!tx.is_closed());
    let mut receiver = send(&tx, 8).expect("Unexpected err");
    {
        let Payload { request: input, responder } = recv_request(&mut rx).expect("Unexpected err");
        assert!(!responder.is_closed());
        let res = responder.respond(input * input);
        assert!(res.is_ok());
    }
    drop(rx);
    let response: Result<i32, RequestError<i32>> =
        RequestError::conclude(recv_response(&mut receiver));
    assert!(tx.is_closed());
    assert_eq!(response, Ok(64));
}

#[test]
fn closing_tx() {
    let (tx, mut rx) = bmrng::channel::<Req, u32>(16);
    let res = send(&tx, Req(4));
    assert!(res.is_ok());
    drop(tx);

    let v = recv_request(&mut rx);
    assert!(v.is_ok());

    let v = recv_request(&mut rx);
    assert!(v.is_err());
}

#[test]
fn closing_tx_res() {
    let (tx, mut rx) = bmrng::channel::<Req, u32>(16);
    let res = send(&tx, Req(5));

    let v = recv_request(&mut rx);
    let Payload { request, responder } = v.unwrap();
    let v = responder.respond(request.0 * 2);
    assert!(v.is_ok());

    let repl = recv_response(&mut res.unwrap());
    assert_eq!(repl, Ok(10));
    drop(tx);

    let v = recv_request(&mut rx);
    assert!(v.is_err());
}

#[test]
fn bounded_backpressure() {
    let (tx, mut rx) = bmrng::channel::<i32, i32>(2);
    let _first = send(&tx, 1).expect("Unexpected err");
    let _second = send(&tx, 2).expect("Unexpected err");

    // The queue is full: a third request is neither taken nor refused.
    let Outgoing { payload, receiver } = tx.prepare(3);
    let payload = match tx.queue().try_send(payload) {
        Err(TrySendError::Full(payload)) => payload,
        other => panic!("expected a full queue, got {:?}", other.map_err(|_| ())),
    };
    assert_eq!(payload.request, 3);
    assert!(!tx.is_closed());

    // Sending it waits.
    let mut context = Context::from_waker(Waker::noop());
    let mut waiting = Box::pin(tx.queue().send(payload));
    assert!(waiting.as_mut().poll(&mut context).is_pending());
    assert!(waiting.as_mut().poll(&mut context).is_pending());

    // Room opens once a request is taken out, and the wait ends.
    assert_eq!(recv_request(&mut rx).expect("Unexpected err").request, 1);
    let queued = match waiting.as_mut().poll(&mut context) {
        Poll::Ready(queued) => queued,
        Poll::Pending => panic!("the send still waits"),
    };
    drop(waiting);
    let third = RequestSender::complete(receiver, queued);
    assert!(third.is_ok());

    // Nothing was reordered.
    assert_eq!(recv_request(&mut rx).expect("Unexpected err").request, 2);
    assert_eq!(recv_request(&mut rx).expect("Unexpected err").request, 3);
}

#[test]
fn bounded_pending_recv_fails_when_senders_drop() {
    let (tx, mut rx) = bmrng::channel::<i32, i32>(1);
    let tx2 = tx.clone();
    let mut context = Context::from_waker(Waker::noop());
    {
        let mut waiting = Box::pin(rx.queue_mut().recv());
        assert!(waiting.as_mut().poll(&mut context).is_pending());
        drop(tx);
        assert!(waiting.as_mut().poll(&mut context).is_pending());
        drop(tx2);
        match waiting.as_mut().poll(&mut context) {
            Poll::Ready(next) => {
                assert_eq!(RequestReceiver::accept(next).unwrap_err(), RequestError::RecvError)
            }
            Poll::Pending => panic!("the receiver still waits"),
        }
    }
    assert_eq!(recv_request(&mut rx).unwrap_err(), RequestError::RecvError);
}

#[test]
fn bounded_pending_response_fails_when_responder_drops() {
    let (tx, mut rx) = bmrng::channel::<i32, i32>(1);
    let mut receiver = send(&tx, 8).expect("Unexpected err");
    let payload = recv_request(&mut rx).expect("Unexpected err");
    let mut reply = match receiver.claim() {
        Ok(Wait::Reply(reply)) => Box::pin(reply),
        other => panic!("expected a wait without a deadline, got {:?}", other),
    };
    let mut context = Context::from_waker(Waker::noop());
    assert!(reply.as_mut().poll(&mut context).is_pending());
    drop(payload);
    match reply.as_mut().poll(&mut context) {
        Poll::Ready(waited) => {
            assert_eq!(Settled::from_reply(waited).into_result(), Err(ReceiveError::RecvError))
        }
        Poll::Pending => panic!("the wait goes on"),
    }
}

#[test]
fn bounded_largest_capacity() {
    let (tx, mut rx) = bmrng::channel::<i32, i32>(usize::MAX / 8);
    let mut receiver = send(&tx, 8).expect("Unexpected err");
    let payload = recv_request(&mut rx).expect("Unexpected err");
    assert!(payload.responder.respond(payload.request + 1).is_ok());
    assert_eq!(recv_response(&mut receiver), Ok(9));
}

#[test]
fn bounded_capacity_of_one() {
    let (tx, mut rx) = bmrng::channel::<i32, i32>(1);
    let _first = send(&tx, 1).expect("Unexpected err");
    let Outgoing { payload, receiver: _ } = tx.prepare(2);
    assert!(matches!(tx.queue().try_send(payload), Err(TrySendError::Full(_))));
    assert_eq!(recv_request(&mut rx).expect("Unexpected err").request, 1);
    assert!(send(&tx, 3).is_ok());
}

#[test]
fn bounded_no_cross_talk() {
    let (tx, mut rx) = bmrng::channel::<i32, i32>(2);
    let tx2 = tx.clone();
    let mut first = send(&tx, 1).expect("Unexpected err");
    let mut second = send(&tx2, 2).expect("Unexpected err");

    let one = recv_request(&mut rx).expect("Unexpected err");
    let two = recv_request(&mut rx).expect("Unexpected err");
    assert_eq!((one.request, two.request), (1, 2));

    // Answered out of arrival order.
    assert!(two.responder.respond(two.request * 10).is_ok());
    assert!(one.responder.respond(one.request * 10).is_ok());

    assert_eq!(recv_response(&mut first), Ok(10));
    assert_eq!(recv_response(&mut second), Ok(20));
}

#[test]
fn bounded_send_on_dropped_receiver_returns_request() {
    let (tx, rx) = bmrng::channel::<String, i32>(1);
    drop(rx);
    assert!(tx.is_closed());
    let refused = send(&tx, String::from("lost and found"));
    assert_eq!(refused.unwrap_err(), SendError(String::from("lost and found")));
}

#[test]
fn response_receiver_is_single_use() {
    let (tx, mut rx) = bmrng::channel::<i32, i32>(1);
    let mut receiver = send(&tx, 8).expect("Unexpected err");
    let payload = recv_request(&mut rx).expect("Unexpected err");
    assert!(payload.responder.respond(64).is_ok());
    assert_eq!(recv_response(&mut receiver), Ok(64));
    assert_eq!(recv_response(&mut receiver), Err(ReceiveError::RecvError));
    assert_eq!(recv_response(&mut receiver), Err(ReceiveError::RecvError));
}

#[test]
fn complete_hands_out_the_prepared_receiver() {
    let (tx, mut rx) = bmrng::channel::<i32, i32>(1);
    let Outgoing { payload, receiver } = tx.prepare(8);
    assert_eq!(payload.request, 8);
    let mut receiver =
        RequestSender::<i32, i32>::complete(receiver, Ok(())).expect("Unexpected err");
    // The receiver waits on the slot that the payload's responder fills.
    assert!(payload.responder.respond(64).is_ok());
    assert_eq!(recv_response(&mut receiver), Ok(64));
    assert!(rx.queue_mut().try_recv().is_err());
}

#[test]
fn complete_hands_back_the_refused_request() {
    let (tx, _rx) = bmrng::channel::<i32, i32>(1);
    let Outgoing { payload, receiver } = tx.prepare(8);
    let refused = RequestSender::complete(receiver, Err(MpscSendError(payload)));
    assert_eq!(refused.unwrap_err(), SendError(8));
}
