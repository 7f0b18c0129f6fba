//! A request/response channel for asynchronous tasks: every request that goes
//! through the queue carries its own single-use reply slot, so each answer
//! reaches the caller that asked and nobody else.
//!
//! The queue and the reply slots are tokio's, and so is all waiting. This
//! crate holds what is decided around them, and proves it with Verus: what
//! goes into the queue, what a failed send gives back, what a reply slot is
//! waited on for and against which deadline, and which error stands for
//! which way an exchange can end.
//!
//! An operation that has to wait is split where it waits. The caller asks for
//! the first part, does the waiting, and hands what came of it to the second
//! part:
//!
//! - sending through a bounded channel is [`RequestSender::prepare`], the
//!   wait for room in the queue, and [`RequestSender::complete`];
//! - receiving a request is the wait on [`RequestReceiver::queue_mut`] and
//!   [`RequestReceiver::accept`];
//! - receiving a response is [`ResponseReceiver::claim`], the wait that it
//!   asks for, [`Settled::from_reply`] or [`Settled::from_race`] on what the
//!   wait gave, and [`Settled::into_result`];
//! - sending a request and receiving its response is the first and the third
//!   of these, with [`error::RequestError::conclude`] at the end.
//!
//! Sending through an unbounded channel never waits, and neither does
//! responding: [`unbounded::UnboundedRequestSender::send`] and
//! [`Responder::respond`] are whole.
//!
//! See [`channel`] for a channel with backpressure and [`unbounded::channel`]
//! for one without. The laws that hold of every exchange are in [`laws`], and
//! what is assumed of tokio is in [`tokio_specs`].

mod bounded;
pub mod error;
pub mod laws;
pub mod reply;
pub mod tokio_specs;
pub mod unbounded;

pub use self::bounded::{
    channel, channel_with_timeout, Outgoing, Payload, RequestReceiver, RequestReceiverStream,
    RequestSender,
};
pub use self::reply::{Responder, ResponseReceiver, Settled, Wait};
pub use self::unbounded::channel as unbounded_channel;
pub use self::unbounded::channel_with_timeout as unbounded_channel_with_timeout;
