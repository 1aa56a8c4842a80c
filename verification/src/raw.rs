//! Trusted boundary to the untyped pub/sub collaborator.
//!
//! Every item in this module either declares an outside type so that verified
//! code can carry values of it, or wraps a single outside call and states of
//! its result exactly what that call's source shows. Nothing else in the
//! crate is taken on trust.

use vstd::prelude::*;

verus! {

use jsonrpc_core::Params;
use jsonrpc_pubsub::{SinkResult, SubscriptionId, TransportError};

use crate::pubsub::{Accept, Readiness};

/// `jsonrpc_pubsub::Subscriber`: the collaborator's handle for a pending
/// subscription request.
#[verifier::external_type_specification]
#[verifier::external_body]
pub struct ExSubscriber(jsonrpc_pubsub::Subscriber);

/// `jsonrpc_pubsub::Sink`: the untyped notification channel of one
/// subscriber.
#[verifier::external_type_specification]
#[verifier::external_body]
pub struct ExSink(jsonrpc_pubsub::Sink);

/// `jsonrpc_core::Params`: the wire representation of notification
/// parameters.
#[verifier::external_type_specification]
#[verifier::external_body]
pub struct ExParams(Params);

/// `jsonrpc_pubsub::SubscriptionId`: an opaque, cloneable subscription id.
#[verifier::external_type_specification]
#[verifier::external_body]
pub struct ExSubscriptionId(SubscriptionId);

/// `jsonrpc_core::Error`: a structured JSON-RPC error.
#[verifier::external_type_specification]
#[verifier::external_body]
pub struct ExError(jsonrpc_core::Error);

/// `futures::sync::mpsc::SendError`, which `jsonrpc_pubsub::TransportError`
/// is an alias of at `String`: a transport-level send failure.
#[verifier::external_type_specification]
#[verifier::external_body]
#[verifier::reject_recursive_types(T)]
pub struct ExSendError<T>(jsonrpc_core::futures::sync::mpsc::SendError<T>);

/// The in-flight send future of one direct notification, as
/// `jsonrpc_pubsub::Sink::notify` hands it out. The future type itself is a
/// generic of the futures crate that cannot be declared here, so it is
/// carried opaquely; `wait` drives it.
#[verifier::external_body]
pub struct NotifyHandle {
    inner: SinkResult,
}

impl NotifyHandle {
    /// Relies on futures' `Future::wait`: blocks the calling thread until
    /// the transport accepted the notification or failed. The outcome
    /// depends on the transport, so nothing is promised of it.
    #[verifier::external_body]
    pub fn wait(self) -> Result<(), TransportError> {
        jsonrpc_core::futures::Future::wait(self.inner).map(|_| ())
    }
}

/// Relies on `jsonrpc_pubsub::Subscriber::reject`: consumes the handle and
/// forwards the error to the requester, `Err(())` when the request has
/// already terminated. Which of the two happens depends on the connection,
/// so nothing is promised of the result.
pub assume_specification[ jsonrpc_pubsub::Subscriber::reject ](
    sub: jsonrpc_pubsub::Subscriber,
    error: jsonrpc_core::Error,
) -> Result<(), ()>;

/// Relies on `jsonrpc_pubsub::Subscriber::assign_id`: consumes the handle and
/// returns the raw notification sink, `Err(())` when the request has already
/// terminated. Which of the two happens depends on the connection, so
/// nothing is promised of the result.
pub assume_specification[ jsonrpc_pubsub::Subscriber::assign_id ](
    sub: jsonrpc_pubsub::Subscriber,
    id: SubscriptionId,
) -> Result<jsonrpc_pubsub::Sink, ()>;

/// Relies on `jsonrpc_pubsub::Sink::notify`: frames the parameters as a
/// notification and returns the not-yet-driven send future for them, handed
/// back inside a [`NotifyHandle`]. The future's outcome depends on the
/// transport, so nothing is promised of it.
#[verifier::external_body]
pub(crate) fn raw_notify(sink: &jsonrpc_pubsub::Sink, params: Params) -> NotifyHandle {
    NotifyHandle { inner: sink.notify(params) }
}

/// Relies on the `futures::sink::Sink` implementation of
/// `jsonrpc_pubsub::Sink`: `start_send` either accepts the item, hands the
/// very same item back when the transport is not ready, or fails when the
/// transport is gone (its source then keeps the item inside the error and it
/// is lost to the caller).
#[verifier::external_body]
pub(crate) fn try_send(sink: &mut jsonrpc_pubsub::Sink, item: Params) -> (r: Result<
    Accept<Params>,
    TransportError,
>)
    ensures
        r matches Ok(Accept::NotReady(back)) ==> back == item,
{
    match jsonrpc_core::futures::Sink::start_send(sink, item) {
        Ok(jsonrpc_core::futures::AsyncSink::Ready) => Ok(Accept::Accepted),
        Ok(jsonrpc_core::futures::AsyncSink::NotReady(back)) => Ok(Accept::NotReady(back)),
        Err(e) => Err(e),
    }
}

/// Relies on the `futures::sink::Sink` implementation of
/// `jsonrpc_pubsub::Sink`: `poll_complete` reports the transport's own
/// completion readiness, which depends on the transport alone.
#[verifier::external_body]
pub(crate) fn raw_poll_complete(sink: &mut jsonrpc_pubsub::Sink) -> Result<
    Readiness,
    TransportError,
> {
    match jsonrpc_core::futures::Sink::poll_complete(sink) {
        Ok(jsonrpc_core::futures::Async::Ready(())) => Ok(Readiness::Ready),
        Ok(jsonrpc_core::futures::Async::NotReady) => Ok(Readiness::NotReady),
        Err(e) => Err(e),
    }
}

/// Relies on the `futures::sink::Sink` implementation of
/// `jsonrpc_pubsub::Sink`: `close` reports the transport's own shutdown
/// readiness, which depends on the transport alone.
#[verifier::external_body]
pub(crate) fn raw_close(sink: &mut jsonrpc_pubsub::Sink) -> Result<Readiness, TransportError> {
    match jsonrpc_core::futures::Sink::close(sink) {
        Ok(jsonrpc_core::futures::Async::Ready(())) => Ok(Readiness::Ready),
        Ok(jsonrpc_core::futures::Async::NotReady) => Ok(Readiness::NotReady),
        Err(e) => Err(e),
    }
}

/// Relies on `serde_json::to_value` to serialize the value, and wraps the
/// result as the single element of a `jsonrpc_core::Params::Array`, the wire
/// shape of one typed notification. Panics only when the value's own
/// `Serialize` implementation reports an error, which plain data types never
/// do.
#[verifier::external_body]
pub(crate) fn single_element_params<T: serde::Serialize>(val: T) -> Params {
    let value = serde_json::to_value(val).expect("value must serialize");
    Params::Array(vec![value])
}

/// Relies on the derived `Clone` of `jsonrpc_pubsub::SubscriptionId`, a plain
/// data enum: the clone equals the original.
#[verifier::external_body]
pub(crate) fn clone_sub_id(id: &SubscriptionId) -> (r: SubscriptionId)
    ensures
        r == *id,
{
    id.clone()
}

/// Relies on the derived `Clone` of `jsonrpc_core::Params`, a plain data
/// enum: the clone equals the original.
#[verifier::external_body]
pub(crate) fn clone_buffer(buffer: &Option<Params>) -> (r: Option<Params>)
    ensures
        r == *buffer,
{
    buffer.clone()
}

/// Relies on the derived `Clone` of `jsonrpc_pubsub::Sink`: a cheap duplicate
/// handle to the same logical connection. Nothing is assumed of the clone.
#[verifier::external_body]
pub(crate) fn clone_raw_sink(sink: &jsonrpc_pubsub::Sink) -> jsonrpc_pubsub::Sink {
    sink.clone()
}

} // verus!
