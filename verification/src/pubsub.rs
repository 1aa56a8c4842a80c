//! Typed, backpressure-respecting adapter over an untyped pub/sub
//! notification channel.
//!
//! A [`TypedSubscriber`] stands for a subscription request that has not been
//! answered yet; it is consumed by exactly one of [`TypedSubscriber::reject`]
//! and [`TypedSubscriber::assign_id`]. The latter produces a [`TypedSink`]: a
//! typed publish handle bound to one subscription id, which serializes values
//! and forwards them to the untyped channel while honouring that channel's
//! readiness through a single-slot buffer. At most one item is ever buffered;
//! a new item is never accepted over an occupied slot, and an occupied slot
//! is never overwritten or reordered.

use vstd::prelude::*;

verus! {

use core::marker::PhantomData;
use jsonrpc_core::Params;
use jsonrpc_pubsub::{SubscriptionId, TransportError};

use crate::raw::{
    clone_buffer, clone_raw_sink, clone_sub_id, raw_close, raw_notify, raw_poll_complete,
    single_element_params, try_send, NotifyHandle,
};

/// What a sink answered when it was handed a new item: either it took
/// responsibility for the item, or it hands the item back untouched because
/// an earlier item still waits for the transport.
#[derive(Debug, PartialEq, Eq)]
pub enum Accept<T> {
    /// The sink took responsibility for the item.
    Accepted,
    /// The sink is occupied; the item is handed back unconsumed.
    NotReady(T),
}

/// Readiness reported by a drain, flush or close attempt.
#[derive(Debug, PartialEq, Eq, Clone, Copy)]
pub enum Readiness {
    /// The attempted step is complete.
    Ready,
    /// The attempted step could not finish yet; try again later.
    NotReady,
}

/// A subscription request that has not been answered yet, typed by the
/// values that will be published once it is accepted.
///
/// Consuming ownership makes the two resolutions exclusive: exactly one of
/// `reject` and `assign_id` can ever be called.
#[derive(Debug)]
pub struct TypedSubscriber<T> {
    subscriber: jsonrpc_pubsub::Subscriber,
    _data: PhantomData<T>,
}

/// A typed publish handle bound to one subscription id.
///
/// The handle owns a single buffer slot: an item the underlying channel was
/// not ready for is parked there and handed over again on the next drain
/// attempt, so nothing is lost and nothing is reordered, while new items are
/// honestly rejected until the slot is free.
pub struct TypedSink<T> {
    sink: jsonrpc_pubsub::Sink,
    id: SubscriptionId,
    buffered: Option<Params>,
    sent: Ghost<Seq<Params>>,
    _data: PhantomData<T>,
}

impl<T> TypedSubscriber<T> {
    /// The untyped subscription handle this request wraps.
    pub closed spec fn handle(self) -> jsonrpc_pubsub::Subscriber {
        self.subscriber
    }

    /// Wrap the collaborator's untyped subscription handle.
    pub fn new(subscriber: jsonrpc_pubsub::Subscriber) -> (r: Self)
        ensures
            r.handle() == subscriber,
    {
        TypedSubscriber { subscriber, _data: PhantomData }
    }

    /// Reject the subscription with the given error.
    ///
    /// `Err(())` signals that the requester could not be reached any more;
    /// there is no other side effect either way.
    pub fn reject(self, error: jsonrpc_core::Error) -> Result<(), ()> {
        let TypedSubscriber { subscriber, _data } = self;
        subscriber.reject(error)
    }

    /// Bind the subscription to the given id.
    ///
    /// On success the sink starts with an empty buffer slot and carries the
    /// given id for its whole lifetime. `Err(())` means the connection was
    /// already closed; no sink exists then and the request is spent.
    pub fn assign_id(self, id: SubscriptionId) -> (r: Result<TypedSink<T>, ()>)
        ensures
            r matches Ok(sink) ==> sink.sub_id() == id && sink.buffer() is None
                && sink.delivered() == Seq::<Params>::empty(),
    {
        let TypedSubscriber { subscriber, _data } = self;
        let requested = clone_sub_id(&id);
        match subscriber.assign_id(requested) {
            Ok(raw) => Ok(
                TypedSink {
                    sink: raw,
                    id,
                    buffered: None,
                    sent: Ghost(Seq::empty()),
                    _data: PhantomData,
                },
            ),
            Err(_) => Err(()),
        }
    }
}

impl<T> TypedSink<T> {
    /// The subscription id this sink is bound to.
    pub closed spec fn sub_id(self) -> SubscriptionId {
        self.id
    }

    /// The item parked in the buffer slot, if the slot is occupied.
    pub closed spec fn buffer(self) -> Option<Params> {
        self.buffered
    }

    /// The items handed to the underlying channel so far, oldest first.
    pub closed spec fn delivered(self) -> Seq<Params> {
        self.sent@
    }

    /// Every item this sink has taken responsibility for, in submission
    /// order: the delivered ones first, then the buffered one if the slot is
    /// occupied. Items leave this sequence only by being handed to the
    /// underlying channel, or when a transport failure abandons the buffered
    /// item.
    pub open spec fn queued(self) -> Seq<Params> {
        self.delivered() + match self.buffer() {
            Option::Some(p) => seq![p],
            Option::None => Seq::empty(),
        }
    }

    /// One drain step: if the slot is occupied, offer the parked item to the
    /// underlying channel. `Ready` means the slot is now free; `NotReady`
    /// means the channel was not ready and the very same item stays parked.
    /// A transport failure abandons the parked item and surfaces unchanged.
    /// An empty slot needs no channel at all: the step reports `Ready` and
    /// touches nothing.
    fn poll(&mut self) -> (r: Result<Readiness, TransportError>)
        ensures
            final(self).sub_id() == old(self).sub_id(),
            old(self).delivered().is_prefix_of(final(self).delivered()),
            old(self).buffer() is None ==> r == Ok::<Readiness, TransportError>(Readiness::Ready),
            match r {
                Ok(Readiness::Ready) => final(self).buffer() is None && final(self).queued()
                    == old(self).queued(),
                Ok(Readiness::NotReady) => final(self).buffer() == old(self).buffer() && old(
                    self,
                ).buffer() is Some && final(self).delivered() == old(self).delivered(),
                Err(_) => final(self).buffer() is None && final(self).delivered() == old(
                    self,
                ).delivered(),
            },
    {
        let parked = self.buffered.take();
        match parked {
            Some(item) => {
                let ghost offered = item;
                match try_send(&mut self.sink, item) {
                    Ok(Accept::Accepted) => {
                        self.sent = Ghost(self.sent@.push(offered));
                        proof {
                            assert(self.queued() =~= old(self).queued());
                        }
                        Ok(Readiness::Ready)
                    },
                    Ok(Accept::NotReady(back)) => {
                        self.buffered = Some(back);
                        Ok(Readiness::NotReady)
                    },
                    Err(e) => Err(e),
                }
            },
            None => Ok(Readiness::Ready),
        }
    }

    /// Flush: one drain step for the buffer slot, then the underlying
    /// channel's own completion poll, whose readiness is returned as it
    /// came. The buffered item is never overwritten: it is either delivered
    /// to the channel ahead of the delegation, kept parked untouched, or
    /// abandoned with the transport failure surfaced.
    pub fn poll_complete(&mut self) -> (r: Result<Readiness, TransportError>)
        ensures
            final(self).sub_id() == old(self).sub_id(),
            old(self).delivered().is_prefix_of(final(self).delivered()),
            (final(self).buffer() == old(self).buffer() && final(self).delivered() == old(
                self,
            ).delivered()) || (final(self).buffer() is None && final(self).queued() == old(
                self,
            ).queued()) || (r is Err && final(self).buffer() is None && final(self).delivered()
                == old(self).delivered()),
    {
        match self.poll() {
            Err(e) => Err(e),
            Ok(_) => raw_poll_complete(&mut self.sink),
        }
    }

    /// Close: one drain step for the buffer slot, then the underlying
    /// channel's own close, whose readiness is returned as it came. The
    /// buffer slot is handled exactly as in [`Self::poll_complete`].
    pub fn close(&mut self) -> (r: Result<Readiness, TransportError>)
        ensures
            final(self).sub_id() == old(self).sub_id(),
            old(self).delivered().is_prefix_of(final(self).delivered()),
            (final(self).buffer() == old(self).buffer() && final(self).delivered() == old(
                self,
            ).delivered()) || (final(self).buffer() is None && final(self).queued() == old(
                self,
            ).queued()) || (r is Err && final(self).buffer() is None && final(self).delivered()
                == old(self).delivered()),
    {
        match self.poll() {
            Err(e) => Err(e),
            Ok(_) => raw_close(&mut self.sink),
        }
    }
}

impl<T: serde::Serialize> TypedSink<T> {
    /// Send a notification to the subscriber right away, outside the
    /// buffered protocol: the value is serialized as the single element of
    /// the wire parameter list and handed to the underlying channel
    /// unconditionally. The returned handle is the channel's immediate
    /// answer: the not-yet-driven send future.
    pub fn notify(&self, val: T) -> NotifyHandle {
        let params = single_element_params(val);
        raw_notify(&self.sink, params)
    }

    /// Accept a new item, honouring the buffer slot.
    ///
    /// A drain step runs first. If the slot stays occupied, the new item is
    /// handed back unconsumed and nothing else changes. Otherwise the item
    /// is serialized, parked in the slot — extending the submission queue by
    /// exactly one item — opportunistically offered to the channel once, and
    /// reported accepted regardless of how that offer went. A transport
    /// failure surfaces unchanged and the item in flight is abandoned.
    pub fn start_send(&mut self, item: T) -> (r: Result<Accept<T>, TransportError>)
        ensures
            final(self).sub_id() == old(self).sub_id(),
            old(self).delivered().is_prefix_of(final(self).delivered()),
            match r {
                Ok(Accept::Accepted) => exists|p: Params|
                    final(self).queued() == old(self).queued().push(p),
                Ok(Accept::NotReady(back)) => back == item && final(self).buffer() == old(
                    self,
                ).buffer() && old(self).buffer() is Some && final(self).delivered() == old(
                    self,
                ).delivered(),
                Err(_) => final(self).buffer() is None && (final(self).delivered() == old(
                    self,
                ).delivered() || final(self).delivered() == old(self).queued()),
            },
            old(self).buffer() is None ==> (r matches Ok(a) ==> a is Accepted),
    {
        match self.poll() {
            Err(e) => {
                return Err(e);
            },
            Ok(Readiness::NotReady) => {
                return Ok(Accept::NotReady(item));
            },
            Ok(Readiness::Ready) => {},
        }
        let params = single_element_params(item);
        let ghost submitted = params;
        self.buffered = Some(params);
        assert(self.queued() =~= old(self).queued().push(submitted));
        match self.poll() {
            Err(e) => Err(e),
            Ok(_) => {
                assert(exists|p: Params| self.queued() == old(self).queued().push(p));
                Ok(Accept::Accepted)
            },
        }
    }
}

impl<T> Clone for TypedSink<T> {
    /// A clone is a second publish handle to the same subscriber: it shares
    /// the underlying channel handle, is bound to the same id, and starts
    /// with its own copy of the buffer slot, independent from then on.
    fn clone(&self) -> (r: Self)
        ensures
            r.sub_id() == self.sub_id(),
            r.buffer() == self.buffer(),
            r.delivered() == self.delivered(),
    {
        TypedSink {
            sink: clone_raw_sink(&self.sink),
            id: clone_sub_id(&self.id),
            buffered: clone_buffer(&self.buffered),
            sent: Ghost(self.sent@),
            _data: PhantomData,
        }
    }
}

/// The submission queue left behind by a run of accepted submissions that
/// started from queue `q`: each accepted call pushes exactly one item, as
/// the `ensures` of [`TypedSink::start_send`] states.
pub open spec fn enqueue_each(q: Seq<Params>, items: Seq<Params>) -> Seq<Params>
    decreases items.len(),
{
    if items.len() == 0 {
        q
    } else {
        enqueue_each(q.push(items[0]), items.subrange(1, items.len() as int))
    }
}

/// No loss and no reordering over whole runs: a run of accepted submissions
/// queues up exactly the submitted items, behind what was queued before and
/// in submission order. Every drain keeps the delivered prefix, so once the
/// buffer slot empties the underlying channel has received precisely this
/// sequence: a run whose items the channel kept accepting is delivered in
/// the exact order submitted.
pub proof fn lemma_run_preserves_submission_order(q: Seq<Params>, items: Seq<Params>)
    ensures
        enqueue_each(q, items) == q + items,
    decreases items.len(),
{
    if items.len() == 0 {
        assert(enqueue_each(q, items) =~= q + items);
    } else {
        lemma_run_preserves_submission_order(
            q.push(items[0]),
            items.subrange(1, items.len() as int),
        );
        assert(q.push(items[0]) + items.subrange(1, items.len() as int) =~= q + items);
    }
}

/// A sink whose buffer slot is free has handed every item it ever accepted
/// to the underlying channel: nothing sits anywhere else.
pub proof fn lemma_empty_buffer_means_all_delivered<T>(s: TypedSink<T>)
    requires
        s.buffer() is None,
    ensures
        s.delivered() == s.queued(),
{
    assert(s.delivered() =~= s.queued());
}

} // verus!

