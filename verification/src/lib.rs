//! A typed, serialization-aware publish handle over an untyped JSON-RPC
//! pub/sub channel, with a verified single-slot buffered send protocol.

mod raw;
pub mod pubsub;

pub use jsonrpc_pubsub::SubscriptionId;
pub use pubsub::{Accept, Readiness, TypedSink, TypedSubscriber};
pub use raw::NotifyHandle;
