//! A failover communication channel for a consensus node.
//!
//! The channel composes two transports: a low-latency primary and a resilient
//! secondary. Broadcasts go to both transports and succeed when either does;
//! unicast-style operations try the primary and fall back to the secondary
//! exactly once. Each operation's fallback policy is stated in its contract
//! and proved.

pub mod channel;
pub mod scripted;
pub mod transport;
pub mod types;

pub use channel::WebServerWithFallbackCommChannel;
pub use scripted::{CallRecord, ScriptedTransport, StaticMembership};
pub use transport::{Event, Membership, Transport};
pub use types::{Clock, Message, NetworkError, RecipientSet, TransmitType};
