//! A persistent network client agent: it keeps a long-lived connection to a
//! control server, identifies itself on connect, emits periodic keep-alive
//! probes, and fans inbound directives out as outbound HTTP triggers to
//! machines resolved through a local registry.
//!
//! The crate holds the verified core: the identity handshake payload, the
//! registry lookup, inbound message parsing, outbound URL construction, and
//! the connection-lifecycle state machine that interleaves keep-alive
//! emission with bounded reads and drives reconnection under failure.
//! Socket, clock, file and HTTP work is performed by an unverified driver
//! that executes the actions this core requests and reports the outcomes
//! back as events.

pub mod bytes;
pub mod identity;
pub mod registry;
pub mod message;
pub mod dispatch;
pub mod session;
