//! A minimal multicast-DNS (mDNS) service-discovery probe-and-respond core.
//!
//! The crate builds the datagram that announces a query for a named service,
//! and classifies one inbound datagram as a query for that service (answering
//! with a reply datagram), an answer to a prior query (surfacing the sender's
//! address), an unrelated packet, or a malformed one.  The DNS wire format
//! itself is the business of the `simple_dns` codec; sockets and multicast
//! membership are the caller's.

pub mod codec;
pub mod packet;
pub mod responder;

