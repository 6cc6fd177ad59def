//! A DNS forwarding relay core: queries arrive over UDP, are forwarded to an
//! upstream resolver over a persistent TCP connection with two-byte
//! length-prefixed framing, and the raw answer is returned to the original
//! UDP client. A hook supplied by the embedding application may inspect each
//! parsed query and veto its forwarding, in which case a minimal refusal
//! reply is sent back directly.
//!
//! This crate holds the verified core: the wire framing discipline, the
//! configuration defaults, the structured view of a DNS message, and the
//! per-query state machine each forwarding worker runs. The sockets, the
//! worker threads and the dispatch queue live in the embedding application,
//! which drives the state machine with the outcomes of its I/O.

pub mod codec;
pub mod config;
pub mod packet;
pub mod worker;
