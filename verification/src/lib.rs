//! Outbound dispatch layer of a userspace traffic forwarder.
//!
//! The library holds the decision logic of the dispatch layer: probe
//! classification and latency ranking for the failover handler, the serial
//! dial plan it follows, the staggered race of the try-all handler, the
//! address model shared by every handler, and the fixed-target rewrite of
//! the redirect handler.  The asynchronous network calls that act on these
//! decisions live outside the library and hand it plain values.

pub mod addr;
pub mod direct;
pub mod error;
pub mod failover;
pub mod handler;
pub mod measure;
pub mod netstack;
pub mod redirect;
pub mod schedule;
pub mod socks;
pub mod tryall;
