//! A local streaming relay for a media host: a process-local HTTP proxy core.
//!
//! The crate holds the verified logic of the relay: percent-coding of target
//! URLs, the relay server's start protocol, the translation of an upstream
//! response into the relay's own response, and the small helpers around the
//! download and command layer. All I/O (binding, serving, fetching) lives in
//! the unverified application shell around this library.

use vstd::prelude::*;

pub mod client;
pub mod codec;
pub mod commands;
pub mod error;
pub mod relay;
pub mod server;

verus! {

/// The first port the relay server tries to bind (inclusive).
pub const PROXY_PORT_RANGE_START: u16 = 8000;

/// The first port past the scanned range (exclusive).
pub const PROXY_PORT_RANGE_END: u16 = 9000;

} // verus!
