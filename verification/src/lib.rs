//! Forwarding engine for a path-prefix HTTP reverse proxy.
//!
//! The library holds the two pure components of the proxy: the router, which
//! picks the backend for an inbound path by first-registered-wins prefix
//! match, and the forwarder, which builds the outbound request for a chosen
//! backend and translates the backend's outcome into the reply sent to the
//! original caller. All network I/O and server plumbing live outside the
//! library and exchange plain values with it.

pub mod backend;
pub mod forward;
pub mod message;
pub mod router;

use vstd::prelude::*;

verus! {

} // verus!
