//! An embeddable multi-client WebSocket server core: the per-connection idle
//! watchdog and callback dispatch state machine, the shared callback registry
//! and the server's configuration. The library does no I/O; a protocol engine
//! feeds it events and carries out the actions it returns.
use vstd::prelude::*;

pub mod handler;
pub mod payload;
pub mod registry;
pub mod server;

verus! {

} // verus!
