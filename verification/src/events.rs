//! Lifecycle events exchanged between connections and the connection
//! manager.

use vstd::prelude::*;

use crate::connection::{Connection, ConnectionId};

verus! {

/// Largest payload a broadcast message may carry.
pub const MAX_EVENT_PAYLOAD: usize = 512;

/// A connection-lifecycle event.
#[derive(Debug)]
pub enum TcpEvent {
    /// A connection completed its handshake and should be tracked.
    Handshake(ConnectionId, Connection),
    /// A connection ended and should be forgotten.
    Disconnect(ConnectionId),
    /// A message for several live connections. Reserved for future
    /// multi-connection fan-out: no mechanism reaches the write halves of
    /// other connections yet, so the manager only records it.
    Broadcast {
        /// Error code to prepend.
        error_code: u16,
        /// Command code to echo.
        cmd: u16,
        /// Message payload, when any.
        message: Option<Vec<u8>>,
        /// Target connections; none means every live connection.
        connection_ids: Option<Vec<u32>>,
    },
}

} // verus!
