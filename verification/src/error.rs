//! Domain error type shared by the router, the event handlers and the
//! dispatcher.

use vstd::prelude::*;

verus! {

/// Error type for routing and handler failures.
#[derive(Debug, Clone, Copy, PartialEq, Eq, Structural)]
pub enum Error {
    /// No handler is registered for the requested command.
    NotFound,
    /// Internal failure of the system.
    SystemError,
    /// An argument was outside its allowed range.
    InvalidParameter,
    /// A bounded buffer or queue is at capacity.
    BufferFull,
    /// Failure of the underlying network transport.
    NetworkError,
    /// An operation did not complete in time.
    Timeout,
}

} // verus!
