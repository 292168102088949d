//! Logical connections and the transport-level error taxonomy.

use vstd::prelude::*;

use crate::codec::CodecError;

verus! {

/// Opaque identity of one accepted connection, assigned monotonically; no
/// two live connections share an identity.
#[derive(Debug, Clone, Copy, PartialEq, Eq, Structural)]
pub struct ConnectionId(pub u32);

/// Record of one live logical connection.
#[derive(Debug, Clone, Copy, PartialEq, Eq, Structural)]
pub struct Connection {
    /// The connection's identity.
    pub id: ConnectionId,
}

impl Connection {
    /// Builds the record for a connection with the given identity.
    pub fn new(id: ConnectionId) -> (c: Self)
        ensures
            c.id == id,
    {
        Self { id }
    }
}

/// Why a connection's loop ended or a send was not performed. These errors
/// terminate at the transport loop boundary: the server resumes listening.
#[derive(Debug, Clone, Copy, PartialEq, Eq, Structural)]
pub enum TcpError {
    /// The peer closed the connection.
    Disconnected,
    /// A write did not transfer the whole reply.
    SendFailed,
    /// A read exceeded the idle timeout.
    RecvTimeout,
    /// The codec rejected input or could not encode a reply.
    CodecError(CodecError),
    /// A bounded channel was at capacity.
    ChannelFull,
    /// Any other socket-level failure.
    Other,
}

impl From<CodecError> for TcpError {
    /// Wraps a codec error for the transport loop.
    fn from(e: CodecError) -> (r: Self) {
        TcpError::CodecError(e)
    }
}

impl vstd::std_specs::convert::FromSpecImpl<CodecError> for TcpError {
    open spec fn obeys_from_spec() -> bool {
        true
    }

    open spec fn from_spec(e: CodecError) -> Self {
        TcpError::CodecError(e)
    }
}

} // verus!
