//! Per-frame transport decisions, shared by the TCP and serial variants.
//!
//! The transport loops themselves — accepting a peer, reading bytes with a
//! timeout, writing replies, sleeping between retries — are the surrounding
//! runtime's concern. What stands here is every decision they take per
//! decoded frame: answering `Ping` at the transport layer, extracting the
//! command envelope, dispatching it, and assembling the reply or the event.

use vstd::prelude::*;

use crate::codec::{spec_frame_bytes, DecodedPacket, PacketCodec};
use crate::connection::TcpError;
use crate::error::Error;
use crate::event::Event;
use crate::packet::{be16, read_u16_be, u16_hi, u16_lo, PacketType, HEADER_LEN, MAX_PAYLOAD_LEN};
use crate::router::{spec_route_result, Handler, Router};

verus! {

/// Default TCP listening port.
pub const DEFAULT_PORT: u16 = 8080;

/// Default idle timeout for a connection read, in milliseconds.
pub const DEFAULT_IDLE_TIMEOUT_MS: u64 = 30000;

/// Configuration of the TCP server.
#[derive(Debug, Clone, Copy, PartialEq, Eq, Structural)]
pub struct TcpServerConfig {
    /// Port to listen on.
    pub port: u16,
    /// Idle timeout for a connection read, in milliseconds.
    pub recv_timeout_ms: u64,
}

impl Default for TcpServerConfig {
    /// Default port and idle timeout.
    fn default() -> (c: Self)
        ensures
            c.port == DEFAULT_PORT,
            c.recv_timeout_ms == DEFAULT_IDLE_TIMEOUT_MS,
    {
        Self { port: DEFAULT_PORT, recv_timeout_ms: DEFAULT_IDLE_TIMEOUT_MS }
    }
}

/// The TCP server: accepts one peer at a time and drives a connection loop.
pub struct TcpServer {
    /// The server's configuration.
    pub config: TcpServerConfig,
}

impl TcpServer {
    /// Builds a server with the given configuration.
    pub fn new(config: TcpServerConfig) -> (s: Self)
        ensures
            s.config == config,
    {
        Self { config }
    }
}

/// Configuration of the serial transport.
#[derive(Debug, Clone, Copy, PartialEq, Eq, Structural)]
pub struct SerialTransportConfig {
    /// Read timeout, in milliseconds.
    pub read_timeout_ms: u64,
    /// Whether reads are simulated rather than taken from a live port.
    pub mock_mode: bool,
}

impl Default for SerialTransportConfig {
    /// Default timeout, with simulated reads on.
    fn default() -> (c: Self)
        ensures
            c.read_timeout_ms == DEFAULT_IDLE_TIMEOUT_MS,
            c.mock_mode,
    {
        Self { read_timeout_ms: DEFAULT_IDLE_TIMEOUT_MS, mock_mode: true }
    }
}

/// The serial transport: an event producer over a byte-oriented port.
pub struct SerialTransport {
    /// The transport's configuration.
    pub config: SerialTransportConfig,
}

impl SerialTransport {
    /// Builds a serial transport with the given configuration.
    pub fn new(config: SerialTransportConfig) -> (s: Self)
        ensures
            s.config == config,
    {
        Self { config }
    }
}

/// What the transport does with one decoded frame.
#[derive(Debug)]
pub enum FrameAction {
    /// Answer with a header-only `Pong`, touching neither router nor bus.
    ReplyPong,
    /// Drop the frame: too short to carry a command envelope.
    Ignore,
    /// Dispatch the command envelope.
    Dispatch {
        /// The 16-bit big-endian command code from the payload's first two
        /// bytes.
        cmd: u16,
        /// The command-specific data after the code.
        data: Vec<u8>,
    },
}

/// Sorts one decoded frame: `Ping` is answered at the transport layer; any
/// other frame whose payload is too short for a command code is dropped;
/// the rest carry a command envelope to dispatch.
pub fn classify_frame(packet: &DecodedPacket) -> (a: FrameAction)
    ensures
        packet.packet_type is Ping ==> a is ReplyPong,
        !(packet.packet_type is Ping) && packet.payload@.len() < 2 ==> a is Ignore,
        !(packet.packet_type is Ping) && packet.payload@.len() >= 2 ==> (a matches
            FrameAction::Dispatch { cmd, data } && cmd == be16(
            packet.payload@[0],
            packet.payload@[1],
        ) && data@ == packet.payload@.subrange(2, packet.payload@.len() as int)),
{
    if packet.packet_type == PacketType::Ping {
        return FrameAction::ReplyPong;
    }
    if packet.payload.len() < 2 {
        return FrameAction::Ignore;
    }

    let cmd = read_u16_be(packet.payload[0], packet.payload[1]);
    let mut data: Vec<u8> = Vec::new();
    let mut i: usize = 2;
    while i < packet.payload.len()
        invariant
            2 <= i <= packet.payload@.len(),
            data@ == packet.payload@.subrange(2, i as int),
        decreases packet.payload@.len() - i,
    {
        proof {
            assert(packet.payload@.subrange(2, i as int).push(packet.payload@[i as int])
                =~= packet.payload@.subrange(2, i + 1));
        }
        data.push(packet.payload[i]);
        i += 1;
    }
    FrameAction::Dispatch { cmd, data }
}

/// The payload of a `Response` frame: error code and echoed command code,
/// both big-endian, then the handler's response data.
pub open spec fn spec_response_payload(error_code: u16, cmd: u16, data: Seq<u8>) -> Seq<u8> {
    seq![u16_hi(error_code), u16_lo(error_code), u16_hi(cmd), u16_lo(cmd)] + data
}

/// The payload the given optional response data contributes.
pub open spec fn spec_opt_payload(payload: Option<&Vec<u8>>) -> Seq<u8> {
    match payload {
        Some(p) => p@,
        None => Seq::empty(),
    }
}

/// Builds the payload of a `Response` frame:
/// `[error_code:2][command_code:2][data...]`. The response must fit a
/// frame's payload; overflowing it is reported as `Other`.
pub fn build_response(error_code: u16, cmd: u16, payload: Option<&Vec<u8>>) -> (r: Result<
    Vec<u8>,
    TcpError,
>)
    ensures
        4 + spec_opt_payload(payload).len() <= MAX_PAYLOAD_LEN ==> (r matches Ok(v) && v@
            == spec_response_payload(error_code, cmd, spec_opt_payload(payload))),
        4 + spec_opt_payload(payload).len() > MAX_PAYLOAD_LEN ==> r == Err::<Vec<u8>, TcpError>(
            TcpError::Other,
        ),
{
    let data_len = match payload {
        Some(p) => p.len(),
        None => 0,
    };
    if data_len > MAX_PAYLOAD_LEN - 4 {
        return Err(TcpError::Other);
    }

    let mut response: Vec<u8> = Vec::new();
    response.push((error_code / 256) as u8);
    response.push((error_code % 256) as u8);
    response.push((cmd / 256) as u8);
    response.push((cmd % 256) as u8);
    if let Some(p) = payload {
        response.extend_from_slice(p.as_slice());
    }
    proof {
        assert(response@ =~= spec_response_payload(error_code, cmd, spec_opt_payload(payload)));
    }
    Ok(response)
}

/// Encodes the header-only `Pong` frame sent in answer to a `Ping`.
pub fn pong_frame_bytes() -> (v: Vec<u8>)
    ensures
        v@ == spec_frame_bytes(PacketType::Pong, 0, Seq::<u8>::empty()),
{
    let mut out: Vec<u8> = vec![0u8; HEADER_LEN];
    let r = PacketCodec::encode_simple(PacketType::Pong, 0, &mut out);
    proof {
        assert(out@ =~= out@.subrange(0, HEADER_LEN as int));
    }
    out
}

/// Encodes a `Response` frame around an already-built response payload.
fn response_frame_bytes(response: &Vec<u8>) -> (v: Vec<u8>)
    requires
        response@.len() <= MAX_PAYLOAD_LEN,
    ensures
        v@ == spec_frame_bytes(PacketType::Response, 0, response@),
{
    let total = HEADER_LEN + response.len();
    let mut out: Vec<u8> = vec![0u8; total];
    let r = PacketCodec::encode(PacketType::Response, 0, response.as_slice(), &mut out);
    proof {
        assert(out@ =~= out@.subrange(0, HEADER_LEN as int + response@.len() as int));
    }
    out
}

/// What the TCP transport loop sends back for one decoded frame.
#[derive(Debug)]
pub enum TcpReply {
    /// The encoded header-only `Pong` frame.
    Pong(Vec<u8>),
    /// The encoded `Response` frame.
    Response(Vec<u8>),
    /// Nothing: the frame was dropped without an externally visible reply.
    NoReply,
    /// A reply was owed but could not be assembled.
    ReplyFailed(TcpError),
}

/// The TCP transport's whole decision for one decoded frame.
///
/// A `Ping` is answered with a `Pong` without consulting the router. Any
/// other frame too short for a command code is dropped without a reply.
/// Otherwise the command envelope is dispatched through the router, and the
/// reply is a `Response` frame whose payload opens with error code `0` and
/// the handler's response on success, or error code `1` and no data when the
/// router or handler failed.
pub fn process_frame_tcp<H: Handler>(router: &Router<H>, packet: &DecodedPacket) -> (r: TcpReply)
    ensures
        packet.packet_type is Ping ==> (r matches TcpReply::Pong(v) && v@ == spec_frame_bytes(
            PacketType::Pong,
            0,
            Seq::<u8>::empty(),
        )),
        !(packet.packet_type is Ping) && packet.payload@.len() < 2 ==> r is NoReply,
        !(packet.packet_type is Ping) && packet.payload@.len() >= 2 ==> ({
            let cmd = be16(packet.payload@[0], packet.payload@[1]);
            let data = packet.payload@.subrange(2, packet.payload@.len() as int);
            match spec_route_result(router.routes@, cmd, data) {
                Ok(resp) => if 4 + resp.len() <= MAX_PAYLOAD_LEN {
                    r matches TcpReply::Response(v) && v@ == spec_frame_bytes(
                        PacketType::Response,
                        0,
                        spec_response_payload(0, cmd, resp),
                    )
                } else {
                    r == TcpReply::ReplyFailed(TcpError::Other)
                },
                Err(_) => r matches TcpReply::Response(v) && v@ == spec_frame_bytes(
                    PacketType::Response,
                    0,
                    spec_response_payload(1, cmd, Seq::<u8>::empty()),
                ),
            }
        }),
{
    match classify_frame(packet) {
        FrameAction::ReplyPong => TcpReply::Pong(pong_frame_bytes()),
        FrameAction::Ignore => TcpReply::NoReply,
        FrameAction::Dispatch { cmd, data } => match router.handle_message(cmd, data.as_slice()) {
            Ok(resp) => match build_response(0, cmd, Some(&resp)) {
                Ok(response) => TcpReply::Response(response_frame_bytes(&response)),
                Err(e) => TcpReply::ReplyFailed(e),
            },
            Err(_) => match build_response(1, cmd, None) {
                Ok(response) => TcpReply::Response(response_frame_bytes(&response)),
                Err(e) => TcpReply::ReplyFailed(e),
            },
        },
    }
}

/// The serial transport's whole decision for one decoded frame: it is
/// exclusively an event producer, so a `Ping` and a too-short frame yield
/// nothing, and every other frame becomes the `NetworkIncoming` event that
/// the dispatcher will route.
pub fn process_frame_serial(packet: &DecodedPacket) -> (r: Option<Event>)
    ensures
        packet.packet_type is Ping ==> r is None,
        !(packet.packet_type is Ping) && packet.payload@.len() < 2 ==> r is None,
        !(packet.packet_type is Ping) && packet.payload@.len() >= 2 ==> (r matches Some(e) && e
            matches Event::NetworkIncoming { cmd, payload } && cmd == be16(
            packet.payload@[0],
            packet.payload@[1],
        ) && payload@ == packet.payload@.subrange(2, packet.payload@.len() as int)),
{
    match classify_frame(packet) {
        FrameAction::ReplyPong => None,
        FrameAction::Ignore => None,
        FrameAction::Dispatch { cmd, data } => Some(Event::NetworkIncoming { cmd, payload: data }),
    }
}

} // verus!
