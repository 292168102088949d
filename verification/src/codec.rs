//! Streaming packet codec: incremental assembly of verified frames out of an
//! arbitrary, chunked byte stream, with byte-at-a-time resynchronization
//! after noise.
//!
//! The codec's observable state is the sequence of wire bytes it still holds
//! (`wire_bytes`): the not-yet-consumed input, with an already-parsed header
//! counted in its serialized form. Every `decode` step is a pure function of
//! those bytes (`spec_decode`), which is what makes the codec's behaviour
//! independent of how the input was chunked across `feed` calls.

use vstd::prelude::*;

use crate::bytebuf::{
    buf_as_slice, buf_bytes, buf_clear, buf_new, buf_push, buf_shift_left, buf_truncate,
    BUF_CAPACITY,
};
use crate::packet::{
    lemma_be16_roundtrip, lemma_header_bytes_roundtrip, spec_checksum, spec_frame_header,
    spec_header_bytes, spec_parse_header, Packet, PacketError, PacketHeader, PacketType,
    HEADER_LEN, MAGIC, MAX_PAYLOAD_LEN,
};

verus! {

/// Why the codec rejected input or could not make progress.
#[derive(Debug, Clone, Copy, PartialEq, Eq, Structural)]
pub enum CodecError {
    /// A `feed` would have exceeded the accumulation buffer's capacity.
    BufferOverflow,
    /// A header declared a payload longer than [`MAX_PAYLOAD_LEN`].
    PayloadTooLarge,
    /// A destination buffer cannot hold what was to be written.
    OutputBufferTooSmall,
    /// The leading bytes do not form a valid header.
    InvalidHeader(PacketError),
    /// A fully assembled packet failed verification.
    InvalidPacket(PacketError),
}

/// A frame surfaced by [`PacketCodec::decode`], payload owned.
#[derive(Debug, PartialEq, Eq)]
pub struct DecodedPacket {
    /// The frame's type.
    pub packet_type: PacketType,
    /// The frame's sequence number.
    pub seq: u8,
    /// The frame's payload bytes.
    pub payload: Vec<u8>,
}

/// Parse state of the codec.
#[derive(Debug, Clone, Copy)]
pub enum CodecState {
    /// The buffer accumulates bytes of a not-yet-parsed header.
    WaitingHeader,
    /// A header was parsed and removed from the buffer, which now
    /// accumulates the declared payload.
    WaitingPayload {
        /// The already-parsed header.
        header: PacketHeader,
    },
}

/// Streaming codec over one byte stream.
pub struct PacketCodec {
    /// Current parse state.
    pub state: CodecState,
    /// Accumulation buffer, owned exclusively by this codec.
    pub buffer: heapless::Vec<u8, BUF_CAPACITY>,
}

/// What one decode step yields on given wire bytes: the outcome surfaced to
/// the caller, and the wire bytes the codec keeps.
pub struct DecodeStep {
    /// `Ok(None)` when more bytes are needed, `Ok(Some((type, seq, payload)))`
    /// for a verified frame, `Err` for a rejection.
    pub outcome: Result<Option<(PacketType, u8, Seq<u8>)>, CodecError>,
    /// The wire bytes still held after the step.
    pub rest: Seq<u8>,
}

/// The decode step as a pure function of the held wire bytes.
///
/// A step consumes nothing while fewer bytes than a header (or than the
/// declared payload) are held; drops exactly one byte on an invalid header;
/// drops everything on a declared-too-large payload or a checksum mismatch;
/// and consumes exactly one frame on success.
pub open spec fn spec_decode(wire: Seq<u8>) -> DecodeStep {
    if (wire.len() as int) < (HEADER_LEN as int) {
        DecodeStep { outcome: Ok(None), rest: wire }
    } else {
        match spec_parse_header(wire.subrange(0, HEADER_LEN as int)) {
            Err(e) => DecodeStep {
                outcome: Err(CodecError::InvalidHeader(e)),
                rest: wire.subrange(1, wire.len() as int),
            },
            Ok(h) => {
                if (h.payload_len as int) > (MAX_PAYLOAD_LEN as int) {
                    DecodeStep { outcome: Err(CodecError::PayloadTooLarge), rest: Seq::empty() }
                } else if (wire.len() as int) < HEADER_LEN as int + h.payload_len as int {
                    DecodeStep { outcome: Ok(None), rest: wire }
                } else {
                    let payload = wire.subrange(
                        HEADER_LEN as int,
                        HEADER_LEN as int + h.payload_len as int,
                    );
                    if h.checksum == spec_checksum(h, payload) {
                        DecodeStep {
                            outcome: Ok(Some((h.packet_type, h.seq, payload))),
                            rest: wire.subrange(
                                HEADER_LEN as int + h.payload_len as int,
                                wire.len() as int,
                            ),
                        }
                    } else {
                        DecodeStep {
                            outcome: Err(CodecError::InvalidPacket(PacketError::InvalidChecksum)),
                            rest: Seq::empty(),
                        }
                    }
                }
            },
        }
    }
}

impl PacketCodec {
    /// The bytes currently accumulated in the buffer.
    pub open spec fn buf(&self) -> Seq<u8> {
        buf_bytes(self.buffer)
    }

    /// The wire bytes this codec holds: an already-parsed header counts in
    /// its serialized form, ahead of the buffered bytes.
    pub open spec fn wire_bytes(&self) -> Seq<u8> {
        match self.state {
            CodecState::WaitingHeader => self.buf(),
            CodecState::WaitingPayload { header } => spec_header_bytes(header) + self.buf(),
        }
    }

    /// Well-formedness: the buffer respects its capacity, and a parsed
    /// header has a valid magic and an in-range payload length.
    pub open spec fn wf(&self) -> bool {
        &&& self.buf().len() <= BUF_CAPACITY
        &&& match self.state {
            CodecState::WaitingHeader => true,
            CodecState::WaitingPayload { header } => {
                &&& header.magic == MAGIC
                &&& (header.payload_len as int) <= (MAX_PAYLOAD_LEN as int)
            },
        }
    }

    /// Creates a codec holding no bytes.
    pub fn new() -> (c: Self)
        ensures
            c.wf(),
            c.wire_bytes() == Seq::<u8>::empty(),
            c.state is WaitingHeader,
    {
        Self { state: CodecState::WaitingHeader, buffer: buf_new() }
    }

    /// Drops all held bytes and returns to the header-awaiting state.
    pub fn reset(&mut self)
        ensures
            final(self).wf(),
            final(self).wire_bytes() == Seq::<u8>::empty(),
            final(self).state is WaitingHeader,
    {
        self.state = CodecState::WaitingHeader;
        buf_clear(&mut self.buffer);
    }

    /// Appends `data` to the accumulation buffer.
    ///
    /// When the buffer cannot hold all of `data`, the codec is reset —
    /// nothing of the partial frame survives — and `BufferOverflow` is
    /// reported.
    pub fn feed(&mut self, data: &[u8]) -> (r: Result<(), CodecError>)
        requires
            old(self).wf(),
        ensures
            final(self).wf(),
            old(self).buf().len() + data@.len() <= BUF_CAPACITY ==> {
                &&& r == Ok::<(), CodecError>(())
                &&& final(self).state == old(self).state
                &&& final(self).buf() == old(self).buf() + data@
                &&& final(self).wire_bytes() == old(self).wire_bytes() + data@
            },
            old(self).buf().len() + data@.len() > BUF_CAPACITY ==> {
                &&& r == Err::<(), CodecError>(CodecError::BufferOverflow)
                &&& final(self).wire_bytes() == Seq::<u8>::empty()
                &&& final(self).state is WaitingHeader
            },
    {
        let mut i: usize = 0;
        while i < data.len()
            invariant
                old(self).wf(),
                i <= data@.len(),
                self.state == old(self).state,
                self.buf() == old(self).buf() + data@.subrange(0, i as int),
                old(self).buf().len() + i <= BUF_CAPACITY,
            decreases data@.len() - i,
        {
            proof {
                assert((old(self).buf() + data@.subrange(0, i as int)).push(data@[i as int])
                    =~= old(self).buf() + data@.subrange(0, i + 1));
            }
            if !buf_push(&mut self.buffer, data[i]) {
                self.reset();
                return Err(CodecError::BufferOverflow);
            }
            i += 1;
        }
        proof {
            assert(data@.subrange(0, data@.len() as int) =~= data@);
            if old(self).state is WaitingPayload {
                assert(self.wire_bytes() =~= old(self).wire_bytes() + data@);
            }
        }
        Ok(())
    }

    /// Runs the state machine over the held bytes until it can make no
    /// further progress, surfacing at most one event per call.
    ///
    /// The outcome and the bytes kept are exactly [`spec_decode`] of the held
    /// wire bytes: `Ok(None)` asks for more input and keeps everything; an
    /// invalid header costs exactly one byte (resynchronization); a
    /// declared-too-large payload or a failed verification resets the codec;
    /// a verified frame is consumed and surfaced.
    pub fn decode(&mut self) -> (r: Result<Option<DecodedPacket>, CodecError>)
        requires
            old(self).wf(),
        ensures
            final(self).wf(),
            final(self).wire_bytes() == spec_decode(old(self).wire_bytes()).rest,
            (match r {
                Ok(None) => spec_decode(old(self).wire_bytes()).outcome == Ok::<
                    Option<(PacketType, u8, Seq<u8>)>,
                    CodecError,
                >(None),
                Ok(Some(d)) => spec_decode(old(self).wire_bytes()).outcome == Ok::<
                    Option<(PacketType, u8, Seq<u8>)>,
                    CodecError,
                >(Some((d.packet_type, d.seq, d.payload@))),
                Err(e) => spec_decode(old(self).wire_bytes()).outcome == Err::<
                    Option<(PacketType, u8, Seq<u8>)>,
                    CodecError,
                >(e),
            }),
    {
        let ghost w = old(self).wire_bytes();

        let entry_state = self.state;
        let header = match entry_state {
            CodecState::WaitingHeader => {
                let buffered = buf_as_slice(&self.buffer);
                let buffered_len = buffered.len();
                if buffered_len < HEADER_LEN {
                    return Ok(None);
                }
                proof {
                    lemma_parse_prefix(w);
                }

                match PacketHeader::from_bytes(buffered) {
                    Ok(header) => {
                        if header.payload_len as usize > MAX_PAYLOAD_LEN {
                            self.reset();
                            return Err(CodecError::PayloadTooLarge);
                        }

                        // Remove the consumed header bytes from the buffer.
                        buf_shift_left(&mut self.buffer, HEADER_LEN);
                        buf_truncate(&mut self.buffer, buffered_len - HEADER_LEN);
                        self.state = CodecState::WaitingPayload { header };
                        proof {
                            assert(self.buf() =~= w.subrange(HEADER_LEN as int, w.len() as int));
                            lemma_parsed_header_bytes(w);
                            assert(self.wire_bytes() =~= w);
                        }
                        header
                    },
                    Err(e) => {
                        // Discard exactly one leading byte and resynchronize.
                        buf_shift_left(&mut self.buffer, 1);
                        buf_truncate(&mut self.buffer, buffered_len - 1);
                        proof {
                            assert(self.buf() =~= w.subrange(1, w.len() as int));
                        }
                        return Err(CodecError::InvalidHeader(e));
                    },
                }
            },
            CodecState::WaitingPayload { header } => header,
        };

        // The codec now awaits the payload `header` declares, and still holds
        // the same wire bytes it was called with.
        proof {
            lemma_wire_of_payload_state(*self);
            assert(spec_parse_header(w.subrange(0, HEADER_LEN as int)) == Ok::<
                PacketHeader,
                PacketError,
            >(header));
        }

        let payload_len = header.payload_len as usize;
        let buffered = buf_as_slice(&self.buffer);
        let buffered_len = buffered.len();

        if buffered_len < payload_len {
            return Ok(None);
        }

        // Copy the payload out of the accumulation buffer.
        let mut payload: Vec<u8> = Vec::new();
        let mut i: usize = 0;
        while i < payload_len
            invariant
                i <= payload_len <= buffered@.len(),
                payload@ == buffered@.subrange(0, i as int),
            decreases payload_len - i,
        {
            proof {
                assert(buffered@.subrange(0, i as int).push(buffered@[i as int])
                    =~= buffered@.subrange(0, i + 1));
            }
            payload.push(buffered[i]);
            i += 1;
        }
        proof {
            assert(payload@ =~= w.subrange(
                HEADER_LEN as int,
                HEADER_LEN as int + header.payload_len as int,
            ));
        }

        let packet = Packet { header, payload };
        if let Err(_e) = packet.verify() {
            self.reset();
            return Err(CodecError::InvalidPacket(PacketError::InvalidChecksum));
        }

        // Remove the consumed payload bytes from the buffer.
        buf_shift_left(&mut self.buffer, payload_len);
        buf_truncate(&mut self.buffer, buffered_len - payload_len);
        self.state = CodecState::WaitingHeader;
        proof {
            assert(self.wire_bytes() =~= w.subrange(
                HEADER_LEN as int + header.payload_len as int,
                w.len() as int,
            ));
        }

        Ok(
            Some(
                DecodedPacket {
                    packet_type: packet.header.packet_type,
                    seq: packet.header.seq,
                    payload: packet.payload,
                },
            ),
        )
    }
}

/// The bytes a whole frame occupies on the wire: the serialized header (its
/// checksum computed over the given fields and payload) followed by the
/// payload.
pub open spec fn spec_frame_bytes(t: PacketType, seq: u8, payload: Seq<u8>) -> Seq<u8> {
    spec_header_bytes(spec_frame_header(t, seq, payload)) + payload
}

impl PacketCodec {
    /// Encodes one frame — header, then payload — into the front of
    /// `output`, returning how many bytes were written.
    pub fn encode(
        packet_type: PacketType,
        seq: u8,
        payload: &[u8],
        output: &mut Vec<u8>,
    ) -> (r: Result<usize, CodecError>)
        ensures
            payload@.len() > MAX_PAYLOAD_LEN ==> {
                &&& r == Err::<usize, CodecError>(CodecError::PayloadTooLarge)
                &&& final(output)@ == old(output)@
            },
            payload@.len() <= MAX_PAYLOAD_LEN && old(output)@.len() < HEADER_LEN + payload@.len()
                ==> {
                &&& r == Err::<usize, CodecError>(CodecError::OutputBufferTooSmall)
                &&& final(output)@ == old(output)@
            },
            payload@.len() <= MAX_PAYLOAD_LEN && old(output)@.len() >= HEADER_LEN + payload@.len()
                ==> {
                &&& r == Ok::<usize, CodecError>((HEADER_LEN + payload@.len()) as usize)
                &&& final(output)@.len() == old(output)@.len()
                &&& final(output)@.subrange(0, HEADER_LEN as int + payload@.len() as int)
                    == spec_frame_bytes(packet_type, seq, payload@)
                &&& final(output)@.subrange(
                    HEADER_LEN as int + payload@.len() as int,
                    old(output)@.len() as int,
                ) == old(output)@.subrange(
                    HEADER_LEN as int + payload@.len() as int,
                    old(output)@.len() as int,
                )
            },
    {
        if payload.len() > MAX_PAYLOAD_LEN {
            return Err(CodecError::PayloadTooLarge);
        }

        let total_len = HEADER_LEN + payload.len();
        if output.len() < total_len {
            return Err(CodecError::OutputBufferTooSmall);
        }

        let packet = Packet::new(packet_type, seq, payload);
        let header_bytes = packet.header.to_bytes();

        let mut i: usize = 0;
        while i < HEADER_LEN
            invariant
                i <= HEADER_LEN,
                output@.len() == old(output)@.len() >= HEADER_LEN + payload@.len(),
                header_bytes@ == spec_header_bytes(spec_frame_header(packet_type, seq, payload@)),
                forall|j: int| 0 <= j < i ==> output@[j] == header_bytes@[j],
                forall|j: int| i <= j < output@.len() ==> output@[j] == old(output)@[j],
            decreases HEADER_LEN - i,
        {
            let b = header_bytes[i];
            output[i] = b;
            i += 1;
        }

        let mut j: usize = 0;
        while j < payload.len()
            invariant
                j <= payload@.len() <= MAX_PAYLOAD_LEN,
                output@.len() == old(output)@.len() >= HEADER_LEN + payload@.len(),
                header_bytes@ == spec_header_bytes(spec_frame_header(packet_type, seq, payload@)),
                forall|k: int| 0 <= k < HEADER_LEN ==> output@[k] == header_bytes@[k],
                forall|k: int| 0 <= k < j ==> output@[HEADER_LEN + k] == payload@[k],
                forall|k: int|
                    HEADER_LEN + j <= k < output@.len() ==> output@[k] == old(output)@[k],
            decreases payload@.len() - j,
        {
            let b = payload[j];
            output[HEADER_LEN + j] = b;
            j += 1;
        }

        proof {
            assert(output@.subrange(0, HEADER_LEN as int + payload@.len() as int)
                =~= spec_frame_bytes(packet_type, seq, payload@));
            assert(output@.subrange(
                HEADER_LEN as int + payload@.len() as int,
                old(output)@.len() as int,
            ) =~= old(output)@.subrange(
                HEADER_LEN as int + payload@.len() as int,
                old(output)@.len() as int,
            ));
        }
        Ok(total_len)
    }

    /// Encodes a payload-free frame — a bare header — into `output`.
    pub fn encode_simple(packet_type: PacketType, seq: u8, output: &mut Vec<u8>) -> (r: Result<
        usize,
        CodecError,
    >)
        ensures
            old(output)@.len() < HEADER_LEN ==> {
                &&& r == Err::<usize, CodecError>(CodecError::OutputBufferTooSmall)
                &&& final(output)@ == old(output)@
            },
            old(output)@.len() >= HEADER_LEN ==> {
                &&& r == Ok::<usize, CodecError>(HEADER_LEN)
                &&& final(output)@.len() == old(output)@.len()
                &&& final(output)@.subrange(0, HEADER_LEN as int) == spec_frame_bytes(
                    packet_type,
                    seq,
                    Seq::<u8>::empty(),
                )
                &&& final(output)@.subrange(HEADER_LEN as int, old(output)@.len() as int)
                    == old(output)@.subrange(HEADER_LEN as int, old(output)@.len() as int)
            },
    {
        let empty: Vec<u8> = Vec::new();
        Self::encode(packet_type, seq, empty.as_slice(), output)
    }
}

impl Default for PacketCodec {
    /// A fresh codec, identical to [`PacketCodec::new`].
    fn default() -> (c: Self)
        ensures
            c.wf(),
            c.wire_bytes() == Seq::<u8>::empty(),
            c.state is WaitingHeader,
    {
        Self::new()
    }
}

/// Round-trip law: a frame encoded from any valid (type, sequence, payload)
/// triple decodes back to exactly that type, sequence and payload, consuming
/// the whole frame.
pub proof fn lemma_encode_decode_roundtrip(t: PacketType, seq: u8, payload: Seq<u8>)
    requires
        payload.len() <= MAX_PAYLOAD_LEN,
    ensures
        spec_decode(spec_frame_bytes(t, seq, payload)).outcome == Ok::<
            Option<(PacketType, u8, Seq<u8>)>,
            CodecError,
        >(Some((t, seq, payload))),
        spec_decode(spec_frame_bytes(t, seq, payload)).rest == Seq::<u8>::empty(),
{
    lemma_decode_frame_at_stream_head(t, seq, payload, Seq::empty());
    assert(spec_frame_bytes(t, seq, payload) + Seq::<u8>::empty() =~= spec_frame_bytes(
        t,
        seq,
        payload,
    ));
}

/// Streaming form of the round-trip law: an encoded frame at the head of any
/// byte stream decodes to its own triple and consumes exactly its own bytes,
/// whatever follows it.
pub proof fn lemma_decode_frame_at_stream_head(
    t: PacketType,
    seq: u8,
    payload: Seq<u8>,
    trailing: Seq<u8>,
)
    requires
        payload.len() <= MAX_PAYLOAD_LEN,
    ensures
        spec_decode(spec_frame_bytes(t, seq, payload) + trailing).outcome == Ok::<
            Option<(PacketType, u8, Seq<u8>)>,
            CodecError,
        >(Some((t, seq, payload))),
        spec_decode(spec_frame_bytes(t, seq, payload) + trailing).rest == trailing,
{
    let h = spec_frame_header(t, seq, payload);
    let wire = spec_frame_bytes(t, seq, payload) + trailing;
    lemma_header_bytes_roundtrip(h);
    assert(wire.subrange(0, HEADER_LEN as int) =~= spec_header_bytes(h));
    assert(wire.subrange(HEADER_LEN as int, HEADER_LEN as int + h.payload_len as int)
        =~= payload);
    assert(wire.subrange(HEADER_LEN as int + h.payload_len as int, wire.len() as int)
        =~= trailing);
}

/// Resynchronization law: one leading garbage byte ahead of a valid frame
/// costs exactly one `InvalidHeader(InvalidMagic)` rejection and one byte;
/// the frame itself is kept intact and decodes next.
pub proof fn lemma_resync_after_noise(g: u8, t: PacketType, seq: u8, payload: Seq<u8>)
    requires
        payload.len() <= MAX_PAYLOAD_LEN,
    ensures
        spec_decode(seq![g] + spec_frame_bytes(t, seq, payload)).outcome == Err::<
            Option<(PacketType, u8, Seq<u8>)>,
            CodecError,
        >(CodecError::InvalidHeader(PacketError::InvalidMagic)),
        spec_decode(seq![g] + spec_frame_bytes(t, seq, payload)).rest == spec_frame_bytes(
            t,
            seq,
            payload,
        ),
{
    let frame = spec_frame_bytes(t, seq, payload);
    let noisy = seq![g] + frame;
    let p = noisy.subrange(0, HEADER_LEN as int);
    assert(p[0] == g && p[1] == frame[0]);
    assert(frame[0] == crate::packet::u16_hi(MAGIC));
    assert(g as int * 256 + 0xAA as int != MAGIC as int);
    assert(crate::packet::be16(p[0], p[1]) != MAGIC);
    assert(noisy.subrange(1, noisy.len() as int) =~= frame);
}

/// One byte stream concatenated out of a sequence of chunks.
pub open spec fn concat_chunks(chunks: Seq<Seq<u8>>) -> Seq<u8>
    decreases chunks.len(),
{
    if chunks.len() == 0 {
        Seq::empty()
    } else {
        chunks.first() + concat_chunks(chunks.drop_first())
    }
}

/// The wire bytes a codec holds after feeding the chunks in order, starting
/// from held bytes `start`, when no feed overflows: each successful feed
/// appends its chunk (the ensures of [`PacketCodec::feed`]).
pub open spec fn wire_after_feeds(start: Seq<u8>, chunks: Seq<Seq<u8>>) -> Seq<u8>
    decreases chunks.len(),
{
    if chunks.len() == 0 {
        start
    } else {
        wire_after_feeds(start + chunks.first(), chunks.drop_first())
    }
}

/// Chunking-invariance law: feeding a byte stream chunk by chunk leaves the
/// codec holding exactly the bytes it would hold had the stream arrived in
/// one piece — so any two chunkings of the same stream leave the same held
/// bytes, and since every decode step is a pure function of the held bytes
/// ([`spec_decode`] in the ensures of [`PacketCodec::decode`]), both yield
/// the same sequence of decoded frames.
pub proof fn lemma_chunking_invariance(start: Seq<u8>, chunks: Seq<Seq<u8>>)
    ensures
        wire_after_feeds(start, chunks) == start + concat_chunks(chunks),
    decreases chunks.len(),
{
    if chunks.len() == 0 {
        assert(start + concat_chunks(chunks) =~= start);
    } else {
        lemma_chunking_invariance(start + chunks.first(), chunks.drop_first());
        assert((start + chunks.first()) + concat_chunks(chunks.drop_first()) =~= start + (
        chunks.first() + concat_chunks(chunks.drop_first())));
    }
}

/// Parsing looks only at the first eight bytes: a sequence of at least eight
/// bytes parses as its eight-byte prefix does.
proof fn lemma_parse_prefix(s: Seq<u8>)
    requires
        s.len() >= HEADER_LEN,
    ensures
        spec_parse_header(s.subrange(0, HEADER_LEN as int)) == spec_parse_header(s),
{
    let p = s.subrange(0, HEADER_LEN as int);
    assert(p[0] == s[0] && p[1] == s[1] && p[2] == s[2] && p[3] == s[3] && p[4] == s[4] && p[5]
        == s[5] && p[6] == s[6] && p[7] == s[7]);
}

/// When wire bytes parse to a header, their first eight bytes are exactly
/// that header's serialized form.
proof fn lemma_parsed_header_bytes(wire: Seq<u8>)
    requires
        wire.len() >= HEADER_LEN,
        spec_parse_header(wire) is Ok,
    ensures
        spec_header_bytes(spec_parse_header(wire)->Ok_0) == wire.subrange(0, HEADER_LEN as int),
{
    let h = spec_parse_header(wire)->Ok_0;
    lemma_be16_roundtrip(0, wire[0], wire[1]);
    lemma_be16_roundtrip(0, wire[4], wire[5]);
    lemma_be16_roundtrip(0, wire[6], wire[7]);
    assert(spec_header_bytes(h) =~= wire.subrange(0, HEADER_LEN as int));
}

/// In the payload-awaiting state of a well-formed codec, the wire bytes
/// begin with the parsed header's serialized form, which parses back to it.
proof fn lemma_wire_of_payload_state(c: PacketCodec)
    requires
        c.wf(),
        c.state is WaitingPayload,
    ensures
        c.wire_bytes().len() == HEADER_LEN + c.buf().len(),
        spec_parse_header(c.wire_bytes().subrange(0, HEADER_LEN as int)) == Ok::<
            PacketHeader,
            PacketError,
        >(c.state->WaitingPayload_header),
        c.wire_bytes().subrange(HEADER_LEN as int, c.wire_bytes().len() as int) == c.buf(),
{
    let h = c.state->WaitingPayload_header;
    lemma_header_bytes_roundtrip(h);
    assert(c.wire_bytes().subrange(0, HEADER_LEN as int) =~= spec_header_bytes(h));
    assert(c.wire_bytes().subrange(HEADER_LEN as int, c.wire_bytes().len() as int) =~= c.buf());
}

} // verus!

