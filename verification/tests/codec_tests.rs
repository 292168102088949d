//! Tests of the streaming codec: round trips, chunking invariance,
//! resynchronization, and the capacity error paths.

use coin_pusher::codec::{CodecError, DecodedPacket, PacketCodec};
use coin_pusher::packet::{PacketError, PacketType, HEADER_LEN, MAX_PAYLOAD_LEN};

/// Encodes one frame into a fresh buffer.
fn encode_frame(packet_type: PacketType, seq: u8, payload: &[u8]) -> Vec<u8> {
    let mut out = vec![0u8; HEADER_LEN + payload.len()];
    let n = PacketCodec::encode(packet_type, seq, payload, &mut out).unwrap();
    assert_eq!(n, out.len());
    out
}

/// Drains every frame currently decodable, asserting no error occurs.
fn drain(codec: &mut PacketCodec) -> Vec<DecodedPacket> {
    let mut frames = Vec::new();
    while let Some(p) = codec.decode().unwrap() {
        frames.push(p);
    }
    frames
}

#[test]
fn encode_known_bytes() {
    let frame = encode_frame(PacketType::Command, 1, &[0x20, 0x01]);
    assert_eq!(frame, vec![0xAA, 0x55, 0x20, 0x01, 0x00, 0x02, 0xAA, 0x99, 0x20, 0x01]);
}

#[test]
fn encode_rejects_oversized_payload() {
    let payload = vec![0u8; MAX_PAYLOAD_LEN + 1];
    let mut out = vec![0u8; 2048];
    assert_eq!(
        PacketCodec::encode(PacketType::Command, 0, &payload, &mut out),
        Err(CodecError::PayloadTooLarge)
    );
}

#[test]
fn encode_rejects_small_output_buffer() {
    let mut out = vec![0u8; 9];
    assert_eq!(
        PacketCodec::encode(PacketType::Command, 0, &[1, 2, 3], &mut out),
        Err(CodecError::OutputBufferTooSmall)
    );
}

#[test]
fn encode_simple_writes_bare_header() {
    let mut out = vec![0u8; HEADER_LEN];
    let n = PacketCodec::encode_simple(PacketType::Pong, 0, &mut out).unwrap();
    assert_eq!(n, HEADER_LEN);
    // 0xAA55 + 0x02 = 0xAA57.
    assert_eq!(out, vec![0xAA, 0x55, 0x02, 0x00, 0x00, 0x00, 0xAA, 0x57]);
}

#[test]
fn decode_returns_none_on_empty_codec() {
    let mut codec = PacketCodec::new();
    assert!(codec.decode().unwrap().is_none());
}

#[test]
fn round_trip_preserves_type_seq_and_payload() {
    let payloads: [&[u8]; 4] = [&[], &[1], &[0x20, 0x01], &[7; 1024]];
    for (k, payload) in payloads.iter().enumerate() {
        let seq = k as u8;
        let frame = encode_frame(PacketType::Command, seq, payload);
        let mut codec = PacketCodec::new();
        codec.feed(&frame).unwrap();
        let decoded = codec.decode().unwrap().expect("frame expected");
        assert_eq!(decoded.packet_type, PacketType::Command);
        assert_eq!(decoded.seq, seq);
        assert_eq!(decoded.payload, payload.to_vec());
        assert!(codec.decode().unwrap().is_none());
    }
}

#[test]
fn round_trip_every_packet_type() {
    for t in [
        PacketType::Ping,
        PacketType::Pong,
        PacketType::Button,
        PacketType::Command,
        PacketType::Response,
        PacketType::Error,
    ] {
        let frame = encode_frame(t, 9, &[5, 6]);
        let mut codec = PacketCodec::new();
        codec.feed(&frame).unwrap();
        let decoded = codec.decode().unwrap().expect("frame expected");
        assert_eq!(decoded.packet_type, t);
    }
}

#[test]
fn chunked_and_whole_feeding_decode_identically() {
    let frame = encode_frame(PacketType::Button, 3, &[10, 20, 30, 40, 50]);

    let mut whole = PacketCodec::new();
    whole.feed(&frame).unwrap();
    let frames_whole = drain(&mut whole);

    let mut chunked = PacketCodec::new();
    let mut frames_chunked = Vec::new();
    for (i, byte) in frame.iter().enumerate() {
        chunked.feed(&[*byte]).unwrap();
        let decoded = chunked.decode().unwrap();
        if i + 1 < frame.len() {
            assert!(decoded.is_none(), "no frame before byte {} of {}", i + 1, frame.len());
        } else {
            frames_chunked.push(decoded.expect("frame on final byte"));
        }
    }

    assert_eq!(frames_whole.len(), 1);
    assert_eq!(frames_chunked.len(), 1);
    assert_eq!(frames_whole[0].packet_type, frames_chunked[0].packet_type);
    assert_eq!(frames_whole[0].seq, frames_chunked[0].seq);
    assert_eq!(frames_whole[0].payload, frames_chunked[0].payload);
}

#[test]
fn two_frames_in_one_feed_both_decode() {
    let f1 = encode_frame(PacketType::Command, 1, &[1, 2, 3]);
    let f2 = encode_frame(PacketType::Button, 2, &[4]);
    let mut stream = f1.clone();
    stream.extend_from_slice(&f2);

    let mut codec = PacketCodec::new();
    codec.feed(&stream).unwrap();
    let frames = drain(&mut codec);
    assert_eq!(frames.len(), 2);
    assert_eq!(frames[0].seq, 1);
    assert_eq!(frames[0].payload, vec![1, 2, 3]);
    assert_eq!(frames[1].seq, 2);
    assert_eq!(frames[1].payload, vec![4]);
}

#[test]
fn garbage_byte_costs_one_error_then_frame_decodes() {
    let frame = encode_frame(PacketType::Command, 5, &[0x20, 0x01]);
    let mut noisy = vec![0x7E];
    noisy.extend_from_slice(&frame);

    let mut codec = PacketCodec::new();
    codec.feed(&noisy).unwrap();

    // Exactly one invalid-header rejection for the garbage byte...
    assert_eq!(
        codec.decode(),
        Err(CodecError::InvalidHeader(PacketError::InvalidMagic))
    );
    // ...then the frame decodes once resynchronized.
    let decoded = codec.decode().unwrap().expect("frame after resync");
    assert_eq!(decoded.packet_type, PacketType::Command);
    assert_eq!(decoded.seq, 5);
    assert_eq!(decoded.payload, vec![0x20, 0x01]);
    assert!(codec.decode().unwrap().is_none());
}

#[test]
fn garbage_magic_like_byte_also_resynchronizes() {
    // A leading 0xAA still breaks the magic (0xAAAA != 0xAA55).
    let frame = encode_frame(PacketType::Ping, 0, &[]);
    let mut noisy = vec![0xAA];
    noisy.extend_from_slice(&frame);

    let mut codec = PacketCodec::new();
    codec.feed(&noisy).unwrap();
    assert_eq!(
        codec.decode(),
        Err(CodecError::InvalidHeader(PacketError::InvalidMagic))
    );
    assert!(codec.decode().unwrap().unwrap().packet_type == PacketType::Ping);
}

#[test]
fn feed_beyond_capacity_overflows_and_resets() {
    let mut codec = PacketCodec::new();
    // Capacity is one header plus one maximal payload.
    let too_much = vec![0u8; HEADER_LEN + MAX_PAYLOAD_LEN + 1];
    assert_eq!(codec.feed(&too_much), Err(CodecError::BufferOverflow));

    // Equivalent to reset: nothing decodes...
    assert!(codec.decode().unwrap().is_none());

    // ...until a fresh valid frame is fed.
    let frame = encode_frame(PacketType::Command, 8, &[0xAB]);
    codec.feed(&frame).unwrap();
    let decoded = codec.decode().unwrap().expect("frame after overflow reset");
    assert_eq!(decoded.seq, 8);
    assert_eq!(decoded.payload, vec![0xAB]);
}

#[test]
fn feed_overflow_discards_partial_frame() {
    let mut codec = PacketCodec::new();
    let frame = encode_frame(PacketType::Command, 1, &[1, 2, 3]);
    // A partial frame sits in the buffer...
    codec.feed(&frame[..4]).unwrap();
    // ...and an overflowing feed discards it along with the new bytes.
    let too_much = vec![0u8; HEADER_LEN + MAX_PAYLOAD_LEN];
    assert_eq!(codec.feed(&too_much), Err(CodecError::BufferOverflow));
    assert!(codec.decode().unwrap().is_none());
}

#[test]
fn declared_oversized_payload_resets_codec() {
    // A header declaring payload_len = 1025 is unrecoverable corruption.
    let mut h = coin_pusher::packet::PacketHeader::new(PacketType::Command, 0, 1025);
    h.checksum = h.calculate_checksum(&[]);
    let mut codec = PacketCodec::new();
    codec.feed(&h.to_bytes()).unwrap();
    assert_eq!(codec.decode(), Err(CodecError::PayloadTooLarge));
    assert!(codec.decode().unwrap().is_none());
}

#[test]
fn corrupted_checksum_fails_verification_and_resets() {
    let mut frame = encode_frame(PacketType::Command, 2, &[9, 8, 7]);
    let last = frame.len() - 1;
    frame[last] ^= 0xFF;

    let mut codec = PacketCodec::new();
    codec.feed(&frame).unwrap();
    assert_eq!(
        codec.decode(),
        Err(CodecError::InvalidPacket(PacketError::InvalidChecksum))
    );
    // The reset discarded everything; a fresh frame still decodes.
    assert!(codec.decode().unwrap().is_none());
    let good = encode_frame(PacketType::Command, 3, &[1]);
    codec.feed(&good).unwrap();
    assert_eq!(codec.decode().unwrap().unwrap().seq, 3);
}

#[test]
fn reset_discards_buffered_bytes() {
    let frame = encode_frame(PacketType::Command, 1, &[1, 2, 3]);
    let mut codec = PacketCodec::new();
    codec.feed(&frame).unwrap();
    codec.reset();
    assert!(codec.decode().unwrap().is_none());
}

#[test]
fn default_codec_equals_new() {
    let mut codec = PacketCodec::default();
    assert!(codec.decode().unwrap().is_none());
}
