//! Tests of the frame model: header layout, checksum, and verification.

use coin_pusher::packet::{
    Packet, PacketError, PacketHeader, PacketType, HEADER_LEN, MAGIC, MAX_PAYLOAD_LEN,
};

#[test]
fn packet_type_roundtrip() {
    let types = [
        (0x01u8, PacketType::Ping),
        (0x02, PacketType::Pong),
        (0x10, PacketType::Button),
        (0x20, PacketType::Command),
        (0x21, PacketType::Response),
        (0xFF, PacketType::Error),
    ];
    for (code, t) in types {
        assert_eq!(PacketType::from_u8(code), Some(t));
        assert_eq!(t.to_u8(), code);
    }
    assert_eq!(PacketType::from_u8(0x00), None);
    assert_eq!(PacketType::from_u8(0x03), None);
    assert_eq!(PacketType::from_u8(0xFE), None);
}

#[test]
fn header_constants() {
    assert_eq!(HEADER_LEN, 8);
    assert_eq!(MAX_PAYLOAD_LEN, 1024);
    assert_eq!(MAGIC, 0xAA55);
}

#[test]
fn read_u16_be_assembles_big_endian() {
    assert_eq!(coin_pusher::packet::read_u16_be(0xAA, 0x55), 0xAA55);
    assert_eq!(coin_pusher::packet::read_u16_be(0x00, 0x01), 1);
    assert_eq!(coin_pusher::packet::read_u16_be(0xFF, 0xFF), 0xFFFF);
}

#[test]
fn header_to_bytes_layout() {
    let mut h = PacketHeader::new(PacketType::Command, 0x01, 2);
    h.checksum = 0xAA99;
    let bytes = h.to_bytes();
    assert_eq!(bytes, [0xAA, 0x55, 0x20, 0x01, 0x00, 0x02, 0xAA, 0x99]);
}

#[test]
fn header_from_bytes_roundtrip() {
    let mut h = PacketHeader::new(PacketType::Button, 42, 517);
    h.checksum = 0x1234;
    let parsed = PacketHeader::from_bytes(&h.to_bytes()).unwrap();
    assert_eq!(parsed, h);
}

#[test]
fn header_from_bytes_rejects_short_input() {
    assert_eq!(
        PacketHeader::from_bytes(&[0xAA, 0x55, 0x20]),
        Err(PacketError::InvalidLength)
    );
    assert_eq!(PacketHeader::from_bytes(&[]), Err(PacketError::InvalidLength));
}

#[test]
fn header_from_bytes_rejects_bad_magic() {
    let bytes = [0xAB, 0x55, 0x20, 0x01, 0x00, 0x02, 0x00, 0x00];
    assert_eq!(PacketHeader::from_bytes(&bytes), Err(PacketError::InvalidMagic));
}

#[test]
fn header_from_bytes_rejects_bad_type() {
    let bytes = [0xAA, 0x55, 0x33, 0x01, 0x00, 0x02, 0x00, 0x00];
    assert_eq!(PacketHeader::from_bytes(&bytes), Err(PacketError::InvalidType));
}

#[test]
fn checksum_known_value_without_fold() {
    // 0xAA55 + 0x20 + 0x01 + 0x0002 + 0x20 + 0x01 = 0xAA99, already 16-bit.
    let h = PacketHeader::new(PacketType::Command, 0x01, 2);
    assert_eq!(h.calculate_checksum(&[0x20, 0x01]), 0xAA99);
}

#[test]
fn checksum_known_value_with_carry_fold() {
    // 0xAA55 + 0x20 + 0 + 200 + 200 * 0xFF = 94837 = 0x17275;
    // one fold: 0x7275 + 0x1 = 0x7276.
    let h = PacketHeader::new(PacketType::Command, 0, 200);
    let payload = [0xFFu8; 200];
    assert_eq!(h.calculate_checksum(&payload), 0x7276);
}

#[test]
fn checksum_is_stable_across_recomputation() {
    let h = PacketHeader::new(PacketType::Button, 7, 5);
    let payload = [1u8, 2, 3, 4, 5];
    let first = h.calculate_checksum(&payload);
    let second = h.calculate_checksum(&payload);
    assert_eq!(first, second);
}

#[test]
fn checksum_changes_when_any_payload_byte_flips() {
    let h = PacketHeader::new(PacketType::Command, 3, 8);
    let payload = [0u8, 10, 20, 30, 40, 50, 60, 70];
    let base = h.calculate_checksum(&payload);
    for i in 0..payload.len() {
        let mut flipped = payload;
        flipped[i] ^= 0x80;
        assert_ne!(h.calculate_checksum(&flipped), base, "byte {} flip undetected", i);
    }
}

#[test]
fn checksum_changes_when_header_field_changes() {
    let payload = [9u8, 9, 9];
    let h1 = PacketHeader::new(PacketType::Command, 1, 3);
    let h2 = PacketHeader::new(PacketType::Command, 2, 3);
    assert_ne!(h1.calculate_checksum(&payload), h2.calculate_checksum(&payload));
}

#[test]
fn packet_new_fills_valid_checksum() {
    let p = Packet::new(PacketType::Command, 1, &[0x20, 0x01]);
    assert_eq!(p.header.magic, MAGIC);
    assert_eq!(p.header.payload_len, 2);
    assert_eq!(p.header.checksum, 0xAA99);
    assert!(p.verify().is_ok());
    assert!(p.header.verify_checksum(&p.payload));
}

#[test]
fn packet_verify_rejects_bad_magic() {
    let mut p = Packet::new(PacketType::Ping, 0, &[]);
    p.header.magic = 0x1234;
    assert_eq!(p.verify(), Err(PacketError::InvalidMagic));
}

#[test]
fn packet_verify_rejects_length_mismatch() {
    let mut p = Packet::new(PacketType::Command, 0, &[1, 2, 3]);
    p.header.payload_len = 2;
    assert_eq!(p.verify(), Err(PacketError::InvalidLength));
}

#[test]
fn packet_verify_rejects_bad_checksum() {
    let mut p = Packet::new(PacketType::Command, 0, &[1, 2, 3]);
    p.header.checksum ^= 1;
    assert_eq!(p.verify(), Err(PacketError::InvalidChecksum));
}
