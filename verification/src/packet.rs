//! Wire-format frame model: header layout, checksum algorithm, and
//! encode/decode of a single complete frame.
//!
//! A frame on the wire is
//! `[magic:u16][type:u8][seq:u8][payload_len:u16][checksum:u16][payload]`,
//! all multi-byte integers big-endian, magic `0xAA55`.

use vstd::prelude::*;

verus! {

/// Length of the fixed packet header in bytes.
pub const HEADER_LEN: usize = 8;

/// Largest payload a packet may carry.
pub const MAX_PAYLOAD_LEN: usize = 1024;

/// The sentinel value that opens every valid header.
pub const MAGIC: u16 = 0xAA55;

/// The type of a packet, carried in the third header byte.
#[derive(Debug, Clone, Copy, PartialEq, Eq, Structural)]
pub enum PacketType {
    /// Liveness probe; answered at the transport layer.
    Ping,
    /// Answer to a `Ping`.
    Pong,
    /// Button event report.
    Button,
    /// Generic command carrying a command envelope.
    Command,
    /// Answer to a `Command`.
    Response,
    /// Error report.
    Error,
}

/// The wire code of each packet type.
pub open spec fn spec_type_code(t: PacketType) -> u8 {
    match t {
        PacketType::Ping => 0x01,
        PacketType::Pong => 0x02,
        PacketType::Button => 0x10,
        PacketType::Command => 0x20,
        PacketType::Response => 0x21,
        PacketType::Error => 0xFF,
    }
}

/// The packet type a wire code stands for, if any.
pub open spec fn spec_type_from_u8(value: u8) -> Option<PacketType> {
    if value == 0x01 {
        Some(PacketType::Ping)
    } else if value == 0x02 {
        Some(PacketType::Pong)
    } else if value == 0x10 {
        Some(PacketType::Button)
    } else if value == 0x20 {
        Some(PacketType::Command)
    } else if value == 0x21 {
        Some(PacketType::Response)
    } else if value == 0xFF {
        Some(PacketType::Error)
    } else {
        None
    }
}

impl PacketType {
    /// Parses a type byte.
    pub fn from_u8(value: u8) -> (r: Option<Self>)
        ensures
            r == spec_type_from_u8(value),
    {
        match value {
            0x01 => Some(Self::Ping),
            0x02 => Some(Self::Pong),
            0x10 => Some(Self::Button),
            0x20 => Some(Self::Command),
            0x21 => Some(Self::Response),
            0xFF => Some(Self::Error),
            _ => None,
        }
    }

    /// The wire code of this type.
    pub fn to_u8(self) -> (r: u8)
        ensures
            r == spec_type_code(self),
    {
        match self {
            Self::Ping => 0x01,
            Self::Pong => 0x02,
            Self::Button => 0x10,
            Self::Command => 0x20,
            Self::Response => 0x21,
            Self::Error => 0xFF,
        }
    }
}

/// Every type's wire code parses back to that type.
pub proof fn lemma_type_code_roundtrip(t: PacketType)
    ensures
        spec_type_from_u8(spec_type_code(t)) == Some(t),
{
}

/// The high byte of a 16-bit value in big-endian order.
pub open spec fn u16_hi(x: u16) -> u8 {
    (x as int / 256) as u8
}

/// The low byte of a 16-bit value in big-endian order.
pub open spec fn u16_lo(x: u16) -> u8 {
    (x as int % 256) as u8
}

/// The 16-bit value written big-endian as the bytes `hi`, `lo`.
pub open spec fn be16(hi: u8, lo: u8) -> u16 {
    (hi as int * 256 + lo as int) as u16
}

/// Splitting a 16-bit value into bytes and reassembling them is the identity,
/// in both directions.
pub proof fn lemma_be16_roundtrip(x: u16, hi: u8, lo: u8)
    ensures
        be16(u16_hi(x), u16_lo(x)) == x,
        u16_hi(be16(hi, lo)) == hi,
        u16_lo(be16(hi, lo)) == lo,
{
    assert((x as int / 256) * 256 + x as int % 256 == x as int) by (nonlinear_arith);
    assert((hi as int * 256 + lo as int) / 256 == hi as int) by (nonlinear_arith)
        requires
            0 <= lo < 256,
    ;
    assert((hi as int * 256 + lo as int) % 256 == lo as int) by (nonlinear_arith)
        requires
            0 <= lo < 256,
    ;
    assert(0 <= x as int / 256 < 256) by (nonlinear_arith)
        requires
            0 <= x < 65536,
    ;
    assert(hi as int * 256 + lo as int <= 65535) by (nonlinear_arith)
        requires
            hi < 256 && lo < 256,
    ;
}

/// Reads a 16-bit big-endian value out of two bytes.
pub fn read_u16_be(hi: u8, lo: u8) -> (r: u16)
    ensures
        r == be16(hi, lo),
{
    (hi as u16) * 256 + (lo as u16)
}

/// Fixed 8-byte packet header.
#[derive(Debug, Clone, Copy, PartialEq, Eq, Structural)]
pub struct PacketHeader {
    /// Must equal [`MAGIC`] for the header to be valid.
    pub magic: u16,
    /// The packet's type.
    pub packet_type: PacketType,
    /// Free-running sequence number; informational only.
    pub seq: u8,
    /// Number of payload bytes that follow the header.
    pub payload_len: u16,
    /// Carry-fold checksum over the other fields and the payload.
    pub checksum: u16,
}

/// Sum of one byte sequence, as an unbounded integer.
pub open spec fn byte_sum(s: Seq<u8>) -> int
    decreases s.len(),
{
    if s.len() == 0 {
        0
    } else {
        byte_sum(s.drop_last()) + s.last()
    }
}

/// Sum of the four checksummed header fields.
pub open spec fn header_field_sum(h: PacketHeader) -> int {
    h.magic as int + spec_type_code(h.packet_type) as int + h.seq as int + h.payload_len as int
}

/// Folds the carry beyond 16 bits back into the low 16 bits until the sum
/// fits in 16 bits.
pub open spec fn fold_carry(sum: int) -> int
    decreases sum,
        via fold_carry_decreases
{
    if sum > 0xFFFF {
        fold_carry(sum % 0x10000 + sum / 0x10000)
    } else {
        sum
    }
}

#[via_fn]
proof fn fold_carry_decreases(sum: int) {
    if sum > 0xFFFF {
        assert(sum % 0x10000 + sum / 0x10000 < sum) by (nonlinear_arith)
            requires
                sum > 0xFFFF,
        ;
        assert(sum % 0x10000 + sum / 0x10000 >= 0) by (nonlinear_arith)
            requires
                sum > 0,
        ;
    }
}

/// A fold of a non-negative sum lands in `0 ..= 0xFFFF`.
pub proof fn lemma_fold_carry_bounds(sum: int)
    requires
        sum >= 0,
    ensures
        0 <= fold_carry(sum) <= 0xFFFF,
    decreases sum,
{
    if sum > 0xFFFF {
        assert(0 <= sum % 0x10000 + sum / 0x10000 < sum) by (nonlinear_arith)
            requires
                sum > 0xFFFF,
        ;
        lemma_fold_carry_bounds(sum % 0x10000 + sum / 0x10000);
    }
}

/// The checksum of a header's fields together with a payload: the carry-fold
/// of the plain sum of the four header fields and every payload byte.
pub open spec fn spec_checksum(h: PacketHeader, payload: Seq<u8>) -> u16 {
    fold_carry(header_field_sum(h) + byte_sum(payload)) as u16
}

/// Every byte sum lies between zero and 255 per byte.
pub proof fn lemma_byte_sum_bounds(s: Seq<u8>)
    ensures
        0 <= byte_sum(s) <= 255 * s.len(),
    decreases s.len(),
{
    if s.len() > 0 {
        lemma_byte_sum_bounds(s.drop_last());
    }
}

/// Folding the carry preserves the sum's residue modulo `0xFFFF`.
pub proof fn lemma_fold_carry_mod(sum: int)
    requires
        sum >= 0,
    ensures
        fold_carry(sum) % 0xFFFF == sum % 0xFFFF,
    decreases sum,
{
    if sum > 0xFFFF {
        let q = sum / 0x10000;
        let r = sum % 0x10000;
        vstd::arithmetic::div_mod::lemma_fundamental_div_mod(sum, 0x10000);
        assert(r + q == 0xFFFF * q + (r + q) - 0xFFFF * q);
        assert(sum == 0xFFFF * q + (r + q));
        vstd::arithmetic::div_mod::lemma_mod_multiples_vanish(q, r + q, 0xFFFF);
        assert(0 <= r + q < sum) by (nonlinear_arith)
            requires
                sum > 0xFFFF && q == sum / 0x10000 && r == sum % 0x10000,
        ;
        lemma_fold_carry_mod(r + q);
    }
}

/// Two payloads that agree everywhere but at one position have byte sums
/// that differ by exactly the difference of the bytes at that position.
proof fn lemma_byte_sum_diff(p1: Seq<u8>, p2: Seq<u8>, i: int)
    requires
        p1.len() == p2.len(),
        0 <= i < p1.len(),
        forall|j: int| 0 <= j < p1.len() && j != i ==> p1[j] == p2[j],
    ensures
        byte_sum(p1) - byte_sum(p2) == p1[i] - p2[i],
    decreases p1.len(),
{
    if i == p1.len() - 1 {
        assert(p1.drop_last() =~= p2.drop_last());
    } else {
        lemma_byte_sum_diff(p1.drop_last(), p2.drop_last(), i);
    }
}

/// Error-detection law: changing a single payload byte always changes the
/// checksum, since the sums differ by less than `0xFFFF` and the carry fold
/// preserves residues modulo `0xFFFF`.
pub proof fn lemma_checksum_detects_byte_change(h: PacketHeader, p1: Seq<u8>, p2: Seq<u8>, i: int)
    requires
        p1.len() == p2.len(),
        0 <= i < p1.len(),
        p1[i] != p2[i],
        forall|j: int| 0 <= j < p1.len() && j != i ==> p1[j] == p2[j],
    ensures
        spec_checksum(h, p1) != spec_checksum(h, p2),
{
    let s1 = header_field_sum(h) + byte_sum(p1);
    let s2 = header_field_sum(h) + byte_sum(p2);
    lemma_byte_sum_bounds(p1);
    lemma_byte_sum_bounds(p2);
    lemma_byte_sum_diff(p1, p2, i);
    assert(s1 != s2 && -255 <= s1 - s2 <= 255);

    lemma_fold_carry_bounds(s1);
    lemma_fold_carry_bounds(s2);
    lemma_fold_carry_mod(s1);
    lemma_fold_carry_mod(s2);

    if fold_carry(s1) == fold_carry(s2) {
        let q1 = s1 / 0xFFFF;
        let q2 = s2 / 0xFFFF;
        vstd::arithmetic::div_mod::lemma_fundamental_div_mod(s1, 0xFFFF);
        vstd::arithmetic::div_mod::lemma_fundamental_div_mod(s2, 0xFFFF);
        assert(s1 - s2 == 0xFFFF * (q1 - q2));
        assert(0xFFFF * (q1 - q2) == 0 || 0xFFFF * (q1 - q2) >= 0xFFFF || 0xFFFF * (q1 - q2)
            <= -0xFFFF) by (nonlinear_arith);
        assert(false);
    }
}

impl PacketHeader {
    /// Builds a header with the given fields, a valid magic, and a zero
    /// checksum placeholder.
    pub fn new(packet_type: PacketType, seq: u8, payload_len: u16) -> (h: Self)
        ensures
            h == (PacketHeader { magic: MAGIC, packet_type, seq, payload_len, checksum: 0u16 }),
    {
        Self { magic: MAGIC, packet_type, seq, payload_len, checksum: 0 }
    }

    /// Computes the checksum over this header's fields (the stored checksum
    /// itself excluded) and the given payload bytes.
    pub fn calculate_checksum(&self, payload: &[u8]) -> (r: u16)
        requires
            payload@.len() <= 65535,
        ensures
            r == spec_checksum(*self, payload@),
    {
        let ghost total = header_field_sum(*self) + byte_sum(payload@);
        let mut sum: u32 = 0;

        sum += self.magic as u32;
        sum += self.packet_type.to_u8() as u32;
        sum += self.seq as u32;
        sum += self.payload_len as u32;

        proof {
            assert(payload@.subrange(0, 0) =~= Seq::<u8>::empty());
        }
        let mut i: usize = 0;
        while i < payload.len()
            invariant
                i <= payload@.len() <= 65535,
                sum as int == header_field_sum(*self) + byte_sum(payload@.subrange(0, i as int)),
                sum <= 131580 + 255 * i,
            decreases payload@.len() - i,
        {
            proof {
                assert(payload@.subrange(0, i + 1).drop_last() =~= payload@.subrange(0, i as int));
                assert(payload@.subrange(0, i + 1).last() == payload@[i as int]);
            }
            sum += payload[i] as u32;
            i += 1;
        }
        proof {
            assert(payload@.subrange(0, payload@.len() as int) =~= payload@);
        }

        while sum > 0xFFFF
            invariant
                fold_carry(sum as int) == fold_carry(total),
                sum as int <= total || sum <= 0xFFFF,
                total <= 131580 + 255 * 65535,
            decreases sum,
        {
            proof {
                assert((sum & 0xFFFF) == sum as int % 0x10000) by (bit_vector);
                assert((sum >> 16) == sum as int / 0x10000) by (bit_vector);
                assert((sum & 0xFFFF) <= 0xFFFF && (sum >> 16) <= 0xFFFF) by (bit_vector);
                assert(sum as int % 0x10000 + sum as int / 0x10000 < sum as int) by (nonlinear_arith)
                    requires
                        sum > 0xFFFF,
                ;
            }
            let next: u32 = (sum & 0xFFFF) + (sum >> 16);
            sum = next;
        }
        sum as u16
    }

    /// Checks the stored checksum against a recomputation over the payload.
    pub fn verify_checksum(&self, payload: &[u8]) -> (r: bool)
        requires
            payload@.len() <= 65535,
        ensures
            r == (self.checksum == spec_checksum(*self, payload@)),
    {
        self.checksum == self.calculate_checksum(payload)
    }
}

/// The eight bytes a header occupies on the wire, big-endian fields in order.
pub open spec fn spec_header_bytes(h: PacketHeader) -> Seq<u8> {
    seq![
        u16_hi(h.magic),
        u16_lo(h.magic),
        spec_type_code(h.packet_type),
        h.seq,
        u16_hi(h.payload_len),
        u16_lo(h.payload_len),
        u16_hi(h.checksum),
        u16_lo(h.checksum),
    ]
}

/// What parsing a byte sequence as a header yields: the header described by
/// the first eight bytes, or the first reason the bytes are not a header.
pub open spec fn spec_parse_header(s: Seq<u8>) -> Result<PacketHeader, PacketError> {
    if s.len() < HEADER_LEN {
        Err(PacketError::InvalidLength)
    } else if be16(s[0], s[1]) != MAGIC {
        Err(PacketError::InvalidMagic)
    } else {
        match spec_type_from_u8(s[2]) {
            None => Err(PacketError::InvalidType),
            Some(t) => Ok(
                PacketHeader {
                    magic: MAGIC,
                    packet_type: t,
                    seq: s[3],
                    payload_len: be16(s[4], s[5]),
                    checksum: be16(s[6], s[7]),
                },
            ),
        }
    }
}

/// A header with a valid magic parses back from its own wire bytes.
pub proof fn lemma_header_bytes_roundtrip(h: PacketHeader)
    requires
        h.magic == MAGIC,
    ensures
        spec_parse_header(spec_header_bytes(h)) == Ok::<PacketHeader, PacketError>(h),
{
    lemma_be16_roundtrip(h.magic, 0, 0);
    lemma_be16_roundtrip(h.payload_len, 0, 0);
    lemma_be16_roundtrip(h.checksum, 0, 0);
    lemma_type_code_roundtrip(h.packet_type);
}

impl PacketHeader {
    /// Parses the first eight bytes of `bytes` as a header.
    pub fn from_bytes(bytes: &[u8]) -> (r: Result<Self, PacketError>)
        ensures
            r == spec_parse_header(bytes@),
    {
        if bytes.len() < HEADER_LEN {
            return Err(PacketError::InvalidLength);
        }

        let magic = read_u16_be(bytes[0], bytes[1]);
        if magic != MAGIC {
            return Err(PacketError::InvalidMagic);
        }

        let packet_type = match PacketType::from_u8(bytes[2]) {
            Some(t) => t,
            None => {
                return Err(PacketError::InvalidType);
            },
        };

        let seq = bytes[3];
        let payload_len = read_u16_be(bytes[4], bytes[5]);
        let checksum = read_u16_be(bytes[6], bytes[7]);

        Ok(Self { magic, packet_type, seq, payload_len, checksum })
    }

    /// Serializes this header into its eight wire bytes.
    pub fn to_bytes(&self) -> (bytes: [u8; HEADER_LEN])
        ensures
            bytes@ == spec_header_bytes(*self),
    {
        let bytes: [u8; HEADER_LEN] = [
            (self.magic / 256) as u8,
            (self.magic % 256) as u8,
            self.packet_type.to_u8(),
            self.seq,
            (self.payload_len / 256) as u8,
            (self.payload_len % 256) as u8,
            (self.checksum / 256) as u8,
            (self.checksum % 256) as u8,
        ];
        proof {
            assert(bytes@ =~= spec_header_bytes(*self));
        }
        bytes
    }
}

/// A complete packet: a header and the payload it describes.
///
/// The payload is held as an owned buffer rather than a borrowed view, which
/// trades one copy per packet for freedom from lifetime coupling between a
/// packet and the buffer it was decoded from.
#[derive(Debug, Clone)]
pub struct Packet {
    /// The packet's header.
    pub header: PacketHeader,
    /// The payload; its length must equal `header.payload_len`.
    pub payload: Vec<u8>,
}

/// The header a freshly built packet carries: valid magic, the given type,
/// sequence number and payload length, and the checksum computed over them.
pub open spec fn spec_frame_header(t: PacketType, seq: u8, payload: Seq<u8>) -> PacketHeader {
    let base = PacketHeader {
        magic: MAGIC,
        packet_type: t,
        seq,
        payload_len: payload.len() as u16,
        checksum: 0u16,
    };
    PacketHeader { checksum: spec_checksum(base, payload), ..base }
}

/// What verifying a packet yields: the first violated invariant, or `Ok`.
pub open spec fn spec_verify(p: Packet) -> Result<(), PacketError> {
    if p.header.magic != MAGIC {
        Err(PacketError::InvalidMagic)
    } else if p.payload@.len() != p.header.payload_len {
        Err(PacketError::InvalidLength)
    } else if p.header.checksum != spec_checksum(p.header, p.payload@) {
        Err(PacketError::InvalidChecksum)
    } else {
        Ok(())
    }
}

impl Packet {
    /// Builds a packet over a copy of `payload`, with the checksum filled in.
    pub fn new(packet_type: PacketType, seq: u8, payload: &[u8]) -> (p: Self)
        requires
            payload@.len() <= MAX_PAYLOAD_LEN,
        ensures
            p.header == spec_frame_header(packet_type, seq, payload@),
            p.payload@ == payload@,
    {
        let mut header = PacketHeader::new(packet_type, seq, payload.len() as u16);
        header.checksum = header.calculate_checksum(payload);

        let mut owned: Vec<u8> = Vec::new();
        owned.extend_from_slice(payload);

        Self { header, payload: owned }
    }

    /// Checks this packet's invariants: magic, payload length agreement, and
    /// checksum.
    pub fn verify(&self) -> (r: Result<(), PacketError>)
        ensures
            r == spec_verify(*self),
    {
        if self.header.magic != MAGIC {
            return Err(PacketError::InvalidMagic);
        }

        if self.payload.len() != self.header.payload_len as usize {
            return Err(PacketError::InvalidLength);
        }

        if !self.header.verify_checksum(self.payload.as_slice()) {
            return Err(PacketError::InvalidChecksum);
        }

        Ok(())
    }
}

/// Why a byte sequence was rejected as a packet or header.
#[derive(Debug, Clone, Copy, PartialEq, Eq, Structural)]
pub enum PacketError {
    /// The first two bytes do not spell the magic sentinel.
    InvalidMagic,
    /// The type byte names no known packet type.
    InvalidType,
    /// Fewer bytes than a header needs, or a payload length disagreement.
    InvalidLength,
    /// The stored checksum does not match a recomputation.
    InvalidChecksum,
    /// A destination buffer cannot hold the packet.
    BufferTooSmall,
}

} // verus!
