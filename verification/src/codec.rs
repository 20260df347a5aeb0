//! The fixed layout of a game packet: seventeen header fields in 56 bytes,
//! little-endian throughout, followed by a payload of any length.

use vstd::prelude::*;
use crate::bytes::{
    lemma_i32_bits_inverse, lemma_u32_le_read_write, lemma_u32_le_write_read, i32_to_u32, push_bytes, push_u32_le,
    spec_i32_from_bits, spec_i32_to_bits, spec_u32_at, spec_u32_to_le, u32_at, u32_to_i32,
};
use crate::types::{DecodeError, ETankPacketType, TankPacketType};

verus! {

/// The number of bytes of the fixed header.
pub const HEADER_LEN: usize = 56;

/// The header that the first 56 bytes of `s` spell.
pub open spec fn spec_decode_header(s: Seq<u8>) -> TankPacketType
    recommends
        s.len() >= 56,
{
    TankPacketType {
        packet_type: ETankPacketType::spec_from_u8(s[0]),
        unk1: s[1],
        unk2: s[2],
        unk3: s[3],
        net_id: spec_u32_at(s, 4),
        unk4: spec_u32_at(s, 8),
        flags: spec_u32_at(s, 12),
        unk6: spec_u32_at(s, 16),
        value: spec_u32_at(s, 20),
        vector_x: spec_u32_at(s, 24),
        vector_y: spec_u32_at(s, 28),
        vector_x2: spec_u32_at(s, 32),
        vector_y2: spec_u32_at(s, 36),
        unk12: spec_u32_at(s, 40),
        int_x: spec_i32_from_bits(spec_u32_at(s, 44)),
        int_y: spec_i32_from_bits(spec_u32_at(s, 48)),
        extended_data_length: spec_u32_at(s, 52),
    }
}

/// The 56 bytes that spell a header.
pub open spec fn spec_encode_header(p: TankPacketType) -> Seq<u8> {
    seq![p.packet_type.spec_to_u8(), p.unk1, p.unk2, p.unk3]
        + spec_u32_to_le(p.net_id)
        + spec_u32_to_le(p.unk4)
        + spec_u32_to_le(p.flags)
        + spec_u32_to_le(p.unk6)
        + spec_u32_to_le(p.value)
        + spec_u32_to_le(p.vector_x)
        + spec_u32_to_le(p.vector_y)
        + spec_u32_to_le(p.vector_x2)
        + spec_u32_to_le(p.vector_y2)
        + spec_u32_to_le(p.unk12)
        + spec_u32_to_le(spec_i32_to_bits(p.int_x))
        + spec_u32_to_le(spec_i32_to_bits(p.int_y))
        + spec_u32_to_le(p.extended_data_length)
}

/// A whole game packet: the header, then the payload as it is.
pub open spec fn spec_encode(p: TankPacketType, payload: Seq<u8>) -> Seq<u8> {
    spec_encode_header(p) + payload
}

/// Whether the header's length field agrees with a payload of `n` bytes.
pub open spec fn spec_length_matches(p: TankPacketType, n: nat) -> bool {
    p.extended_data_length as nat == n
}

/// An encoded header has 56 bytes.
pub proof fn lemma_encode_header_len(p: TankPacketType)
    ensures
        spec_encode_header(p).len() == 56,
{
    lemma_u32_le_write_read(p.net_id);
    lemma_u32_le_write_read(p.unk4);
    lemma_u32_le_write_read(p.flags);
    lemma_u32_le_write_read(p.unk6);
    lemma_u32_le_write_read(p.value);
    lemma_u32_le_write_read(p.vector_x);
    lemma_u32_le_write_read(p.vector_y);
    lemma_u32_le_write_read(p.vector_x2);
    lemma_u32_le_write_read(p.vector_y2);
    lemma_u32_le_write_read(p.unk12);
    lemma_u32_le_write_read(spec_i32_to_bits(p.int_x));
    lemma_u32_le_write_read(spec_i32_to_bits(p.int_y));
    lemma_u32_le_write_read(p.extended_data_length);
}

/// Decoding a packet of at least 56 bytes and encoding the header again with
/// the bytes that followed it gives the packet back, byte for byte.
pub proof fn lemma_decode_encode_round_trip(s: Seq<u8>)
    requires
        s.len() >= 56,
    ensures
        spec_encode(spec_decode_header(s), s.subrange(56, s.len() as int)) == s,
{
    let p = spec_decode_header(s);
    ETankPacketType::lemma_from_to(s[0]);
    lemma_u32_le_read_write(s.subrange(4, 8));
    lemma_u32_le_read_write(s.subrange(8, 12));
    lemma_u32_le_read_write(s.subrange(12, 16));
    lemma_u32_le_read_write(s.subrange(16, 20));
    lemma_u32_le_read_write(s.subrange(20, 24));
    lemma_u32_le_read_write(s.subrange(24, 28));
    lemma_u32_le_read_write(s.subrange(28, 32));
    lemma_u32_le_read_write(s.subrange(32, 36));
    lemma_u32_le_read_write(s.subrange(36, 40));
    lemma_u32_le_read_write(s.subrange(40, 44));
    lemma_u32_le_read_write(s.subrange(44, 48));
    lemma_u32_le_read_write(s.subrange(48, 52));
    lemma_u32_le_read_write(s.subrange(52, 56));
    lemma_i32_bits_inverse(spec_u32_at(s, 44), 0);
    lemma_i32_bits_inverse(spec_u32_at(s, 48), 0);
    assert(spec_encode_header(p) =~= s.subrange(0, 56));
    assert(s.subrange(0, 56) + s.subrange(56, s.len() as int) =~= s);
}

/// Encoding a header and decoding the result gives the header back, when its
/// kind is one that a byte can decode to.
pub proof fn lemma_encode_decode_round_trip(p: TankPacketType, payload: Seq<u8>)
    requires
        ETankPacketType::spec_from_u8(p.packet_type.spec_to_u8()) == p.packet_type,
    ensures
        spec_decode_header(spec_encode(p, payload)) == p,
{
    let s = spec_encode(p, payload);
    lemma_encode_header_len(p);
    lemma_u32_le_write_read(p.net_id);
    lemma_u32_le_write_read(p.unk4);
    lemma_u32_le_write_read(p.flags);
    lemma_u32_le_write_read(p.unk6);
    lemma_u32_le_write_read(p.value);
    lemma_u32_le_write_read(p.vector_x);
    lemma_u32_le_write_read(p.vector_y);
    lemma_u32_le_write_read(p.vector_x2);
    lemma_u32_le_write_read(p.vector_y2);
    lemma_u32_le_write_read(p.unk12);
    lemma_u32_le_write_read(spec_i32_to_bits(p.int_x));
    lemma_u32_le_write_read(spec_i32_to_bits(p.int_y));
    lemma_u32_le_write_read(p.extended_data_length);
    assert(s.subrange(4, 8) =~= spec_u32_to_le(p.net_id));
    assert(s.subrange(8, 12) =~= spec_u32_to_le(p.unk4));
    assert(s.subrange(12, 16) =~= spec_u32_to_le(p.flags));
    assert(s.subrange(16, 20) =~= spec_u32_to_le(p.unk6));
    assert(s.subrange(20, 24) =~= spec_u32_to_le(p.value));
    assert(s.subrange(24, 28) =~= spec_u32_to_le(p.vector_x));
    assert(s.subrange(28, 32) =~= spec_u32_to_le(p.vector_y));
    assert(s.subrange(32, 36) =~= spec_u32_to_le(p.vector_x2));
    assert(s.subrange(36, 40) =~= spec_u32_to_le(p.vector_y2));
    assert(s.subrange(40, 44) =~= spec_u32_to_le(p.unk12));
    assert(s.subrange(44, 48) =~= spec_u32_to_le(spec_i32_to_bits(p.int_x)));
    assert(s.subrange(48, 52) =~= spec_u32_to_le(spec_i32_to_bits(p.int_y)));
    assert(s.subrange(52, 56) =~= spec_u32_to_le(p.extended_data_length));
    lemma_i32_bits_inverse(0, p.int_x);
    lemma_i32_bits_inverse(0, p.int_y);
}

/// Reads the header from the first 56 bytes of `data`.
pub fn map_slice_to_tank_packet_type(data: &[u8]) -> (r: TankPacketType)
    requires
        data@.len() >= 56,
    ensures
        r == spec_decode_header(data@),
{
    TankPacketType {
        packet_type: ETankPacketType::from_u8(data[0]),
        unk1: data[1],
        unk2: data[2],
        unk3: data[3],
        net_id: u32_at(data, 4),
        unk4: u32_at(data, 8),
        flags: u32_at(data, 12),
        unk6: u32_at(data, 16),
        value: u32_at(data, 20),
        vector_x: u32_at(data, 24),
        vector_y: u32_at(data, 28),
        vector_x2: u32_at(data, 32),
        vector_y2: u32_at(data, 36),
        unk12: u32_at(data, 40),
        int_x: u32_to_i32(u32_at(data, 44)),
        int_y: u32_to_i32(u32_at(data, 48)),
        extended_data_length: u32_at(data, 52),
    }
}

/// Decodes the fixed header of a game packet. Fails exactly when fewer than
/// 56 bytes are there; the bytes after the header are not looked at.
pub fn decode_header(bytes: &[u8]) -> (r: Result<TankPacketType, DecodeError>)
    ensures
        bytes@.len() < 56 ==> r == Err::<TankPacketType, DecodeError>(DecodeError::Truncated),
        bytes@.len() >= 56 ==> r == Ok::<TankPacketType, DecodeError>(spec_decode_header(bytes@)),
{
    if bytes.len() < HEADER_LEN {
        Err(DecodeError::Truncated)
    } else {
        Ok(map_slice_to_tank_packet_type(bytes))
    }
}

/// Writes the header's seventeen fields in order, then the payload
/// unchanged. The length field is written as the caller set it.
pub fn encode(pkt: &TankPacketType, trailing_payload: &[u8]) -> (r: Vec<u8>)
    ensures
        r@ == spec_encode(*pkt, trailing_payload@),
{
    let mut out: Vec<u8> = Vec::new();
    out.push(pkt.packet_type.to_u8());
    out.push(pkt.unk1);
    out.push(pkt.unk2);
    out.push(pkt.unk3);
    assert(out@ =~= seq![pkt.packet_type.spec_to_u8(), pkt.unk1, pkt.unk2, pkt.unk3]);
    push_u32_le(&mut out, pkt.net_id);
    push_u32_le(&mut out, pkt.unk4);
    push_u32_le(&mut out, pkt.flags);
    push_u32_le(&mut out, pkt.unk6);
    push_u32_le(&mut out, pkt.value);
    push_u32_le(&mut out, pkt.vector_x);
    push_u32_le(&mut out, pkt.vector_y);
    push_u32_le(&mut out, pkt.vector_x2);
    push_u32_le(&mut out, pkt.vector_y2);
    push_u32_le(&mut out, pkt.unk12);
    push_u32_le(&mut out, i32_to_u32(pkt.int_x));
    push_u32_le(&mut out, i32_to_u32(pkt.int_y));
    push_u32_le(&mut out, pkt.extended_data_length);
    push_bytes(&mut out, trailing_payload);
    out
}

/// Whether the header's length field equals the number of payload bytes
/// that follow it.
pub fn length_matches(pkt: &TankPacketType, payload: &[u8]) -> (r: bool)
    ensures
        r == spec_length_matches(*pkt, payload@.len()),
{
    let n: usize = payload.len();
    n <= 0xFFFF_FFFF && pkt.extended_data_length == n as u32
}

} // verus!
