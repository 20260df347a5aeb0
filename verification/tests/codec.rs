use growbot::bytes::{bytes_to_f32_bits, bytes_to_i32, bytes_to_u32, i32_to_u32, u32_to_i32};
use growbot::codec::{decode_header, encode, length_matches, map_slice_to_tank_packet_type};
use growbot::types::{DecodeError, EPacketType, ETankPacketType, TankPacketType};

fn sample_packet_bytes() -> Vec<u8> {
    let mut bytes: Vec<u8> = Vec::new();
    bytes.extend_from_slice(&[22, 1, 2, 3]);
    bytes.extend_from_slice(&7u32.to_le_bytes());
    bytes.extend_from_slice(&0xDEADBEEFu32.to_le_bytes());
    bytes.extend_from_slice(&8u32.to_le_bytes());
    bytes.extend_from_slice(&9u32.to_le_bytes());
    bytes.extend_from_slice(&10u32.to_le_bytes());
    bytes.extend_from_slice(&1.5f32.to_le_bytes());
    bytes.extend_from_slice(&(-2.25f32).to_le_bytes());
    bytes.extend_from_slice(&64.0f32.to_le_bytes());
    bytes.extend_from_slice(&250.0f32.to_le_bytes());
    bytes.extend_from_slice(&0.0f32.to_le_bytes());
    bytes.extend_from_slice(&(-5i32).to_le_bytes());
    bytes.extend_from_slice(&i32::MIN.to_le_bytes());
    bytes.extend_from_slice(&3u32.to_le_bytes());
    bytes.extend_from_slice(&[0xAA, 0xBB, 0xCC]);
    bytes
}

#[test]
fn little_endian_reads() {
    assert_eq!(bytes_to_u32(&[0x78, 0x56, 0x34, 0x12]), 0x12345678);
    assert_eq!(bytes_to_u32(&[0xFF, 0xFF, 0xFF, 0xFF, 9]), u32::MAX);
    assert_eq!(bytes_to_i32(&[0xFE, 0xFF, 0xFF, 0xFF]), -2);
    assert_eq!(bytes_to_i32(&[0, 0, 0, 0x80]), i32::MIN);
    assert_eq!(f32::from_bits(bytes_to_f32_bits(&64.0f32.to_le_bytes())), 64.0);
}

#[test]
fn signed_bit_patterns() {
    assert_eq!(u32_to_i32(0xFFFF_FFFF), -1);
    assert_eq!(u32_to_i32(0x7FFF_FFFF), i32::MAX);
    assert_eq!(u32_to_i32(0x8000_0000), i32::MIN);
    assert_eq!(i32_to_u32(-1), 0xFFFF_FFFF);
    assert_eq!(i32_to_u32(i32::MIN), 0x8000_0000);
    assert_eq!(i32_to_u32(17091), 17091);
}

#[test]
fn decode_reads_every_field() {
    let bytes = sample_packet_bytes();
    let pkt = decode_header(&bytes).unwrap();
    assert_eq!(pkt.packet_type, ETankPacketType::NetGamePacketPingRequest);
    assert_eq!((pkt.unk1, pkt.unk2, pkt.unk3), (1, 2, 3));
    assert_eq!(pkt.net_id, 7);
    assert_eq!(pkt.unk4, 0xDEADBEEF);
    assert_eq!(pkt.flags, 8);
    assert_eq!(pkt.unk6, 9);
    assert_eq!(pkt.value, 10);
    assert_eq!(f32::from_bits(pkt.vector_x), 1.5);
    assert_eq!(f32::from_bits(pkt.vector_y), -2.25);
    assert_eq!(f32::from_bits(pkt.vector_x2), 64.0);
    assert_eq!(f32::from_bits(pkt.vector_y2), 250.0);
    assert_eq!(f32::from_bits(pkt.unk12), 0.0);
    assert_eq!(pkt.int_x, -5);
    assert_eq!(pkt.int_y, i32::MIN);
    assert_eq!(pkt.extended_data_length, 3);
    assert!(length_matches(&pkt, &bytes[56..]));
    assert!(!length_matches(&pkt, &bytes[57..]));
    assert_eq!(map_slice_to_tank_packet_type(&bytes), pkt);
}

#[test]
fn decode_then_encode_gives_the_bytes_back() {
    let bytes = sample_packet_bytes();
    let pkt = decode_header(&bytes).unwrap();
    assert_eq!(encode(&pkt, &bytes[56..]), bytes);
    let mut unknown_kind = bytes.clone();
    unknown_kind[0] = 200;
    let pkt = decode_header(&unknown_kind).unwrap();
    assert_eq!(pkt.packet_type, ETankPacketType::Other(200));
    assert_eq!(encode(&pkt, &unknown_kind[56..]), unknown_kind);
    let header_only = &bytes[..56];
    let pkt = decode_header(header_only).unwrap();
    assert_eq!(encode(&pkt, &[]), header_only.to_vec());
}

#[test]
fn encode_then_decode_gives_the_header_back() {
    let mut pkt = TankPacketType::new();
    pkt.packet_type = ETankPacketType::NetGamePacketCallFunction;
    pkt.net_id = 0xFFFF_FFFF;
    pkt.int_x = -1;
    pkt.vector_x = 1000.0f32.to_bits();
    pkt.extended_data_length = 2;
    let bytes = encode(&pkt, &[5, 6]);
    assert_eq!(bytes.len(), 58);
    assert_eq!(&bytes[4..8], &[0xFF, 0xFF, 0xFF, 0xFF]);
    assert_eq!(&bytes[24..28], &1000.0f32.to_le_bytes());
    assert_eq!(&bytes[44..48], &[0xFF, 0xFF, 0xFF, 0xFF]);
    assert_eq!(&bytes[52..56], &[2, 0, 0, 0]);
    assert_eq!(&bytes[56..], &[5, 6]);
    assert_eq!(decode_header(&bytes), Ok(pkt));
}

#[test]
fn short_header_is_an_error() {
    for n in 0..56usize {
        let bytes = vec![0u8; n];
        assert_eq!(decode_header(&bytes), Err(DecodeError::Truncated));
    }
    assert!(decode_header(&[0u8; 56]).is_ok());
}

#[test]
fn new_header_is_all_zero() {
    let pkt = TankPacketType::new();
    assert_eq!(encode(&pkt, &[]), vec![0u8; 56]);
}

#[test]
fn kinds_and_their_numbers() {
    assert_eq!(EPacketType::from_u32(1), EPacketType::NetMessageServerHello);
    assert_eq!(EPacketType::from_u32(2), EPacketType::NetMessageGenericText);
    assert_eq!(EPacketType::from_u32(3), EPacketType::NetMessageGameMessage);
    assert_eq!(EPacketType::from_u32(4), EPacketType::NetMessageGamePacket);
    assert_eq!(EPacketType::from_u32(77), EPacketType::NetMessageUnknown);
    assert_eq!(EPacketType::NetMessageGamePacket.to_u32(), 4);
    assert_eq!(EPacketType::NetMessageMax.to_u32(), 9);
    assert_eq!(ETankPacketType::from_u8(1), ETankPacketType::NetGamePacketCallFunction);
    assert_eq!(ETankPacketType::from_u8(4), ETankPacketType::NetGamePacketSendMapData);
    assert_eq!(ETankPacketType::from_u8(9), ETankPacketType::NetGamePacketSendInventoryState);
    assert_eq!(ETankPacketType::from_u8(21), ETankPacketType::NetGamePacketPingReply);
    assert_eq!(ETankPacketType::from_u8(22), ETankPacketType::NetGamePacketPingRequest);
    for b in 0..=255u8 {
        assert_eq!(ETankPacketType::from_u8(b).to_u8(), b);
    }
}
