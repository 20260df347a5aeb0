use growbot::text_parse::{bytes_eq, contains, i32_to_decimal, parse_and_store};
use growbot::types::DecodeError;
use growbot::variant::{Variant, VariantList};

fn sample_list() -> VariantList {
    VariantList {
        items: vec![
            Variant::Text(b"OnSpawn".to_vec()),
            Variant::Signed(-7),
            Variant::Unsigned(4_000_000_000),
            Variant::Float(1.5f32.to_bits()),
            Variant::Vec2(2.0f32.to_bits(), 3.0f32.to_bits()),
            Variant::Vec3(1, 2, 3),
            Variant::Text(Vec::new()),
        ],
    }
}

#[test]
fn serialize_writes_the_wire_layout() {
    let list = VariantList {
        items: vec![Variant::Text(b"hi".to_vec()), Variant::Signed(-2), Variant::Float(0x3FC0_0000)],
    };
    let bytes = list.serialize().unwrap();
    assert_eq!(
        bytes,
        vec![
            3, 0, 2, 2, 0, 0, 0, b'h', b'i', 1, 9, 0xFE, 0xFF, 0xFF, 0xFF, 2, 1, 0x00, 0x00, 0xC0,
            0x3F,
        ]
    );
}

#[test]
fn deserialize_reads_what_serialize_wrote() {
    let list = sample_list();
    let bytes = list.serialize().unwrap();
    let back = VariantList::deserialize(&bytes).unwrap();
    assert_eq!(back, list);
    assert_eq!(back.len(), 7);
    assert_eq!(back.serialize().unwrap(), bytes);
}

#[test]
fn empty_list_is_one_zero_byte() {
    let list = VariantList { items: Vec::new() };
    assert_eq!(list.serialize().unwrap(), vec![0u8]);
    assert_eq!(VariantList::deserialize(&[0]).unwrap().len(), 0);
}

#[test]
fn typed_access_checks_the_kind() {
    let list = sample_list();
    assert_eq!(list.get(0).unwrap().as_string(), Ok(b"OnSpawn".to_vec()));
    assert_eq!(list.get(1).unwrap().as_int32(), Ok(-7));
    assert_eq!(list.get(2).unwrap().as_uint32(), Ok(4_000_000_000));
    assert_eq!(list.get(3).unwrap().as_float_bits().map(f32::from_bits), Ok(1.5));
    assert_eq!(list.get(0).unwrap().as_int32(), Err(DecodeError::BadArgument));
    assert_eq!(list.get(1).unwrap().as_string(), Err(DecodeError::BadArgument));
    assert_eq!(list.get(1).unwrap().as_uint32(), Err(DecodeError::BadArgument));
    assert_eq!(list.get(4).unwrap().as_float_bits(), Err(DecodeError::BadArgument));
    assert!(list.get(7).is_none());
    assert!(list.get(usize::MAX).is_none());
}

#[test]
fn empty_payload_is_truncated() {
    assert_eq!(VariantList::deserialize(&[]), Err(DecodeError::Truncated));
}

#[test]
fn record_past_the_end_is_an_overrun() {
    assert_eq!(VariantList::deserialize(&[1, 0]), Err(DecodeError::RecordOverrun));
    assert_eq!(VariantList::deserialize(&[1, 0, 9, 1, 2, 3]), Err(DecodeError::RecordOverrun));
    assert_eq!(
        VariantList::deserialize(&[1, 0, 2, 3, 0, 0, 0, b'a', b'b']),
        Err(DecodeError::RecordOverrun)
    );
    assert_eq!(
        VariantList::deserialize(&[1, 0, 2, 0xFF, 0xFF, 0xFF, 0xFF, b'a']),
        Err(DecodeError::RecordOverrun)
    );
    assert_eq!(VariantList::deserialize(&[1, 0, 3, 0, 0, 0, 0]), Err(DecodeError::RecordOverrun));
}

#[test]
fn unknown_tag_is_an_error() {
    assert_eq!(VariantList::deserialize(&[1, 0, 7, 0, 0, 0, 0]), Err(DecodeError::UnknownTag));
    assert_eq!(VariantList::deserialize(&[1, 0, 0, 0, 0, 0, 0]), Err(DecodeError::UnknownTag));
}

#[test]
fn count_must_match_the_records() {
    assert_eq!(VariantList::deserialize(&[2, 0, 9, 1, 0, 0, 0]), Err(DecodeError::CountMismatch));
    assert_eq!(VariantList::deserialize(&[0, 0, 9, 1, 0, 0, 0]), Err(DecodeError::CountMismatch));
    assert_eq!(VariantList::deserialize(&[1]), Err(DecodeError::CountMismatch));
    let ok = VariantList::deserialize(&[1, 0, 9, 1, 0, 0, 0]).unwrap();
    assert_eq!(ok.items, vec![Variant::Signed(1)]);
}

#[test]
fn too_many_arguments_cannot_be_written() {
    let list = VariantList { items: vec![Variant::Signed(0); 256] };
    assert_eq!(list.serialize(), None);
    let list = VariantList { items: vec![Variant::Signed(0); 255] };
    let bytes = list.serialize().unwrap();
    assert_eq!(bytes.len(), 1 + 255 * 6);
    assert_eq!(VariantList::deserialize(&bytes).unwrap(), list);
}

#[test]
fn blob_splits_at_every_delimiter() {
    assert_eq!(
        parse_and_store(b"1.2.3.4|77|uuid-abc"),
        vec![b"1.2.3.4".to_vec(), b"77".to_vec(), b"uuid-abc".to_vec()]
    );
    assert_eq!(parse_and_store(b""), vec![Vec::<u8>::new()]);
    assert_eq!(parse_and_store(b"|"), vec![Vec::<u8>::new(), Vec::new()]);
    assert_eq!(parse_and_store(b"a||b|"), vec![b"a".to_vec(), Vec::new(), b"b".to_vec(), Vec::new()]);
    assert_eq!(parse_and_store(b"plain"), vec![b"plain".to_vec()]);
}

#[test]
fn decimal_rendering() {
    assert_eq!(i32_to_decimal(0), b"0".to_vec());
    assert_eq!(i32_to_decimal(7), b"7".to_vec());
    assert_eq!(i32_to_decimal(17091), b"17091".to_vec());
    assert_eq!(i32_to_decimal(-45), b"-45".to_vec());
    assert_eq!(i32_to_decimal(i32::MAX), b"2147483647".to_vec());
    assert_eq!(i32_to_decimal(i32::MIN), b"-2147483648".to_vec());
    for v in [-1000, -10, -9, 9, 10, 99, 100, 123456] {
        assert_eq!(i32_to_decimal(v), v.to_string().into_bytes());
    }
}

#[test]
fn substring_search() {
    assert!(contains(b"action|logon_fail\n", b"logon_fail"));
    assert!(contains(b"logon_fail", b"logon_fail"));
    assert!(contains(b"xxlogon_fail", b"logon_fail"));
    assert!(!contains(b"logon_fai", b"logon_fail"));
    assert!(!contains(b"logon fail", b"logon_fail"));
    assert!(contains(b"abc", b""));
    assert!(contains(b"", b""));
    assert!(!contains(b"", b"a"));
    assert!(bytes_eq(b"abc", b"abc"));
    assert!(!bytes_eq(b"abc", b"abd"));
    assert!(!bytes_eq(b"abc", b"ab"));
    assert!(bytes_eq(b"", b""));
}
