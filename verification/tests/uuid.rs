use canberra_core::uuid::Uuid;
use canberra_core::uuid::UuidError;

const FIELDS_D4: [u8; 8] = [0xd1, 0xd2, 0xd3, 0xd4, 0xd5, 0xd6, 0xd7, 0xd8];

#[test]
fn nil_and_max() {
    assert_eq!(Uuid::nil().as_bytes(), &[0u8; 16]);
    assert_eq!(Uuid::max().as_bytes(), &[0xffu8; 16]);
    assert_eq!(Uuid::default(), Uuid::nil());
}

#[test]
fn from_fields_matches_reference() {
    let ours = Uuid::from_fields(0xa1a2a3a4, 0xb1b2, 0xc1c2, &FIELDS_D4);
    let reference = uuid::Uuid::from_fields(0xa1a2a3a4, 0xb1b2, 0xc1c2, &FIELDS_D4);
    assert_eq!(ours.as_bytes(), reference.as_bytes());
    assert_eq!(
        ours.as_bytes(),
        &[
            0xa1, 0xa2, 0xa3, 0xa4, 0xb1, 0xb2, 0xc1, 0xc2, 0xd1, 0xd2, 0xd3, 0xd4, 0xd5, 0xd6,
            0xd7, 0xd8,
        ]
    );
}

#[test]
fn from_fields_le_matches_reference() {
    let ours = Uuid::from_fields_le(0xa1a2a3a4, 0xb1b2, 0xc1c2, &FIELDS_D4);
    let reference = uuid::Uuid::from_fields_le(0xa1a2a3a4, 0xb1b2, 0xc1c2, &FIELDS_D4);
    assert_eq!(ours.as_bytes(), reference.as_bytes());
}

#[test]
fn from_u128_matches_reference() {
    let v = 0xa1a2a3a4b1b2c1c2d1d2d3d4d5d6d7d8u128;
    assert_eq!(
        Uuid::from_u128(v).as_bytes(),
        uuid::Uuid::from_u128(v).as_bytes()
    );
    assert_eq!(
        Uuid::from_u128_le(v).as_bytes(),
        uuid::Uuid::from_u128_le(v).as_bytes()
    );
}

#[test]
fn from_u64_pair_matches_reference() {
    let hi = 0xa1a2a3a4b1b2c1c2u64;
    let lo = 0xd1d2d3d4d5d6d7d8u64;
    assert_eq!(
        Uuid::from_u64_pair(hi, lo).as_bytes(),
        uuid::Uuid::from_u64_pair(hi, lo).as_bytes()
    );
}

#[test]
fn from_bytes_le_flips_the_integer_fields() {
    let b: [u8; 16] = [
        0xa4, 0xa3, 0xa2, 0xa1, 0xb2, 0xb1, 0xc2, 0xc1, 0xd1, 0xd2, 0xd3, 0xd4, 0xd5, 0xd6, 0xd7,
        0xd8,
    ];
    let ours = Uuid::from_bytes_le(b);
    let reference = uuid::Uuid::from_bytes_le(b);
    assert_eq!(ours.as_bytes(), reference.as_bytes());
    assert_eq!(ours, Uuid::from_fields(0xa1a2a3a4, 0xb1b2, 0xc1c2, &FIELDS_D4));
}

#[test]
fn from_slice_accepts_sixteen_bytes_only() {
    let b: [u8; 16] = *Uuid::from_u128(7).as_bytes();
    assert_eq!(Uuid::from_slice(&b).unwrap(), Uuid::from_u128(7));
    assert_eq!(
        Uuid::from_slice(&b[..4]),
        Err(UuidError::ByteLength { len: 4 })
    );
    assert_eq!(
        Uuid::from_slice_le(&b[..15]),
        Err(UuidError::ByteLength { len: 15 })
    );
    let le: [u8; 16] = [
        b[3], b[2], b[1], b[0], b[5], b[4], b[7], b[6], b[8], b[9], b[10], b[11], b[12], b[13],
        b[14], b[15],
    ];
    assert_eq!(Uuid::from_slice_le(&le).unwrap(), Uuid::from_u128(7));
    assert_eq!(
        Uuid::from_slice_le(&le).unwrap().as_bytes(),
        uuid::Uuid::from_slice_le(&le).unwrap().as_bytes()
    );
}

#[test]
fn parse_hyphenated() {
    let text = "550e8400-e29b-41d4-a716-446655440000";
    let ours = Uuid::parse_str(text).unwrap();
    let reference = uuid::Uuid::parse_str(text).unwrap();
    assert_eq!(ours.as_bytes(), reference.as_bytes());
    assert_eq!(
        ours.as_bytes(),
        &[
            0x55, 0x0e, 0x84, 0x00, 0xe2, 0x9b, 0x41, 0xd4, 0xa7, 0x16, 0x44, 0x66, 0x55, 0x44,
            0x00, 0x00,
        ]
    );
}

#[test]
fn parse_simple_braced_and_urn() {
    let simple = "936da01f9abd4d9d80c702af85c822a8";
    let braced = "{936da01f-9abd-4d9d-80c7-02af85c822a8}";
    let urn = "urn:uuid:936da01f-9abd-4d9d-80c7-02af85c822a8";
    let upper_urn = "URN:UUID:936da01f-9abd-4d9d-80c7-02af85c822a8";
    let expected = uuid::Uuid::parse_str(simple).unwrap();
    for text in [simple, braced, urn, upper_urn] {
        let ours = Uuid::parse_str(text).unwrap();
        assert_eq!(ours.as_bytes(), expected.as_bytes());
        assert_eq!(Uuid::try_parse(text).unwrap(), ours);
        assert_eq!(Uuid::try_parse_ascii(text.as_bytes()).unwrap(), ours);
    }
}

#[test]
fn parse_accepts_upper_case_hex() {
    let text = "550E8400-E29B-41D4-A716-446655440000";
    assert_eq!(
        Uuid::parse_str(text).unwrap().as_bytes(),
        uuid::Uuid::parse_str(text).unwrap().as_bytes()
    );
}

#[test]
fn parse_rejects_what_the_reference_rejects() {
    let bad = [
        "",
        "550e8400",
        "550e8400-e29b-41d4-a716-44665544000",
        "550e8400-e29b-41d4-a716-4466554400000",
        "550e8400e29b-41d4-a716-446655440000",
        "g50e8400-e29b-41d4-a716-446655440000",
        "936da01f9abd4d9d80c702af85c822ag",
        "(936da01f-9abd-4d9d-80c7-02af85c822a8)",
        "urn:uuld:936da01f-9abd-4d9d-80c7-02af85c822a8",
    ];
    for text in bad {
        assert_eq!(Uuid::parse_str(text), Err(UuidError::Syntax), "{text}");
        assert!(uuid::Uuid::parse_str(text).is_err(), "{text}");
    }
}

#[test]
fn from_str_parses() {
    let parsed: Uuid = "550e8400-e29b-41d4-a716-446655440000".parse().unwrap();
    assert_eq!(parsed, Uuid::parse_str("550e8400-e29b-41d4-a716-446655440000").unwrap());
    assert!("nonsense".parse::<Uuid>().is_err());
}

#[test]
fn equality_is_by_value() {
    let a = Uuid::from_u128(42);
    let b = Uuid::from_u128(42);
    let c = Uuid::from_u128(43);
    assert_eq!(a, b);
    assert_ne!(a, c);
}

#[test]
fn new_v4_sets_version_and_variant() {
    let u = Uuid::new_v4();
    assert_eq!(u.as_bytes()[6] >> 4, 4);
    assert_eq!(u.as_bytes()[8] >> 6, 2);
    let again = Uuid::new_v4();
    assert_ne!(u, again);
}
