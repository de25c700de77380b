use ue_types::guid::Guid;

#[test]
fn test_guid_string_round_trip() {
    let guid = Guid::new(0x12345678, 0x9ABCDEF0, 0x00000001, 0xFFFFFFFF);
    let s = guid.to_string();
    assert_eq!(s, "12345678-9ABCDEF0-00000001-FFFFFFFF");
    assert_eq!(Guid::parse(&s), Ok(guid));
}

#[test]
fn test_guid_parse_accepts_lowercase() {
    let parsed = Guid::parse("0000abcd-0-1-ff").unwrap();
    assert_eq!(parsed, Guid::new(0xABCD, 0, 1, 0xFF));
}

#[test]
fn test_guid_parse_errors() {
    assert_eq!(Guid::parse("1-2-3"), Err("Invalid GUID format"));
    assert_eq!(Guid::parse("1-2-3-4-5"), Err("Invalid GUID format"));
    assert_eq!(Guid::parse(""), Err("Invalid GUID format"));
    assert_eq!(Guid::parse("x-2-3-4"), Err("Invalid hex in part A"));
    assert_eq!(Guid::parse("1--3-4"), Err("Invalid hex in part B"));
    assert_eq!(Guid::parse("1-2-123456789-4"), Err("Invalid hex in part C"));
    assert_eq!(Guid::parse("1-2-3-4g"), Err("Invalid hex in part D"));
}

#[test]
fn test_guid_validity() {
    assert!(!Guid::invalid().is_valid());
    assert!(Guid::new(0, 0, 0, 1).is_valid());
    assert!(Guid::new_guid().is_valid());
    assert_eq!(Guid::default(), Guid::invalid());
}

#[test]
fn test_guid_bytes_round_trip() {
    let guid = Guid::new(0x01020304, 0x05060708, 0x090A0B0C, 0x0D0E0F10);
    let bytes = guid.to_bytes();
    assert_eq!(
        bytes,
        [1, 2, 3, 4, 5, 6, 7, 8, 9, 10, 11, 12, 13, 14, 15, 16]
    );
    assert_eq!(Guid::from_bytes(bytes), guid);
}

#[test]
fn test_guid_from_seed_is_deterministic() {
    let a = Guid::from_seed(123456789);
    let b = Guid::from_seed(123456789);
    assert_eq!(a, b);
    assert_eq!(a.a, (123456789u64 & 0xFFFF_FFFF) as u32);
    assert_eq!(a.b, 0);
    assert_eq!(
        a.c,
        (123456789u64
            .wrapping_mul(1103515245)
            .wrapping_add(12345)
            & 0xFFFF_FFFF) as u32
    );
}
