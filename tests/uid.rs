use chuchi_postgres::uid::{DecodeError, UniqueId};

#[test]
fn serde_test() {
    let s = "AGCGeWIDTlipbg";
    let d = UniqueId::parse_from_b64(s).unwrap();
    assert_eq!(d.to_b64(), "AGCGeWIDTlipbg");

    let v = String::from("AGCGeWIDTlipbg");
    let d = UniqueId::parse_from_b64(&v).unwrap();
    assert_eq!(d.to_b64(), "AGCGeWIDTlipbg");
    assert_eq!(d.into_bytes(), [0, 96, 134, 121, 98, 3, 78, 88, 169, 110]);
}

#[test]
fn uid_b64_of_known_bytes() {
    let id = UniqueId::from_raw([0, 96, 130, 121, 98, 3, 78, 88, 169, 110]);
    assert_eq!(id.to_b64(), "AGCCeWIDTlipbg");
    assert_ne!(id.to_b64(), "");
}

#[test]
fn uid_parse_decodes_bytes() {
    let id = UniqueId::parse_from_b64("AAECAwQFBgcICQ").unwrap();
    assert_eq!(id.into_bytes(), [0, 1, 2, 3, 4, 5, 6, 7, 8, 9]);
}

#[test]
fn uid_parse_wrong_length() {
    assert_eq!(
        UniqueId::parse_from_b64("AGCGeWIDTlip"),
        Err(DecodeError::InvalidLength(12))
    );
    assert_eq!(UniqueId::parse_from_b64(""), Err(DecodeError::InvalidLength(0)));
}

#[test]
fn uid_parse_invalid_byte() {
    assert!(matches!(
        UniqueId::parse_from_b64("AGCGeWIDTlip*g"),
        Err(DecodeError::InvalidByte(_, b'*'))
    ));
}

#[test]
fn uid_round_trip_through_b64() {
    let id = UniqueId::from_bytes([255, 254, 253, 0, 1, 2, 3, 4, 5, 6]);
    let text = id.to_b64();
    assert_eq!(text.len(), 14);
    assert_eq!(UniqueId::parse_from_b64(&text), Ok(id));
}

#[test]
fn uid_from_parts_keeps_seconds() {
    let id = UniqueId::from_parts(0x01_0203_0405, [6, 7, 8, 9, 10]);
    assert_eq!(id.into_bytes(), [1, 2, 3, 4, 5, 6, 7, 8, 9, 10]);
    assert_eq!(id.since_unix_secs(), 0x01_0203_0405);
}

#[test]
fn uid_from_parts_keeps_low_forty_bits() {
    let id = UniqueId::from_parts(0xff_0000_0000_0007, [0; 5]);
    assert_eq!(id.since_unix_secs(), 7);
}

#[test]
fn uid_new_holds_current_seconds() {
    let id = UniqueId::new();
    assert!(id.since_unix_secs() > 1_600_000_000);
    assert_eq!(id.as_slice().len(), 10);
}

#[test]
fn uid_slices_and_bytes() {
    let bytes = [9, 8, 7, 6, 5, 4, 3, 2, 1, 0];
    let id = UniqueId::from_slice_unchecked(&bytes);
    assert_eq!(id.as_slice(), &bytes[..]);
    assert_eq!(id, UniqueId::from_raw(bytes));
    assert_eq!(id.since_unix_secs(), 0x09_0807_0605);
}
