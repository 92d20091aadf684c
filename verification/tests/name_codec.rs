use core::str::FromStr;
use a653rs::types::{Name, MAX_NAME_LENGTH};

#[test]
fn name_round_trip() {
    // encoding pads with NUL bytes to exactly 32; decoding strips them
    let name = Name::encode("Hello").unwrap();
    let raw = name.into_inner();
    assert_eq!(raw.len(), MAX_NAME_LENGTH);
    assert_eq!(&raw[..5], b"Hello");
    assert!(raw[5..].iter().all(|b| *b == 0));
    assert_eq!(name.to_str().unwrap(), "Hello");
}

#[test]
fn name_round_trip_full_width() {
    let s = "B".repeat(32);
    let name = Name::encode(&s).unwrap();
    assert_eq!(name.to_str().unwrap(), s.as_str());
}

#[test]
fn name_too_long_reports_length() {
    let s = "C".repeat(33);
    assert_eq!(Name::encode(&s), Err(33));
}

#[test]
fn name_from_str_matches_encode() {
    let parsed = Name::from_str("Ch1").unwrap();
    let encoded = Name::encode("Ch1").unwrap();
    assert_eq!(parsed.into_inner(), encoded.into_inner());
}

#[test]
fn name_new_keeps_bytes() {
    let mut raw = [0u8; MAX_NAME_LENGTH];
    raw[0] = b'X';
    let name = Name::new(raw);
    assert_eq!(name.to_str().unwrap(), "X");
    assert_eq!(name.into_inner(), raw);
}
