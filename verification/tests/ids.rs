use mongo_repo::Id;

#[test]
fn parse_accepts_twenty_four_hex_digits() {
    let id = Id::parse("0123456789abcdef01234567").unwrap();
    assert_eq!(
        id.as_bytes().as_slice(),
        &[0x01, 0x23, 0x45, 0x67, 0x89, 0xab, 0xcd, 0xef, 0x01, 0x23, 0x45, 0x67]
    );
}

#[test]
fn parse_accepts_upper_case_digits() {
    let lower = Id::parse("0123456789abcdef01234567").unwrap();
    let upper = Id::parse("0123456789ABCDEF01234567").unwrap();
    assert_eq!(lower, upper);
}

#[test]
fn parse_rejects_malformed_text() {
    assert!(Id::parse("").is_err());
    assert!(Id::parse("0123456789abcdef0123456").is_err());
    assert!(Id::parse("0123456789abcdef012345678").is_err());
    assert!(Id::parse("0123456789abcdef0123456g").is_err());
}

#[test]
fn display_and_parse_are_inverse() {
    let text = "00ff127fabcdef9876543210";
    let id = Id::parse(text).unwrap();
    assert_eq!(id.to_hex(), text);
    let back = Id::parse(id.to_hex().as_str()).unwrap();
    assert_eq!(back, id);
}

#[test]
fn display_normalizes_to_lower_case() {
    let id = Id::parse("0123456789ABCDEF01234567").unwrap();
    assert_eq!(id.to_hex(), "0123456789abcdef01234567");
}

#[test]
fn ids_compare_by_bytes() {
    let a = Id::from_bytes(vec![0, 1, 2, 3, 4, 5, 6, 7, 8, 9, 10, 11]);
    let b = Id::from_bytes(vec![0, 1, 2, 3, 4, 5, 6, 7, 8, 9, 10, 11]);
    let c = Id::from_bytes(vec![0, 1, 2, 3, 4, 5, 6, 7, 8, 9, 10, 12]);
    assert_eq!(a, b);
    assert_ne!(a, c);
    assert_eq!(a.clone(), b);
}
