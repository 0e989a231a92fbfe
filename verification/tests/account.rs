use teritorimon::account::{Error, Id};

#[test]
fn id_round_trips_through_hex() {
    let bytes: [u8; 20] = [
        0x00, 0x01, 0x02, 0x03, 0x04, 0x05, 0x06, 0x07, 0x08, 0x09, 0x0A, 0x0B, 0x0C, 0x0D, 0x0E,
        0x0F, 0x10, 0xAB, 0xCD, 0xEF,
    ];
    let id = Id::new(bytes);
    let hex = id.hex_string();
    assert_eq!(hex, "000102030405060708090A0B0C0D0E0F10ABCDEF");
    let parsed = Id::from_str(hex.as_str()).unwrap();
    assert_eq!(parsed.as_bytes(), &bytes[..]);
}

#[test]
fn id_accepts_lower_case_hex() {
    let id = Id::from_str("000102030405060708090a0b0c0d0e0f10abcdef").unwrap();
    assert_eq!(id.hex_string(), "000102030405060708090A0B0C0D0E0F10ABCDEF");
}

#[test]
fn id_rejects_mixed_case_and_bad_text() {
    // Mixed case fails the upper-case decode and the lower-case decode.
    assert!(matches!(
        Id::from_str("000102030405060708090a0B0c0d0e0f10abcdef"),
        Err(Error::InvalidHexAddress)
    ));
    assert!(matches!(
        Id::from_str("zz0102030405060708090a0b0c0d0e0f10abcdef"),
        Err(Error::InvalidHexAddress)
    ));
    // Odd length is not hex at all.
    assert!(matches!(Id::from_str("abc"), Err(Error::InvalidHexAddress)));
    // Valid hex of the wrong length is a length error.
    assert!(matches!(
        Id::from_str("0001"),
        Err(Error::InvalidAccountIdLength)
    ));
}

#[test]
fn id_try_from_checks_length() {
    assert!(matches!(
        Id::try_from(vec![0u8; 19]),
        Err(Error::InvalidAccountIdLength)
    ));
    let id = Id::try_from(vec![7u8; 20]).unwrap();
    assert_eq!(id.as_bytes(), &[7u8; 20][..]);
}

#[test]
fn bech32_address_of_known_bytes() {
    let id = Id::new([0; 20]);
    assert_eq!(
        id.get_bech32_address_string("cosmos"),
        "cosmos1qqqqqqqqqqqqqqqqqqqqqqqqqqqqqqqqnrql8a"
    );
    let bytes: [u8; 20] = [
        1, 2, 3, 4, 5, 6, 7, 8, 9, 10, 11, 12, 13, 14, 15, 16, 17, 18, 19, 20,
    ];
    let id = Id::new(bytes);
    assert_eq!(
        id.get_bech32_address_string("teritori"),
        "teritori1qypqxpq9qcrsszg2pvxq6rs0zqg3yyc5fqn66n"
    );
}
