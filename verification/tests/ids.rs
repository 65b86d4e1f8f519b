use iris_server::ids::{DocId, ID_LIMIT};

#[test]
fn parses_lower_case_hex() {
    let id = DocId::parse_str("000000000000000000000001").unwrap();
    assert_eq!(id.value(), 1);
}

#[test]
fn parses_the_number_the_digits_spell() {
    let id = DocId::parse_str("0123456789abcdef01234567").unwrap();
    assert_eq!(id.value(), 0x0123456789abcdef01234567u128);
}

#[test]
fn parses_upper_case_hex() {
    let lower = DocId::parse_str("65a1b2c3d4e5f60718293a4b").unwrap();
    let upper = DocId::parse_str("65A1B2C3D4E5F60718293A4B").unwrap();
    assert_eq!(lower, upper);
}

#[test]
fn refuses_short_text() {
    assert_eq!(DocId::parse_str("65a1b2c3d4e5f60718293a4"), None);
    assert_eq!(DocId::parse_str(""), None);
}

#[test]
fn refuses_long_text() {
    assert_eq!(DocId::parse_str("65a1b2c3d4e5f60718293a4b0"), None);
    assert_eq!(DocId::parse_str("65a1b2c3d4e5f60718293a4b00"), None);
}

#[test]
fn refuses_other_characters() {
    assert_eq!(DocId::parse_str("65a1b2c3d4e5f60718293a4g"), None);
    assert_eq!(DocId::parse_str("65a1b2c3d4e5 60718293a4b"), None);
    assert_eq!(DocId::parse_str("äää1b2c3d4e5f60718293a4b"), None);
}

#[test]
fn writes_twenty_four_lower_case_digits() {
    let id = DocId::new(0xABCDEF).unwrap();
    assert_eq!(id.to_hex(), "000000000000000000abcdef");
}

#[test]
fn text_form_reads_back() {
    for value in [0u128, 1, 255, 0xdeadbeef, ID_LIMIT - 1] {
        let id = DocId::new(value).unwrap();
        assert_eq!(DocId::parse_str(&id.to_hex()), Some(id));
    }
}

#[test]
fn largest_identifier_is_all_f() {
    let id = DocId::new(ID_LIMIT - 1).unwrap();
    assert_eq!(id.to_hex(), "ffffffffffffffffffffffff");
}

#[test]
fn numbers_out_of_range_are_no_identifiers() {
    assert_eq!(DocId::new(ID_LIMIT), None);
    assert_eq!(DocId::new(u128::MAX), None);
}
