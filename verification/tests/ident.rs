use backend::ident::{id_text, parse_id};

#[test]
fn identifiers_are_written_as_32_hexadecimal_digits() {
    assert_eq!(id_text(0), "00000000000000000000000000000000");
    assert_eq!(id_text(1), "00000000000000000000000000000001");
    assert_eq!(id_text(u128::MAX), "ffffffffffffffffffffffffffffffff");
    assert_eq!(
        id_text(0x550e8400e29b41d4a716446655440000),
        "550e8400e29b41d4a716446655440000"
    );
    assert_eq!(
        id_text(0x0123456789ABCDEFFEDCBA9876543210),
        "0123456789abcdeffedcba9876543210"
    );
    assert_eq!(id_text(0xA << 124), "a0000000000000000000000000000000");
    assert_eq!(id_text(255).len(), 32);
}

#[test]
fn identifiers_are_read_from_their_text_form() {
    assert_eq!(parse_id("550e8400e29b41d4a716446655440000"), Some(0x550e8400e29b41d4a716446655440000));
    assert_eq!(parse_id("550E8400E29B41D4A716446655440000"), Some(0x550e8400e29b41d4a716446655440000));
    assert_eq!(parse_id("00000000000000000000000000000000"), Some(0));
    assert_eq!(parse_id(""), None);
    assert_eq!(parse_id("550e8400e29b41d4a71644665544000"), None);
    assert_eq!(parse_id("550e8400e29b41d4a71644665544000g"), None);
    assert_eq!(parse_id("0x550e8400e29b41d4a7164466554400"), None);
}

#[test]
fn an_identifier_written_out_reads_back() {
    for id in [0, 1, 42, u128::MAX, u128::MAX - 1, 1 << 127, 0x550e8400e29b41d4a716446655440000] {
        assert_eq!(parse_id(&id_text(id)), Some(id));
    }
}
