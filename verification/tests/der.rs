use jpki::der::{entire_size_from_partial, read_tlvs, Reader};

#[test]
fn entire_size_of_short_form_header() {
    let header = [0x30u8, 0x05, 0xAA, 0xBB, 0xCC, 0xDD, 0xEE];
    assert_eq!(entire_size_from_partial(&header), 7);
}

#[test]
fn entire_size_of_long_form_header() {
    let header = [0x30u8, 0x82, 0x01, 0x00, 0xAA, 0xBB, 0xCC];
    assert_eq!(entire_size_from_partial(&header), 260);
}

#[test]
fn read_length_consumes_multi_byte_tag() {
    let buffer = [0x5Fu8, 0x20, 0x03, 0x01, 0x02, 0x03];
    let mut reader = Reader::new(&buffer);
    assert_eq!(reader.read_length(), 3);
    assert_eq!(reader.cursor, 3);
}

#[test]
fn read_auto_returns_the_content_octets() {
    let buffer = [0x04u8, 0x02, 0xDE, 0xAD, 0xFF];
    let mut reader = Reader::new(&buffer);
    assert_eq!(reader.read_auto(), &[0xDE, 0xAD]);
    assert_eq!(reader.cursor, 4);
}

#[test]
fn peek_does_not_seek() {
    let buffer = [0x01u8, 0x02, 0x03];
    let mut reader = Reader::new(&buffer);
    assert_eq!(reader.peek(2), &[0x01, 0x02]);
    assert_eq!(reader.cursor, 0);
    assert_eq!(reader.next(), 0x01);
    assert_eq!(reader.cursor, 1);
    reader.seek(1);
    assert_eq!(reader.read(1), &[0x03]);
}

#[test]
fn read_string_decodes_utf8() {
    let buffer = [0x0Cu8, 0x03, 0x41, 0x42, 0x43];
    let mut reader = Reader::new(&buffer);
    assert_eq!(reader.read_string(), "ABC");
}

#[test]
fn read_string_replaces_invalid_utf8() {
    let buffer = [0x0Cu8, 0x01, 0xFF];
    let mut reader = Reader::new(&buffer);
    assert_eq!(reader.read_string(), "\u{FFFD}");
}

#[test]
fn in_sequence_scopes_a_reader_to_the_content() {
    // SEQUENCE { INTEGER 5, OCTET STRING [0xAA] }
    let buffer = [0x30u8, 0x06, 0x02, 0x01, 0x05, 0x04, 0x01, 0xAA];
    let mut outer = Reader::new(&buffer);
    assert!(outer.has_tlv());
    let mut inner = outer.in_sequence();
    assert_eq!(inner.read_auto(), &[0x05]);
    assert_eq!(inner.read_auto(), &[0xAA]);
    assert_eq!(outer.cursor, 8);
}

#[test]
fn has_tlv_rejects_truncated_content() {
    let buffer = [0x30u8, 0x05, 0x01, 0x02];
    let reader = Reader::new(&buffer);
    assert!(!reader.has_tlv());
    assert!(reader.has_header());
}

#[test]
fn has_header_rejects_unsupported_length_form() {
    let buffer = [0x30u8, 0x85, 0x01, 0x01, 0x01, 0x01, 0x01];
    let reader = Reader::new(&buffer);
    assert!(!reader.has_header());
}

#[test]
fn read_tlvs_returns_each_value_in_order() {
    let buffer = [0x02u8, 0x01, 0x11, 0x04, 0x02, 0x22, 0x33, 0x0C, 0x00];
    let values = read_tlvs(&buffer, 3).unwrap();
    assert_eq!(values[0], vec![0x11]);
    assert_eq!(values[1], vec![0x22, 0x33]);
    assert_eq!(values[2], Vec::<u8>::new());
}

#[test]
fn read_tlvs_reports_missing_objects() {
    let buffer = [0x02u8, 0x01, 0x11];
    assert!(read_tlvs(&buffer, 2).is_none());
    assert!(read_tlvs(&buffer, 1).is_some());
}
