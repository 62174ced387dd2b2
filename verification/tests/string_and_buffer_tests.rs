use json_encoder::{Buffer, JsonEncoder};

#[test]
fn test_encode_str_escapes_every_table_entry() {
    let mut js = JsonEncoder::new();
    js.encode_str("q\"w\\e\u{8}r\u{c}t\nz\ru\ti");
    assert_eq!(b"\"q\\\"w\\\\e\\br\\ft\\nz\\ru\\ti\"", &js.into_vec()[..]);
}

#[test]
fn test_encode_str_passes_other_bytes_through() {
    // A control byte outside the table and multi-byte UTF-8 pass unchanged.
    let mut js = JsonEncoder::new();
    js.encode_str("a\u{1}b\u{e4}\u{20ac}");
    let mut expected: Vec<u8> = Vec::new();
    expected.push(b'"');
    expected.extend_from_slice("a\u{1}b\u{e4}\u{20ac}".as_bytes());
    expected.push(b'"');
    assert_eq!(expected, js.into_vec());
}

#[test]
fn test_encode_str_empty() {
    let mut js = JsonEncoder::new();
    js.encode_str("");
    assert_eq!(b"\"\"", &js.into_vec()[..]);
}

#[test]
fn test_encode_str_variants_match() {
    let samples = ["", "plain", "a\"b\\c", "\n\r\t\u{8}\u{c}", "mixed \"quotes\" and\nlines"];
    for s in samples.iter() {
        let mut a = JsonEncoder::new();
        a.encode_str(s);
        let expected = a.into_vec();

        let mut b = JsonEncoder::new();
        b.encode_str2(s);
        assert_eq!(expected, b.into_vec());

        let mut c = JsonEncoder::new();
        c.encode_str_(s);
        assert_eq!(expected, c.into_vec());

        let mut d = JsonEncoder::new();
        d.encode_str3(s);
        assert_eq!(expected, d.into_vec());
    }
}

#[test]
fn test_encode_str_noescape() {
    let mut js = JsonEncoder::new();
    js.encode_str_noescape("plain text");
    assert_eq!(b"\"plain text\"", &js.into_vec()[..]);
}

#[test]
fn test_encode_decimal_str() {
    let mut js = JsonEncoder::new();
    js.encode_decimal_str(0);
    assert_eq!(b"\"0\"", &js.into_vec()[..]);

    let mut js = JsonEncoder::new();
    js.encode_decimal_str(18446744073709551615);
    assert_eq!(b"\"18446744073709551615\"", &js.into_vec()[..]);
}

#[test]
fn test_encode_raw_and_around() {
    let mut js = JsonEncoder::new();
    js.encode_raw(b"null");
    js.encode_raw_around(b'"', b"id");
    assert_eq!(b"null\"id\"", &js.into_vec()[..]);
}

#[test]
fn test_obj_single_str_field() {
    let json = JsonEncoder::obj_single_str_field("total", "abcdef");
    assert_eq!(b"{\"total\":\"abcdef\"}", &json[..]);

    let json = JsonEncoder::obj_single_str_field("total", "");
    assert_eq!(b"{\"total\":\"\"}", &json[..]);
}

#[test]
fn test_buffer_push_and_push_all() {
    let mut buf = Buffer::new();
    buf.push(b'a');
    buf.push_all(b"bc");
    buf.push_all(b"");
    assert_eq!(b"abc", &buf.into_vec()[..]);
}

#[test]
fn test_buffer_push_all_around() {
    let mut buf = Buffer::new();
    buf.push_all_around(b'"', b"xy");
    assert_eq!(b"\"xy\"", &buf.into_vec()[..]);
}

#[test]
fn test_buffer_push_all_around2() {
    let mut buf = Buffer::new();
    buf.push_all_around2(b",\"", b"name", b"\":");
    assert_eq!(b",\"name\":", &buf.into_vec()[..]);
}

#[test]
fn test_buffer_position_and_truncate() {
    let mut buf = Buffer::with_capacity(16);
    buf.push_all(b"abc");
    let pos = buf.get_current_position();
    assert_eq!(pos, 3);
    buf.push_all(b"def");
    buf.set_current_position(pos);
    buf.push(b'z');
    assert_eq!(b"abcz", &buf.into_vec()[..]);
}

#[test]
fn test_buffer_clear_and_as_mut_ref() {
    let mut buf = Buffer::new();
    buf.push_all(b"abc");
    buf.clear();
    assert_eq!(buf.get_current_position(), 0);
    buf.as_mut_ref().push(b'q');
    assert_eq!(b"q", &buf.into_vec()[..]);
}

#[test]
fn test_encoder_clear_retains_nothing() {
    let mut js = JsonEncoder::with_capacity(64);
    js.encode_str("discarded");
    js.clear();
    js.encode_u32(5);
    assert_eq!(b"5", &js.into_vec()[..]);
}
