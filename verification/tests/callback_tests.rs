use std::str;

use json_encoder::JsonEncoder;

#[test]
fn test_json_obj_encoder() {
    let mut js = JsonEncoder::new();
    js.encode_obj(|_| {});
    assert_eq!(b"{}", &js.into_vec()[..]);

    let mut js = JsonEncoder::new();
    js.encode_obj(|jso| {
        jso.encode_field("total", |js| js.encode_i32(31));
    });
    assert_eq!(b"{\"total\":31}", &js.into_vec()[..]);

    let mut js = JsonEncoder::new();
    js.encode_obj(|jso| {
        jso.encode_field("total", |js| js.encode_i32(31));
        jso.encode_field("next", |js| js.encode_str("abc"));
    });
    let v = js.into_vec();
    println!("{}", str::from_utf8(&v[..]).unwrap());
    assert_eq!(b"{\"total\":31,\"next\":\"abc\"}", &v[..]);

    let mut js = JsonEncoder::new();
    js.encode_obj(|jso| {
        jso.encode_field("total", |js| js.encode_i32(31));
        jso.encode_field("next", |js| js.encode_str("abc"));
        jso.encode_field("tags", |js| {
            js.encode_array(|jsa| {
                jsa.encode_elm(|js| js.encode_i32(1));
                jsa.encode_elm(|js| js.encode_i32(2));
            });
        });
    });
    assert_eq!(
        "{\"total\":31,\"next\":\"abc\",\"tags\":[1,2]}",
        str::from_utf8(&js.into_vec()[..]).unwrap()
    );

    let json = JsonEncoder::obj_single_str_field("total", "abcdef");
    assert_eq!(b"{\"total\":\"abcdef\"}", &json[..]);

    let json = JsonEncoder::obj_single_str_field("total", "");
    assert_eq!(b"{\"total\":\"\"}", &json[..]);
}

#[test]
fn test_encode_field_helpers() {
    let mut js = JsonEncoder::new();
    js.encode_obj(|jso| {
        jso.encode_field_i32("a", -7);
        jso.encode_field_str("b", "x\"y");
        jso.encode_field_array("c", |jsa| {
            jsa.encode_elm_i32(1);
            jsa.encode_elm_str("s");
        });
        jso.encode_field_obj("d", |inner| {
            inner.encode_field_i32("n", 0);
        });
    });
    assert_eq!(
        b"{\"a\":-7,\"b\":\"x\\\"y\",\"c\":[1,\"s\"],\"d\":{\"n\":0}}",
        &js.into_vec()[..]
    );
}

#[test]
fn test_encode_elm_obj_and_nobrackets() {
    let mut js = JsonEncoder::new();
    js.encode_array(|jsa| {
        jsa.encode_elm_obj(|jso| {
            jso.encode_field_i32("k", 1);
        });
        jsa.encode_elm_i32(2);
    });
    assert_eq!(b"[{\"k\":1},2]", &js.into_vec()[..]);

    let mut js = JsonEncoder::new();
    js.encode_array_nobrackets(|jsa| {
        jsa.encode_elm_i32(1);
        jsa.encode_elm_i32(2);
    });
    assert_eq!(b"1,2", &js.into_vec()[..]);
}

#[test]
fn test_with_buffer_and_to_json_obj() {
    let mut js = JsonEncoder::new();
    js.with_buffer(|buf| {
        buf.push(b'x');
    });
    assert_eq!(b"x", &js.into_vec()[..]);

    let mut js = JsonEncoder::new();
    js.encode_obj(|jso| {
        jso.encode_field_i32("a", 1);
        let mut obj = jso.to_json_obj();
        obj.field("b").value(2_i32);
    });
    assert_eq!(b"{\"a\":1,\"b\":2}", &js.into_vec()[..]);

    let mut js = JsonEncoder::new();
    js.encode_obj(|jso| {
        jso.get_json_encoder().encode_raw(b"\"r\":9");
    });
    assert_eq!(b"{\"r\":9}", &js.into_vec()[..]);
}
