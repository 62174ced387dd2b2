use json_encoder::JsonEncoder;

#[test]
fn test_json_empty_obj() {
    let mut js = JsonEncoder::new();
    {
        let obj = js.obj();
        obj.end();
    }

    assert_eq!(b"{}", &js.into_vec()[..]);
}

#[test]
fn test_json_single_field() {
    let mut js = JsonEncoder::new();
    {
        let mut obj = js.obj();
        obj.field("name").value("hallo");
        obj.end();
    }

    assert_eq!(b"{\"name\":\"hallo\"}", &js.into_vec()[..]);
}

#[test]
fn test_json_two_fields() {
    let mut js = JsonEncoder::new();
    {
        let mut obj = js.obj();
        obj.field("name").value("hallo");
        obj.field("i").value(123_i32);
        obj.end();
    }

    assert_eq!(b"{\"name\":\"hallo\",\"i\":123}", &js.into_vec()[..]);
}

#[test]
fn test_json_recursive_fields() {
    let mut js = JsonEncoder::new();
    {
        let mut obj = js.obj();
        obj.field("name").value("hallo");
        {
            let mut obj2 = obj.field("o").obj();
            obj2.field("name").value("hallo");
            obj2.end();
        }
        obj.end();
    }

    assert_eq!(&b"{\"name\":\"hallo\",\"o\":{\"name\":\"hallo\"}}"[..], &js.into_vec()[..]);
}

#[test]
fn test_json_recursive_fields_with_vec() {
    let mut js = JsonEncoder::new();
    {
        let mut obj = js.obj();
        obj.field("name").value("hallo");
        {
            let mut obj2 = obj.field("o").obj();
            obj2.field("name").value("hallo");
            {
                let mut v = obj2.field("a").vec();
                v.element_with_value(1i32);
                v.element_with_value("test");
                {
                    let obj3 = v.element().obj();
                    obj3.end();
                }
                v.end();
            }
            obj2.end();
        }
        obj.end();
    }

    assert_eq!(
        &b"{\"name\":\"hallo\",\"o\":{\"name\":\"hallo\",\"a\":[1,\"test\",{}]}}"[..],
        &js.into_vec()[..]
    );
}

#[test]
fn test_encode_u32() {
    let mut js = JsonEncoder::new();
    js.encode_u32(0);
    let vec = js.into_vec();
    assert_eq!(b"0", &vec[..]);

    let mut js = JsonEncoder::new();
    js.encode_u32(123000);
    let vec = js.into_vec();
    assert_eq!(b"123000", &vec[..]);

    let mut js = JsonEncoder::new();
    js.encode_u32(1230001);
    let vec = js.into_vec();
    assert_eq!(b"1230001", &vec[..]);
}

#[test]
fn test_encode_u32_bounds() {
    let mut js = JsonEncoder::new();
    js.encode_u32(4294967295);
    assert_eq!(b"4294967295", &js.into_vec()[..]);
}

#[test]
fn test_encode_i32_min() {
    let mut js = JsonEncoder::new();
    js.encode_i32(i32::MIN);
    assert_eq!(b"-2147483648", &js.into_vec()[..]);
}

#[test]
fn test_encode_i32_values() {
    let mut js = JsonEncoder::new();
    js.encode_i32(-123);
    js.encode_i32(0);
    js.encode_i32(2147483647);
    assert_eq!(b"-12302147483647", &js.into_vec()[..]);
}

#[test]
fn test_encode_hex_zero() {
    let mut js = JsonEncoder::new();
    js.encode_hex_u32_fast(0);
    assert_eq!(b"00000000", &js.into_vec()[..]);

    let mut js = JsonEncoder::new();
    js.encode_hex_u32(0);
    assert_eq!(b"0", &js.into_vec()[..]);
}

#[test]
fn test_encode_hex_values() {
    let mut js = JsonEncoder::new();
    js.encode_hex_u32(123456789);
    assert_eq!(b"75BCD15", &js.into_vec()[..]);

    let mut js = JsonEncoder::new();
    js.encode_hex_u32_fast(123456789);
    assert_eq!(b"075BCD15", &js.into_vec()[..]);

    let mut js = JsonEncoder::new();
    js.encode_hex_u32(0xFFFFFFFF);
    assert_eq!(b"FFFFFFFF", &js.into_vec()[..]);
}

#[test]
fn test_object_two_int_fields() {
    let mut js = JsonEncoder::new();
    {
        let mut obj = js.obj();
        obj.field("a").value(1_i32);
        obj.field("b").value(2_i32);
        obj.end();
    }
    assert_eq!(b"{\"a\":1,\"b\":2}", &js.into_vec()[..]);
}

#[test]
fn test_array_snapshot_rollback() {
    let mut js = JsonEncoder::new();
    {
        let mut v = js.vec();
        v.element_with_value(1_i32);
        let snap = v.snapshot();
        v.element_with_value(2_i32);
        v.rollback(snap);
        v.element_with_value(3_i32);
        v.end();
    }
    assert_eq!(b"[1,3]", &js.into_vec()[..]);
}

#[test]
fn test_clear_then_replay() {
    let mut js = JsonEncoder::new();
    js.encode_u32(7);
    js.encode_str("a\"b");
    {
        let mut obj = js.obj();
        obj.field("x").value(1_i32);
        obj.end();
    }
    js.clear();
    js.encode_u32(7);
    js.encode_str("a\"b");
    {
        let mut obj = js.obj();
        obj.field("x").value(1_i32);
        obj.end();
    }
    let replayed = js.into_vec();

    let mut fresh = JsonEncoder::new();
    fresh.encode_u32(7);
    fresh.encode_str("a\"b");
    {
        let mut obj = fresh.obj();
        obj.field("x").value(1_i32);
        obj.end();
    }
    assert_eq!(replayed, fresh.into_vec());
}

#[test]
fn test_with_capacity_same_output() {
    let capacities = [0usize, 1, 7, 4096];
    let mut expected = JsonEncoder::new();
    expected.encode_str("a\tb");
    expected.encode_i32(-42);
    let expected = expected.into_vec();

    for &capa in capacities.iter() {
        let mut js = JsonEncoder::with_capacity(capa);
        js.encode_str("a\tb");
        js.encode_i32(-42);
        assert_eq!(expected, js.into_vec());
    }
}
