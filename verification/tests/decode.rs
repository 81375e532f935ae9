use p4tc::{
    decode_key_field, decode_key_lowered, decode_param_lowered, decode_param_value, Action, DecodedValue, KeyField, Param, TableEntry};

fn param(name: &str, ty: &str, value: &[u8]) -> Param {
    Param { name: name.to_string(), value: value.to_vec(), size: value.len(), p4_type: ty.to_string() }
}

#[test]
fn key_field_ipv4_is_dotted_decimal() {
    let d = decode_key_field(&[10, 0, 0, 1], "ipv4", 32);
    assert!(matches!(&d, DecodedValue::Ipv4(s) if s == "10.0.0.1"));
    assert_eq!(d.to_display_string(), "10.0.0.1");
}

#[test]
fn key_field_type_is_compared_lower_cased() {
    let d = decode_key_field(&[192, 168, 255, 7], "IPv4", 32);
    assert!(matches!(&d, DecodedValue::Ipv4(s) if s == "192.168.255.7"));
    let m = decode_key_field(&[0, 0xaa, 0xbb, 0xcc, 0xdd, 0xee], "MacAddr", 48);
    assert!(matches!(&m, DecodedValue::Mac(s) if s == "00:aa:bb:cc:dd:ee"));
}

fn ipv6(groups: [u16; 8]) -> [u8; 16] {
    let mut raw = [0u8; 16];
    for (i, g) in groups.iter().enumerate() {
        raw[2 * i] = (g >> 8) as u8;
        raw[2 * i + 1] = (g & 0xff) as u8;
    }
    raw
}

#[test]
fn key_field_ipv6_compresses_longest_zero_run() {
    let d = decode_key_field(&ipv6([0xfe80, 0, 0, 0, 0, 0, 0, 1]), "ipv6", 128);
    assert!(matches!(&d, DecodedValue::Ipv6(s) if s == "fe80::1"));
}

#[test]
fn ipv6_loopback_displays_as_double_colon_one() {
    let p = param("a", "ipv6", &[0, 0, 0, 0, 0, 0, 0, 0, 0, 0, 0, 0, 0, 0, 0, 1]);
    assert_eq!(p.display_value(), "::1");
    let d = decode_key_field(&ipv6([0, 0, 0, 0, 0, 0, 0, 1]), "IPv6", 128);
    assert_eq!(d.to_display_string(), "::1");
}

#[test]
fn ipv6_text_forms() {
    let text = |g: [u16; 8]| decode_key_lowered(&ipv6(g), "ipv6", 128).to_display_string();
    assert_eq!(text([0; 8]), "::");
    assert_eq!(text([1, 0, 0, 0, 0, 0, 0, 0]), "1::");
    assert_eq!(text([0x2001, 0xdb8, 1, 2, 3, 4, 5, 6]), "2001:db8:1:2:3:4:5:6");
    // A single zero group is not compressed.
    assert_eq!(text([0x2001, 0xdb8, 0, 1, 1, 1, 1, 1]), "2001:db8:0:1:1:1:1:1");
    // Of two equally long runs, the first is compressed.
    assert_eq!(text([0x2001, 0xdb8, 0, 0, 1, 0, 0, 1]), "2001:db8::1:0:0:1");
    // The longer run wins.
    assert_eq!(text([0x2001, 0, 0, 1, 0, 0, 0, 1]), "2001:0:0:1::1");
    assert_eq!(text([0xABCD, 0xffff, 0, 0, 0, 0, 0x00a0, 0x0b0c]), "abcd:ffff::a0:b0c");
}

#[test]
fn lowered_decoders_take_the_type_as_given() {
    // The lowered forms compare the type name as it is.
    assert!(matches!(decode_key_lowered(&[10, 0, 0, 1], "IPv4", 32), DecodedValue::Int(0x0a000001)));
    assert!(matches!(decode_key_lowered(&[10, 0, 0, 1], "ipv4", 32), DecodedValue::Ipv4(_)));
    assert!(matches!(decode_param_lowered(&[1, 2, 3, 4], "ipv4"), DecodedValue::Ipv4(s) if s == "1.2.3.4"));
    assert!(matches!(decode_param_lowered(&[1, 2, 3, 4], "Ipv4"), DecodedValue::Raw(v) if v == vec![1, 2, 3, 4]));
    assert!(matches!(decode_param_value(&[1, 2, 3, 4], "Ipv4"), DecodedValue::Ipv4(_)));
}

#[test]
fn key_field_short_address_falls_back_to_integer() {
    let d = decode_key_field(&[10, 0, 1], "ipv4", 24);
    assert!(matches!(d, DecodedValue::Int(0x0a0001)));
}

#[test]
fn key_field_dev_is_little_endian() {
    let d = decode_key_field(&[2, 1, 0, 0], "dev", 32);
    assert!(matches!(d, DecodedValue::Int(258)));
}

#[test]
fn key_field_dev_shorter_than_four_bytes_is_big_endian_integer() {
    let d = decode_key_field(&[2, 1], "dev", 16);
    assert!(matches!(d, DecodedValue::Int(0x0201)));
}

#[test]
fn key_field_integer_takes_whole_bytes_of_its_width() {
    // 12 bits take two bytes; the third is not read.
    let d = decode_key_field(&[0x01, 0x02, 0x03], "bit", 12);
    assert!(matches!(d, DecodedValue::Int(0x0102)));
    // a zero width still takes one byte
    let z = decode_key_field(&[0x7f, 0x01], "bit", 0);
    assert!(matches!(z, DecodedValue::Int(0x7f)));
    // a width past the bytes reads all of them
    let w = decode_key_field(&[0x01, 0x02], "bit", 64);
    assert!(matches!(w, DecodedValue::Int(0x0102)));
    assert_eq!(w.to_display_string(), "258");
}

#[test]
fn key_field_integer_keeps_low_64_bits() {
    let raw = [0xffu8, 1, 2, 3, 4, 5, 6, 7, 8];
    let d = decode_key_field(&raw, "bit", 72);
    assert!(matches!(d, DecodedValue::Int(0x0102030405060708)));
}

#[test]
fn key_field_of_empty_bytes_is_zero() {
    let d = decode_key_field(&[], "bit", 8);
    assert!(matches!(d, DecodedValue::Int(0)));
}

#[test]
fn param_decoding_by_type() {
    let dev = param("port", "DEV", &[3, 0]);
    assert!(matches!(dev.decoded(), DecodedValue::Int(3)));
    assert_eq!(dev.display_value(), "3");
    let ip = param("ip", "ipv4", &[127, 0, 0, 1]);
    assert_eq!(ip.display_value(), "127.0.0.1");
    let mac = param("dmac", "macaddr", &[0, 0x11, 0x22, 0x33, 0x44, 0x55]);
    assert_eq!(mac.display_value(), "00:11:22:33:44:55");
    let raw = param("x", "bit32", &[0xde, 0xad, 0x0b]);
    assert!(matches!(&raw.decoded(), DecodedValue::Raw(v) if v == &vec![0xde, 0xad, 0x0b]));
    assert_eq!(raw.display_value(), "dead0b");
    let short = param("ip", "ipv4", &[1, 2]);
    assert_eq!(short.display_value(), "0102");
}

#[test]
fn param_display_is_name_equals_value() {
    let p = param("port", "dev", &[2, 0, 0, 0]);
    assert_eq!(p.to_display_string(), "port=2");
}

#[test]
fn decoded_value_display() {
    assert_eq!(DecodedValue::Int(0).to_display_string(), "0");
    assert_eq!(DecodedValue::Int(u64::MAX).to_display_string(), "18446744073709551615");
    assert_eq!(DecodedValue::Raw(vec![]).to_display_string(), "");
    assert_eq!(DecodedValue::Raw(vec![0, 0xff, 0x10]).to_display_string(), "00ff10");
    assert_eq!(DecodedValue::Ipv6("::1".to_string()).to_display_string(), "::1");
}

#[test]
fn action_display_lists_params() {
    let a = Action {
        name: "ingress/send_nh".to_string(),
        index: 1,
        params: vec![
            param("port", "dev", &[2, 0, 0, 0]),
            param("dmac", "macaddr", &[0, 0xaa, 0xbb, 0xcc, 0xdd, 0xee]),
        ],
    };
    assert_eq!(a.to_display_string(), "ingress/send_nh(port=2, dmac=00:aa:bb:cc:dd:ee)");
    let bare = Action { name: "ingress/drop".to_string(), index: 2, params: vec![] };
    assert_eq!(bare.to_display_string(), "ingress/drop");
}

#[test]
fn table_entry_display() {
    let e = TableEntry {
        table_name: "ingress/nh_table".to_string(),
        priority: 7,
        key: vec![10, 0, 0, 1],
        key_size: 32,
        key_fields: vec![
            KeyField { name: "dstAddr".to_string(), value: DecodedValue::Ipv4("10.0.0.1".to_string()) },
            KeyField { name: "port".to_string(), value: DecodedValue::Int(3) },
        ],
        mask: None,
        permissions: 0,
        dynamic: false,
        aging_ms: 0,
        actions: vec![],
    };
    assert_eq!(e.to_display_string(), "TableEntry(table=ingress/nh_table, key={dstAddr: 10.0.0.1, port: 3}, prio=7)");
}
