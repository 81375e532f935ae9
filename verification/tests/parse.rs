use p4tc::{
    decodable, decode_key_fields, parse_entry, parse_ext_obj, parse_obj, parse_param, DecodedValue,
    KeyFieldSchema, PipelineSchema, RawAction, RawExternEntry, RawParam, RawTableEntry, TableSchema,
};

fn kf(name: &str, ty: &str, bitwidth: u32) -> KeyFieldSchema {
    KeyFieldSchema { id: 0, name: name.to_string(), ty: ty.to_string(), match_type: "exact".to_string(), bitwidth }
}

fn schema(fields: Vec<KeyFieldSchema>) -> PipelineSchema {
    PipelineSchema {
        name: "register".to_string(),
        tables: vec![TableSchema { name: "ingress/nh_table".to_string(), id: 1, keysize: 64, key_fields: fields, actions: vec![] }],
        externs: vec![],
    }
}

fn raw_param(name: &str, value: &[u8], len: u32) -> RawParam {
    RawParam { name: name.to_string(), p4_type: "dev".to_string(), value: value.to_vec(), len }
}

fn raw_entry(name: &str, key: &[u8]) -> RawTableEntry {
    RawTableEntry {
        name: name.to_string(),
        priority: 5,
        key: key.to_vec(),
        key_size: 32,
        mask: vec![],
        permissions: 0x3ff,
        dynamic: 1,
        aging_ms: 30000,
        actions: vec![RawAction {
            name: "ingress/send_nh".to_string(),
            index: 1,
            params: vec![raw_param("port", &[2, 0, 0, 0], 4)],
        }],
    }
}

#[test]
fn param_size_is_reported_length() {
    let p = parse_param(raw_param("port", &[], 4));
    assert_eq!(p.size, 4);
    assert!(p.value.is_empty());
    assert_eq!(p.p4_type, "dev");
}

#[test]
fn entry_takes_the_request_table_when_unnamed() {
    let e = parse_entry(raw_entry("", &[]), "register", "ingress/nh_table", None);
    assert_eq!(e.table_name, "ingress/nh_table");
    let named = parse_entry(raw_entry("ingress/other", &[]), "register", "ingress/nh_table", None);
    assert_eq!(named.table_name, "ingress/other");
}

#[test]
fn entry_attributes_are_kept() {
    let e = parse_entry(raw_entry("", &[10, 0, 0, 1]), "register", "ingress/nh_table", None);
    assert_eq!(e.priority, 5);
    assert_eq!(e.key, vec![10, 0, 0, 1]);
    assert_eq!(e.key_size, 32);
    assert!(e.mask.is_none());
    assert_eq!(e.permissions, 0x3ff);
    assert!(e.dynamic);
    assert_eq!(e.aging_ms, 30000);
    assert_eq!(e.actions.len(), 1);
    assert_eq!(e.actions[0].name, "ingress/send_nh");
    assert_eq!(e.actions[0].params[0].display_value(), "2");
    let mut masked = raw_entry("", &[]);
    masked.mask = vec![0xff, 0xff, 0, 0];
    masked.dynamic = 0;
    let m = parse_entry(masked, "register", "t", None);
    assert_eq!(m.mask, Some(vec![0xff, 0xff, 0, 0]));
    assert!(!m.dynamic);
}

#[test]
fn entry_key_is_decoded_along_the_schema() {
    let s = schema(vec![kf("dstAddr", "ipv4", 32), kf("port", "bit", 16)]);
    let e = parse_entry(raw_entry("", &[10, 0, 0, 1, 0, 80]), "register", "ingress/nh_table", Some(&s));
    assert_eq!(e.key_fields.len(), 2);
    assert_eq!(e.key_fields[0].name, "dstAddr");
    assert!(matches!(&e.key_fields[0].value, DecodedValue::Ipv4(s) if s == "10.0.0.1"));
    assert_eq!(e.key_fields[1].name, "port");
    assert!(matches!(e.key_fields[1].value, DecodedValue::Int(80)));
}

#[test]
fn entry_key_without_schema_is_raw() {
    let e = parse_entry(raw_entry("", &[1, 2]), "register", "ingress/nh_table", None);
    assert_eq!(e.key_fields.len(), 1);
    assert_eq!(e.key_fields[0].name, "raw");
    assert!(matches!(&e.key_fields[0].value, DecodedValue::Raw(v) if v == &vec![1, 2]));
    let other = schema(vec![kf("dstAddr", "ipv4", 32)]);
    let unknown_table = parse_entry(raw_entry("", &[1, 2]), "register", "egress/t", Some(&other));
    assert_eq!(unknown_table.key_fields[0].name, "raw");
    let no_pipeline = parse_entry(raw_entry("", &[10, 0, 0, 1]), "", "ingress/nh_table", Some(&other));
    assert_eq!(no_pipeline.key_fields[0].name, "raw");
    let empty = parse_entry(raw_entry("", &[]), "register", "ingress/nh_table", Some(&other));
    assert!(empty.key_fields.is_empty());
}

#[test]
fn key_field_past_the_end_is_left_out() {
    let fields = vec![kf("a", "bit", 8), kf("b", "bit", 32), kf("c", "bit", 8)];
    // a takes byte 0, b takes 1..5 (past the end), c takes byte 5 (past the end)
    let r = decode_key_fields(&[7, 1, 2], &fields);
    assert_eq!(r.len(), 1);
    assert_eq!(r[0].name, "a");
    assert!(matches!(r[0].value, DecodedValue::Int(7)));
    // all fields past the end: the entry falls back to raw bytes
    let s = schema(vec![kf("b", "bit", 64)]);
    let e = parse_entry(raw_entry("", &[1, 2]), "register", "ingress/nh_table", Some(&s));
    assert_eq!(e.key_fields[0].name, "raw");
}

#[test]
fn key_field_skipped_still_advances_the_offset() {
    let fields = vec![kf("a", "bit", 8), kf("b", "bit", 8)];
    let r = decode_key_fields(&[1, 2], &fields);
    assert!(matches!(r[1].value, DecodedValue::Int(2)));
}

#[test]
fn repeated_key_field_name_keeps_one_field() {
    let fields = vec![kf("a", "bit", 8), kf("b", "bit", 8), kf("a", "bit", 8)];
    let r = decode_key_fields(&[1, 2, 3], &fields);
    assert_eq!(r.len(), 2);
    assert_eq!(r[0].name, "a");
    assert!(matches!(r[0].value, DecodedValue::Int(3)));
    assert_eq!(r[1].name, "b");
}

#[test]
fn obj_parses_every_entry_in_order() {
    let es = parse_obj(vec![raw_entry("t1", &[]), raw_entry("", &[])], "register", "t0", None);
    assert_eq!(es.len(), 2);
    assert_eq!(es[0].table_name, "t1");
    assert_eq!(es[1].table_name, "t0");
}

#[test]
fn extern_entries_keep_their_attributes() {
    let raw = RawExternEntry {
        kind: "Register".to_string(),
        instance: "ingress.reg1".to_string(),
        key: 1,
        ext_id: 4,
        inst_id: 2,
        params: vec![raw_param("value", &[42, 0, 0, 0], 4)],
    };
    let es = parse_ext_obj(vec![raw]);
    assert_eq!(es.len(), 1);
    assert_eq!(es[0].kind, "Register");
    assert_eq!(es[0].instance, "ingress.reg1");
    assert_eq!((es[0].key, es[0].ext_id, es[0].inst_id), (1, 4, 2));
    assert_eq!(es[0].params[0].display_value(), "42");
}

#[test]
fn batch_decodable_only_where_a_too_wide_field_is_used() {
    let wide = schema(vec![kf("dst", "bit32", u32::MAX)]);
    let fine = schema(vec![kf("dst", "bit32", u32::MAX - 7)]);
    let batch = vec![raw_entry("", &[10, 0, 0, 1])];
    assert!(!decodable(&batch, "register", "ingress/nh_table", Some(&wide)));
    assert!(decodable(&batch, "register", "ingress/nh_table", Some(&fine)));
    assert!(decodable(&batch, "register", "ingress/nh_table", None));
    // no decoding table is used: empty key, empty pipeline, another table
    assert!(decodable(&vec![raw_entry("", &[])], "register", "ingress/nh_table", Some(&wide)));
    assert!(decodable(&batch, "", "ingress/nh_table", Some(&wide)));
    assert!(decodable(&batch, "register", "ingress/other", Some(&wide)));
    assert!(!decodable(&vec![raw_entry("ingress/nh_table", &[1])], "register", "ingress/other", Some(&wide)));
    assert!(decodable(&vec![], "register", "ingress/nh_table", Some(&wide)));
}
