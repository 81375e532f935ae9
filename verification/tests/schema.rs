use p4tc::{
    ActionSchema, ExternInstanceSchema, ExternSchema, KeyFieldSchema, ParamSchema, PipelineSchema,
    TableSchema,
};

fn key_field(name: &str, ty: &str, bitwidth: u32) -> KeyFieldSchema {
    KeyFieldSchema {
        id: 1,
        name: name.to_string(),
        ty: ty.to_string(),
        match_type: p4tc::default_match_type(),
        bitwidth,
    }
}

fn action(id: u32, name: &str, params: &[&str]) -> ActionSchema {
    ActionSchema {
        id,
        name: name.to_string(),
        params: params
            .iter()
            .enumerate()
            .map(|(i, p)| ParamSchema { id: i as u32 + 1, name: p.to_string(), ty: "bit32".to_string(), bitwidth: 32 })
            .collect(),
    }
}

fn table() -> TableSchema {
    TableSchema {
        name: "ingress/nh_table".to_string(),
        id: 1,
        keysize: 64,
        key_fields: vec![key_field("srcAddr", "ipv4", 32), key_field("dstAddr", "ipv4", 32)],
        actions: vec![action(1, "ingress/send_nh", &["port", "dmac"]), action(2, "ingress/drop", &[])],
    }
}

#[test]
fn default_match_type_is_exact() {
    assert_eq!(p4tc::default_match_type(), "exact");
}

#[test]
fn validate_key_orders_by_schema() {
    let t = table();
    let r = t.validate_key(&[("dstAddr", "10.0.0.2"), ("srcAddr", "10.0.0.1")]);
    assert_eq!(r, Ok(vec!["10.0.0.1".to_string(), "10.0.0.2".to_string()]));
}

#[test]
fn validate_key_leaves_out_missing_fields() {
    let t = table();
    assert_eq!(t.validate_key(&[("dstAddr", "10.0.0.2")]), Ok(vec!["10.0.0.2".to_string()]));
    assert_eq!(t.validate_key(&[]), Ok(vec![]));
}

#[test]
fn validate_key_rejects_unknown_field() {
    let t = table();
    let r = t.validate_key(&[("dstAddr", "10.0.0.2"), ("vlan", "3")]);
    assert_eq!(r, Err("unknown key field(s) [\"vlan\"], available: [\"srcAddr\", \"dstAddr\"]".to_string()));
}

#[test]
fn validate_params_orders_and_rejects() {
    let a = action(1, "ingress/send_nh", &["port", "dmac"]);
    assert_eq!(
        a.validate_params(&[("dmac", "00:11:22:33:44:55"), ("port", "eth0")]),
        Ok(vec!["eth0".to_string(), "00:11:22:33:44:55".to_string()])
    );
    assert_eq!(
        a.validate_params(&[("speed", "10")]),
        Err("unknown param(s) [\"speed\"] for action 'ingress/send_nh', available: [\"port\", \"dmac\"]".to_string())
    );
}

#[test]
fn validate_uses_the_last_value_of_a_name() {
    let t = table();
    assert_eq!(
        t.validate_key(&[("srcAddr", "1.1.1.1"), ("srcAddr", "2.2.2.2")]),
        Ok(vec!["2.2.2.2".to_string()])
    );
}

#[test]
fn get_action_finds_by_name() {
    let t = table();
    assert_eq!(t.get_action("ingress/drop").map(|a| a.id), Some(2));
    assert!(t.get_action("ingress/none").is_none());
    let mut dup = table();
    dup.actions.push(action(9, "ingress/drop", &[]));
    assert_eq!(dup.get_action("ingress/drop").map(|a| a.id), Some(9));
}

fn pipeline() -> PipelineSchema {
    PipelineSchema {
        name: "register".to_string(),
        tables: vec![table()],
        externs: vec![ExternSchema {
            name: "Register".to_string(),
            id: "1".to_string(),
            instances: vec![ExternInstanceSchema {
                name: "ingress.reg1".to_string(),
                id: 1,
                param_names: vec!["index".to_string(), "value".to_string()],
            }],
        }],
    }
}

#[test]
fn pipeline_lookups() {
    let p = pipeline();
    assert_eq!(p.get_table("ingress/nh_table").map(|t| t.keysize), Some(64));
    assert!(p.get_table("egress/t").is_none());
    let e = p.get_extern("Register").unwrap();
    assert_eq!(e.get_instance("ingress.reg1").map(|i| i.param_names.len()), Some(2));
    assert!(e.get_instance("ingress.reg2").is_none());
    assert!(p.get_extern("Counter").is_none());
}

#[test]
fn data_param_names_keep_params_only() {
    let entries = vec![
        ("index".to_string(), "key".to_string()),
        ("value".to_string(), "param".to_string()),
        ("flag".to_string(), "".to_string()),
        ("count".to_string(), "param".to_string()),
    ];
    assert_eq!(p4tc::data_param_names(&entries), vec!["value".to_string(), "count".to_string()]);
}
