use p4tc::{
    Call, Command, Context, CrudOp, Entity, Error, ExternInstanceSchema, ExternSchema, Failure, Handling, ObjType,
    Outcome, Phase, Pipeline, PipelineSchema, Plan, Registration, Responses, Runner, Step,
};

fn ctx() -> Context {
    Context::from_created(Some(0x1000), 0).unwrap()
}

fn calls(p: &Plan) -> Vec<&Call> {
    p.steps
        .iter()
        .filter_map(|s| match s {
            Step::Perform(c, _) => Some(c),
            Step::Fail(_) => None,
        })
        .collect()
}

fn stop(p: &Plan) -> Option<&Error> {
    match p.steps.last() {
        Some(Step::Fail(e)) => Some(e),
        _ => None,
    }
}

/// Runs a plan, answering every call with `ok` except the `fail_at`-th,
/// which gets `bad`; returns the calls made and the result.
fn run(plan: Plan, fail_at: Option<(usize, Outcome)>) -> (usize, Result<(), Error>) {
    let (n, res, _) = run_full(plan, fail_at);
    (n, res)
}

/// As `run`, also giving whether the request object is released at the end.
fn run_full(plan: Plan, fail_at: Option<(usize, Outcome)>) -> (usize, Result<(), Error>, bool) {
    let mut r = Runner::new(plan);
    let mut n = 0usize;
    let mut o = Outcome::Done;
    loop {
        match r.next(o) {
            Command::Finish { result, release } => {
                // Once ended, the runner ends again without releasing anything.
                assert!(matches!(r.next(Outcome::Done), Command::Finish { result: Ok(()), release: false }));
                return (n, result, release);
            }
            Command::Perform(c) => {
                o = match (&c, fail_at) {
                    (_, Some((i, bad))) if i == n => bad,
                    (Call::Crud { .. }, _) | (Call::Subscribe { .. }, _) => {
                        Outcome::Status { code: 0, os_error: 0 }
                    }
                    _ => Outcome::Done,
                };
                n += 1;
            }
        }
    }
}

#[test]
fn context_creation() {
    assert_eq!(ctx().handle(), 0x1000);
    assert_eq!(Context::from_created(None, 12).err(), Some(Error::Context(12)));
}

#[test]
fn pipeline_provisioning() {
    assert!(Pipeline::check_provision("register", None).is_ok());
    assert!(Pipeline::check_provision("register", Some("/tmp/t")).is_ok());
    assert_eq!(
        Pipeline::check_provision("reg\0ister", Some("/tmp")),
        Err(Error::Object { msg: "pipeline name contains null byte".to_string() })
    );
    assert_eq!(
        Pipeline::check_provision("register", Some("/t\0")),
        Err(Error::Object { msg: "template dir contains null byte".to_string() })
    );
    let p = Pipeline::from_provisioned("register", Some(7), 0).unwrap();
    assert_eq!(p.name(), "register");
    assert_eq!(p.handle(), 7);
    assert_eq!(
        Pipeline::from_provisioned("register", None, 2).err(),
        Some(Error::Provision { pipeline: "register".to_string(), os_error: 2 })
    );
}

#[test]
fn insert_plan_builds_object_entry_action_then_creates() {
    let c = ctx();
    let p = c
        .insert("register", "ingress/nh_table")
        .key("10.0.0.1")
        .action("ingress/send_nh")
        .param("eth0")
        .param("00:aa:bb:cc:dd:ee")
        .priority(3)
        .execute();
    assert_eq!(p.ctx, 0x1000);
    assert!(stop(&p).is_none());
    let cs = calls(&p);
    assert_eq!(cs.len(), 7);
    assert!(matches!(cs[0], Call::ObjCreate { pipeline, obj_type: ObjType::Table } if pipeline == "register"));
    assert!(matches!(cs[1], Call::ObjNameSet { name } if name == "ingress/nh_table"));
    assert!(matches!(cs[2], Call::MakeKey { values } if values == &vec!["10.0.0.1".to_string()]));
    assert!(matches!(cs[3], Call::AllocEntry { entity: Entity::Tc }));
    assert!(matches!(cs[4], Call::PrioritySet { value: 3 }));
    assert!(matches!(cs[5], Call::CreateAction { path, params } if path == "ingress/send_nh" && params.len() == 2));
    assert!(matches!(cs[6], Call::Crud { op: CrudOp::Create, flags: 0, with_callback: false }));
    assert_eq!(run(p, None), (7, Ok(())));
}

#[test]
fn insert_without_priority_or_action() {
    let c = ctx();
    let p = c.insert("register", "t").key("1").entity(Entity::Kernel).execute();
    let cs = calls(&p);
    assert_eq!(cs.len(), 5);
    assert!(matches!(cs[3], Call::AllocEntry { entity: Entity::Kernel }));
    assert!(matches!(cs[4], Call::Crud { op: CrudOp::Create, .. }));
}

#[test]
fn null_byte_in_pipeline_stops_before_any_call() {
    let c = ctx();
    let p = c.insert("reg\0", "t").key("1").execute();
    assert_eq!(p.steps.len(), 1);
    assert_eq!(stop(&p), Some(&Error::Object { msg: "pipeline contains null byte".to_string() }));
    assert_eq!(
        run(p, None),
        (0, Err(Error::Object { msg: "pipeline contains null byte".to_string() }))
    );
}

#[test]
fn null_byte_in_key_stops_after_the_object() {
    let c = ctx();
    let p = c.insert("register", "t").key("a\0b").execute();
    assert_eq!(calls(&p).len(), 2);
    assert_eq!(stop(&p), Some(&Error::Object { msg: "key value contains null byte".to_string() }));
}

#[test]
fn null_byte_in_action_parts() {
    let c = ctx();
    let p = c.insert("register", "t").key("1").action("a\0").execute();
    assert_eq!(stop(&p), Some(&Error::Object { msg: "action path contains null byte".to_string() }));
    let q = c.insert("register", "t").key("1").action("a").param("\0").execute();
    assert_eq!(stop(&q), Some(&Error::Object { msg: "action param contains null byte".to_string() }));
    let t = c.insert("register", "t\0").execute();
    assert_eq!(stop(&t), Some(&Error::Object { msg: "table contains null byte".to_string() }));
}

#[test]
fn failing_calls_end_the_request() {
    let c = ctx();
    let plan = || c.insert("register", "t").key("1").action("a").execute();
    assert_eq!(
        run(plan(), Some((0, Outcome::Null))),
        (1, Err(Error::Object { msg: "obj_create failed for 'register'".to_string() }))
    );
    assert_eq!(
        run(plan(), Some((2, Outcome::Null))),
        (3, Err(Error::Key { msg: "make_key failed".to_string() }))
    );
    assert_eq!(
        run(plan(), Some((3, Outcome::Null))),
        (4, Err(Error::Entry { msg: "alloc_tbl_entry failed".to_string() }))
    );
    assert_eq!(
        run(plan(), Some((4, Outcome::Null))),
        (5, Err(Error::Entry { msg: "create_runt_act failed for 'a'".to_string() }))
    );
    assert_eq!(
        run(plan(), Some((5, Outcome::Status { code: -1, os_error: 17 }))),
        (6, Err(Error::Crud { op: "create".to_string(), os_error: 17 }))
    );
    // the table naming's result is not looked at
    assert_eq!(run(plan(), Some((1, Outcome::Null))), (6, Ok(())));
}

#[test]
fn failure_judgement() {
    assert_eq!(Failure::Ignored.judge(Outcome::Null), None);
    assert_eq!(Failure::Key("k".to_string()).judge(Outcome::Done), None);
    assert_eq!(Failure::Crud("get".to_string()).judge(Outcome::Status { code: 0, os_error: 3 }), None);
    assert_eq!(Failure::Subscribe.judge(Outcome::Status { code: 4, os_error: 3 }), None);
    assert_eq!(Failure::Subscribe.judge(Outcome::Status { code: -1, os_error: 3 }), Some(Error::Subscribe(3)));
}

#[test]
fn update_plan_sets_given_attributes() {
    let c = ctx();
    let p = c
        .update("register", "t")
        .key("1")
        .action("a")
        .priority(2)
        .aging_ms(100)
        .profile_id(4)
        .permissions(0x1ff)
        .dynamic(true)
        .filter("f")
        .execute();
    let cs = calls(&p);
    assert_eq!(cs.len(), 12);
    assert!(matches!(cs[2], Call::FilterSet { filter } if filter == "f"));
    assert!(matches!(cs[5], Call::PrioritySet { value: 2 }));
    assert!(matches!(cs[6], Call::AgingSet { value: 100 }));
    assert!(matches!(cs[7], Call::ProfileIdSet { value: 4 }));
    assert!(matches!(cs[8], Call::PermissionsSet { value: 0x1ff }));
    assert!(matches!(cs[9], Call::DynamicSet { value: true }));
    assert!(matches!(cs[10], Call::CreateAction { .. }));
    assert!(matches!(cs[11], Call::Crud { op: CrudOp::Update, with_callback: false, .. }));
    let q = c.update("register", "t").key("1").execute_with();
    assert!(matches!(calls(&q).last(), Some(Call::Crud { op: CrudOp::Update, with_callback: true, .. })));
}

#[test]
fn update_without_keys_sets_no_entry() {
    let c = ctx();
    let p = c.update("register", "t").action("a").priority(3).execute();
    let cs = calls(&p);
    assert_eq!(cs.len(), 3);
    assert!(matches!(cs[2], Call::Crud { op: CrudOp::Update, .. }));
}

#[test]
fn flush_deletes_without_key() {
    let c = ctx();
    let p = c.flush("register", "t").execute();
    let cs = calls(&p);
    assert_eq!(cs.len(), 3);
    assert!(matches!(cs[2], Call::Crud { op: CrudOp::Delete, flags: 0, with_callback: false }));
    let k = c.delete("register", "t").key("1").execute_with();
    let ks = calls(&k);
    assert_eq!(ks.len(), 5);
    assert!(matches!(ks[3], Call::AllocEntry { entity: Entity::Kernel }));
    assert!(matches!(ks[4], Call::Crud { op: CrudOp::Delete, with_callback: true, .. }));
    assert_eq!(
        run(k, Some((4, Outcome::Status { code: 1, os_error: 2 }))),
        (5, Err(Error::Crud { op: "delete".to_string(), os_error: 2 }))
    );
}

#[test]
fn dump_reads_without_key() {
    let c = ctx();
    let p = c.dump("register", "t").execute();
    let cs = calls(&p);
    assert_eq!(cs.len(), 3);
    assert!(matches!(cs[2], Call::Crud { op: CrudOp::Get, with_callback: true, .. }));
    let g = c.get("register", "t").key("10.0.0.1").filter("x").execute();
    assert_eq!(calls(&g).len(), 6);
    let bad = c.get("register", "t").filter("x\0").execute();
    assert_eq!(stop(&bad), Some(&Error::Object { msg: "filter contains null byte".to_string() }));
}

fn extern_schema() -> PipelineSchema {
    PipelineSchema {
        name: "register".to_string(),
        tables: vec![],
        externs: vec![ExternSchema {
            name: "Register".to_string(),
            id: "1".to_string(),
            instances: vec![ExternInstanceSchema {
                name: "ingress.reg1".to_string(),
                id: 1,
                param_names: vec!["a".to_string(), "b".to_string()],
            }],
        }],
    }
}

#[test]
fn extern_update_plan() {
    let c = ctx();
    let p = c.extern_update("register", "Register", "ingress.reg1").key(1).params(&["42", "99"]).execute();
    let cs = calls(&p);
    assert_eq!(cs.len(), 3);
    assert!(matches!(cs[0], Call::ObjCreate { obj_type: ObjType::Extern, .. }));
    assert!(matches!(cs[1], Call::CreateExtern { kind, instance, key: 1, params }
        if kind == "Register" && instance == "ingress.reg1" && params == &vec!["42".to_string(), "99".to_string()]));
    assert!(matches!(cs[2], Call::Crud { op: CrudOp::Update, with_callback: false, .. }));
    assert_eq!(
        run(p, Some((1, Outcome::Null))),
        (2, Err(Error::Entry { msg: "create_runt_ext failed for 'Register/ingress.reg1'".to_string() }))
    );
}

#[test]
fn extern_get_fills_placeholder_params() {
    let c = ctx();
    let s = extern_schema();
    let p = c.extern_get("register", "Register", "ingress.reg1").key(2).schema(&s).execute();
    let cs = calls(&p);
    assert!(matches!(cs[1], Call::CreateExtern { params, .. } if params == &vec!["0".to_string(), "0".to_string()]));
    assert!(matches!(cs[2], Call::Crud { op: CrudOp::Get, with_callback: true, .. }));
    let unknown = c.extern_delete("register", "Register", "ingress.reg9").schema(&s).execute();
    assert!(matches!(calls(&unknown)[1], Call::CreateExtern { params, .. } if params.is_empty()));
}

#[test]
fn extern_insert_and_errors() {
    let c = ctx();
    let p = c.extern_insert("register", "Register", "ingress.reg1").param("1").execute_with();
    assert!(matches!(calls(&p)[2], Call::Crud { op: CrudOp::Create, with_callback: true, .. }));
    assert_eq!(
        run(p, Some((2, Outcome::Status { code: -22, os_error: 22 }))),
        (3, Err(Error::Crud { op: "extern_insert".to_string(), os_error: 22 }))
    );
    let k = c.extern_delete("register", "Reg\0", "i").execute();
    assert_eq!(stop(&k), Some(&Error::Object { msg: "kind contains null byte".to_string() }));
    let i = c.extern_update("register", "Register", "i\0").execute_with();
    assert_eq!(stop(&i), Some(&Error::Object { msg: "instance contains null byte".to_string() }));
    let q = c.extern_update("register", "Register", "i").param("\0").execute();
    assert_eq!(stop(&q), Some(&Error::Object { msg: "param contains null byte".to_string() }));
}

#[test]
fn subscription_plans() {
    let c = ctx();
    let p = c.subscribe("register", "t");
    let cs = calls(&p);
    assert_eq!(cs.len(), 3);
    assert!(matches!(cs[2], Call::Subscribe { flags: 0 }));
    let f = c.subscribe_filtered("register", "t", "srcAddr=10.0.0.1");
    assert!(matches!(calls(&f)[2], Call::FilterSet { filter } if filter == "srcAddr=10.0.0.1"));
    assert_eq!(
        run(f, Some((3, Outcome::Status { code: -1, os_error: 9 }))),
        (4, Err(Error::Subscribe(9)))
    );
    assert_eq!(
        run(c.subscribe("register", "t"), Some((0, Outcome::Null))),
        (1, Err(Error::Object { msg: "p4tc_obj_create failed for subscribe".to_string() }))
    );
    let bad = c.subscribe_filtered("register", "t", "\0");
    assert_eq!(stop(&bad), Some(&Error::Object { msg: "filter contains null byte".to_string() }));
    assert_eq!(bad.steps.len(), 1);
}

#[test]
fn check_c_str_names_the_string() {
    assert_eq!(p4tc::check_c_str("ok", "table"), Ok(()));
    assert_eq!(
        p4tc::check_c_str("x\0", "table"),
        Err(Error::Object { msg: "table contains null byte".to_string() })
    );
}

#[test]
fn request_object_released_exactly_when_created() {
    let c = ctx();
    let plan = || c.insert("register", "t").key("1").action("a").execute();
    assert!(run_full(plan(), None).2);
    // creation failed: nothing to release
    assert!(!run_full(plan(), Some((0, Outcome::Null))).2);
    // a later call failed: the object created is released
    let (n, res, release) = run_full(plan(), Some((2, Outcome::Null)));
    assert_eq!((n, release), (3, true));
    assert_eq!(res, Err(Error::Key { msg: "make_key failed".to_string() }));
    let (_, _, release) = run_full(plan(), Some((5, Outcome::Status { code: -1, os_error: 1 })));
    assert!(release);
    // stopped before any call
    assert!(!run_full(c.insert("reg\0", "t").execute(), None).2);
    // stopped after the object was created
    let (n, res, release) = run_full(c.insert("register", "t").key("a\0").execute(), None);
    assert_eq!((n, release), (2, true));
    assert_eq!(res, Err(Error::Object { msg: "key value contains null byte".to_string() }));
    let ext = c.extern_update("register", "Register", "i").execute();
    assert_eq!(run_full(ext, Some((1, Outcome::Null))).2, true);
    assert!(run_full(c.subscribe("register", "t"), None).2);
}

fn table_responses(p: &Plan, pipeline: &str, table: &str) -> bool {
    matches!(&p.responses, Responses::TableEntries { pipeline: pl, table: t } if pl == pipeline && t == table)
}

#[test]
fn responses_each_request_hands_on() {
    let c = ctx();
    assert!(table_responses(&c.get("register", "t").key("1").execute(), "register", "t"));
    assert!(table_responses(&c.dump("register", "ingress/t").execute(), "register", "ingress/t"));
    assert!(table_responses(&c.subscribe("p", "t"), "p", "t"));
    assert!(table_responses(&c.subscribe_filtered("p", "t", "f"), "p", "t"));
    assert!(matches!(c.delete("register", "t").execute_with().responses, Responses::Phases));
    assert!(matches!(c.update("register", "t").execute_with().responses, Responses::Phases));
    assert!(matches!(c.delete("register", "t").execute().responses, Responses::Unread));
    assert!(matches!(c.insert("register", "t").execute().responses, Responses::Unread));
    let s = extern_schema();
    let g = c.extern_get("register", "Register", "ingress.reg1").schema(&s).execute();
    assert!(matches!(g.responses, Responses::ExternEntries));
    assert!(matches!(c.extern_insert("register", "R", "i").execute_with().responses, Responses::ExternEntries));
    assert!(matches!(c.extern_insert("register", "R", "i").execute().responses, Responses::Unread));
}

#[test]
fn only_data_batches_reach_entry_callbacks() {
    let t = Responses::TableEntries { pipeline: "p".to_string(), table: "t".to_string() };
    assert_eq!(t.handling(Phase::Sot, true), Handling::ReadTableEntries);
    assert_eq!(t.handling(Phase::Mot, true), Handling::ReadTableEntries);
    assert_eq!(t.handling(Phase::Mot, false), Handling::Skip);
    assert_eq!(t.handling(Phase::Eot, true), Handling::Skip);
    assert_eq!(t.handling(Phase::Abt, true), Handling::Skip);
    assert_eq!(t.handling(Phase::Unspec, true), Handling::Skip);
    let e = Responses::ExternEntries;
    assert_eq!(e.handling(Phase::Sot, true), Handling::ReadExternEntries);
    assert_eq!(e.handling(Phase::Sot, false), Handling::Skip);
    assert_eq!(e.handling(Phase::Eot, true), Handling::Skip);
    // phase callbacks get every phase, unfiltered
    for ph in [Phase::Sot, Phase::Mot, Phase::Eot, Phase::Abt, Phase::Unspec] {
        assert_eq!(Responses::Phases.handling(ph, false), Handling::PassPhase);
        assert_eq!(Responses::Unread.handling(ph, true), Handling::Skip);
    }
}

#[test]
fn subscription_is_unsubscribed_once() {
    let mut r = Registration::new(5);
    assert!(r.active());
    assert_eq!(r.id(), 5);
    assert_eq!(r.stop(), Some(5));
    assert!(!r.active());
    assert_eq!(r.stop(), None);
    let mut failed = Registration::new(-1);
    assert_eq!(failed.stop(), None);
}
