use vstd::prelude::*;
use crate::context::subscribe_plan;
use crate::extern_::{extern_plan, with_dummy_params, ExternRequest};
use crate::schema::PipelineSchema;
use crate::plan::{any_nul, CallSpec, CrudOp, StepSpec};
use crate::table::{
    action_steps, delete_plan, filter_steps, get_plan, insert_plan, lookup_body, table_obj_steps,
    update_body, update_plan, TableRequest,
};
use crate::types::ObjType;

verus! {

/// Whether the step makes the call `c`.
pub open spec fn is_call(s: StepSpec, c: CallSpec) -> bool {
    match s {
        StepSpec::Perform(d, _) => d == c,
        StepSpec::Fail(_) => false,
    }
}

/// Whether one of the steps makes the call `c`.
pub open spec fn makes_call(p: Seq<StepSpec>, c: CallSpec) -> bool {
    exists|i: int| 0 <= i < p.len() && #[trigger] is_call(p[i], c)
}

/// Whether the steps make the call `a` and, later, the call `b`.
pub open spec fn makes_call_before(p: Seq<StepSpec>, a: CallSpec, b: CallSpec) -> bool {
    exists|i: int, j: int|
        0 <= i < j < p.len() && #[trigger] is_call(p[i], a) && #[trigger] is_call(p[j], b)
}

/// The string can be handed to the control library as a C string.
pub open spec fn nul_free(s: Seq<char>) -> bool {
    !s.contains('\0')
}

/// Every string of a table request can be handed to the control library:
/// pipeline, table, key values, the filter and the action with its
/// parameters where given.
pub open spec fn table_request_sendable(r: TableRequest) -> bool {
    &&& nul_free(r.pipeline)
    &&& nul_free(r.table)
    &&& !any_nul(r.keys)
    &&& (r.filter matches Some(f) ==> nul_free(f))
    &&& (r.action_path matches Some(p) ==> nul_free(p) && !any_nul(r.action_params))
}

proof fn lemma_single(s: StepSpec, c: CallSpec)
    requires
        is_call(s, c),
    ensures
        makes_call(seq![s], c),
{
    assert(is_call(seq![s][0], c));
}

proof fn lemma_left(a: Seq<StepSpec>, b: Seq<StepSpec>, c: CallSpec)
    requires
        makes_call(a, c),
    ensures
        makes_call(a + b, c),
{
    let i = choose|i: int| 0 <= i < a.len() && #[trigger] is_call(a[i], c);
    assert((a + b)[i] == a[i]);
    assert(is_call((a + b)[i], c));
}

proof fn lemma_right(a: Seq<StepSpec>, b: Seq<StepSpec>, c: CallSpec)
    requires
        makes_call(b, c),
    ensures
        makes_call(a + b, c),
{
    let i = choose|i: int| 0 <= i < b.len() && #[trigger] is_call(b[i], c);
    assert((a + b)[a.len() + i] == b[i]);
    assert(is_call((a + b)[a.len() + i], c));
}

proof fn lemma_before(a: Seq<StepSpec>, b: Seq<StepSpec>, x: CallSpec, y: CallSpec)
    requires
        makes_call(a, x),
        makes_call(b, y),
    ensures
        makes_call_before(a + b, x, y),
{
    let i = choose|i: int| 0 <= i < a.len() && #[trigger] is_call(a[i], x);
    let j = choose|j: int| 0 <= j < b.len() && #[trigger] is_call(b[j], y);
    assert((a + b)[i] == a[i]);
    assert((a + b)[a.len() + j] == b[j]);
    assert(is_call((a + b)[i], x) && is_call((a + b)[a.len() + j], y));
}

proof fn lemma_before_right(a: Seq<StepSpec>, b: Seq<StepSpec>, x: CallSpec, y: CallSpec)
    requires
        makes_call_before(b, x, y),
    ensures
        makes_call_before(a + b, x, y),
{
    let (i, j) = choose|i: int, j: int|
        0 <= i < j < b.len() && #[trigger] is_call(b[i], x) && #[trigger] is_call(b[j], y);
    assert((a + b)[a.len() + i] == b[i]);
    assert((a + b)[a.len() + j] == b[j]);
    assert(is_call((a + b)[a.len() + i], x) && is_call((a + b)[a.len() + j], y));
}

/// What the object steps of a sendable request are: creation for the
/// pipeline, naming of the table, then `then`.
proof fn lemma_table_obj_shape(r: TableRequest, then: Seq<StepSpec>)
    requires
        nul_free(r.pipeline),
        nul_free(r.table),
    ensures
        table_obj_steps(r, then) == seq![crate::table::obj_create_step(r.pipeline, ObjType::Table)]
            + (seq![crate::table::obj_name_step(r.table)] + then),
{
}

/// A call the steps after the object steps make is made by the request.
proof fn lemma_table_obj_lift(r: TableRequest, then: Seq<StepSpec>, c: CallSpec)
    requires
        nul_free(r.pipeline),
        nul_free(r.table),
        makes_call(then, c),
    ensures
        makes_call(table_obj_steps(r, then), c),
{
    lemma_table_obj_shape(r, then);
    lemma_right(seq![crate::table::obj_name_step(r.table)], then, c);
    lemma_right(
        seq![crate::table::obj_create_step(r.pipeline, ObjType::Table)],
        seq![crate::table::obj_name_step(r.table)] + then,
        c,
    );
}

proof fn lemma_table_obj_lift_before(r: TableRequest, then: Seq<StepSpec>, x: CallSpec, y: CallSpec)
    requires
        nul_free(r.pipeline),
        nul_free(r.table),
        makes_call_before(then, x, y),
    ensures
        makes_call_before(table_obj_steps(r, then), x, y),
{
    lemma_table_obj_shape(r, then);
    lemma_before_right(seq![crate::table::obj_name_step(r.table)], then, x, y);
    lemma_before_right(
        seq![crate::table::obj_create_step(r.pipeline, ObjType::Table)],
        seq![crate::table::obj_name_step(r.table)] + then,
        x,
        y,
    );
}

/// The object steps create the object for the pipeline and name the table.
proof fn lemma_table_obj_calls(r: TableRequest, then: Seq<StepSpec>)
    requires
        nul_free(r.pipeline),
        nul_free(r.table),
    ensures
        makes_call(
            table_obj_steps(r, then),
            CallSpec::ObjCreate { pipeline: r.pipeline, obj_type: ObjType::Table },
        ),
        makes_call(table_obj_steps(r, then), CallSpec::ObjNameSet { name: r.table }),
{
    lemma_table_obj_shape(r, then);
    let obj = crate::table::obj_create_step(r.pipeline, ObjType::Table);
    let name = crate::table::obj_name_step(r.table);
    lemma_single(obj, CallSpec::ObjCreate { pipeline: r.pipeline, obj_type: ObjType::Table });
    lemma_left(
        seq![obj],
        seq![name] + then,
        CallSpec::ObjCreate { pipeline: r.pipeline, obj_type: ObjType::Table },
    );
    lemma_single(name, CallSpec::ObjNameSet { name: r.table });
    lemma_left(seq![name], then, CallSpec::ObjNameSet { name: r.table });
    lemma_right(seq![obj], seq![name] + then, CallSpec::ObjNameSet { name: r.table });
}

proof fn lemma_filter_lift(r: TableRequest, then: Seq<StepSpec>, c: CallSpec)
    requires
        r.filter matches Some(f) ==> nul_free(f),
        makes_call(then, c),
    ensures
        makes_call(filter_steps(r, then), c),
{
    match r.filter {
        Some(f) => {
            lemma_right(
                seq![StepSpec::Perform(CallSpec::FilterSet { filter: f }, crate::plan::FailureSpec::Ignored)],
                then,
                c,
            );
        },
        None => {},
    }
}

proof fn lemma_filter_lift_before(r: TableRequest, then: Seq<StepSpec>, x: CallSpec, y: CallSpec)
    requires
        r.filter matches Some(f) ==> nul_free(f),
        makes_call_before(then, x, y),
    ensures
        makes_call_before(filter_steps(r, then), x, y),
{
    match r.filter {
        Some(f) => {
            lemma_before_right(
                seq![StepSpec::Perform(CallSpec::FilterSet { filter: f }, crate::plan::FailureSpec::Ignored)],
                then,
                x,
                y,
            );
        },
        None => {},
    }
}

/// The filter step comes before every call of `then`.
proof fn lemma_filter_first(r: TableRequest, f: Seq<char>, then: Seq<StepSpec>, c: CallSpec)
    requires
        r.filter == Some(f),
        nul_free(f),
        makes_call(then, c),
    ensures
        makes_call_before(filter_steps(r, then), CallSpec::FilterSet { filter: f }, c),
{
    let fs = StepSpec::Perform(CallSpec::FilterSet { filter: f }, crate::plan::FailureSpec::Ignored);
    lemma_single(fs, CallSpec::FilterSet { filter: f });
    lemma_before(seq![fs], then, CallSpec::FilterSet { filter: f }, c);
}

/// The part after the object and the filter of a delete or a read makes
/// the key of the values given, where given, and sends the request.
proof fn lemma_lookup_body(keys: Seq<Seq<char>>, send: StepSpec, c: CallSpec)
    requires
        !any_nul(keys),
        is_call(send, c),
    ensures
        makes_call(lookup_body(keys, send), c),
        keys.len() > 0 ==> makes_call(lookup_body(keys, send), CallSpec::MakeKey { values: keys }),
{
    if keys.len() > 0 {
        let b = lookup_body(keys, send);
        assert(b == seq![crate::table::make_key_step(keys), crate::table::alloc_step(crate::types::Entity::Kernel), send]);
        assert(is_call(b[2], c));
        assert(is_call(b[0], CallSpec::MakeKey { values: keys }));
    } else {
        lemma_single(send, c);
    }
}

/// The part after the object and filter of an update makes, where keys are
/// given, the key of those values and the action with the parameters given,
/// and sends the request.
proof fn lemma_update_body(r: TableRequest, with_callback: bool)
    requires
        table_request_sendable(r),
    ensures
        makes_call(
            update_body(r, with_callback),
            CallSpec::Crud { op: CrudOp::Update, flags: r.flags, with_callback },
        ),
        r.keys.len() > 0 ==> makes_call(update_body(r, with_callback), CallSpec::MakeKey { values: r.keys }),
        r.keys.len() > 0 ==> (r.action_path matches Some(p) ==> makes_call(
            update_body(r, with_callback),
            CallSpec::CreateAction { path: p, params: r.action_params },
        )),
{
    let sendc = CallSpec::Crud { op: CrudOp::Update, flags: r.flags, with_callback };
    let send = seq![crate::table::crud_step(CrudOp::Update, r.flags, with_callback, "update"@)];
    lemma_single(send[0], sendc);
    assert(seq![send[0]] == send);
    if r.keys.len() > 0 {
        let head = seq![crate::table::make_key_step(r.keys), crate::table::alloc_step(r.entity)]
            + crate::table::attr_steps(r);
        let acts = action_steps(r.action_path, r.action_params, send);
        assert(update_body(r, with_callback) == head + acts);
        match r.action_path {
            Some(p) => {
                let act = StepSpec::Perform(
                    CallSpec::CreateAction { path: p, params: r.action_params },
                    crate::plan::FailureSpec::Entry("create_runt_act failed for '"@ + p + "'"@),
                );
                assert(acts == seq![act] + send);
                lemma_right(seq![act], send, sendc);
                lemma_single(act, CallSpec::CreateAction { path: p, params: r.action_params });
                lemma_left(seq![act], send, CallSpec::CreateAction { path: p, params: r.action_params });
                lemma_right(head, acts, CallSpec::CreateAction { path: p, params: r.action_params });
            },
            None => {},
        }
        lemma_right(head, acts, sendc);
        let mk = seq![crate::table::make_key_step(r.keys), crate::table::alloc_step(r.entity)];
        assert(is_call(mk[0], CallSpec::MakeKey { values: r.keys }));
        lemma_left(mk, crate::table::attr_steps(r), CallSpec::MakeKey { values: r.keys });
        lemma_left(head, acts, CallSpec::MakeKey { values: r.keys });
    }
}

/// A table request (insert, update, delete or read) whose strings can be
/// handed to the control library creates its request object for its own
/// pipeline and names its own table.
pub proof fn law_table_request_target(r: TableRequest, with_callback: bool)
    requires
        table_request_sendable(r),
    ensures
        makes_call(insert_plan(r), CallSpec::ObjCreate { pipeline: r.pipeline, obj_type: ObjType::Table }),
        makes_call(insert_plan(r), CallSpec::ObjNameSet { name: r.table }),
        makes_call(
            update_plan(r, with_callback),
            CallSpec::ObjCreate { pipeline: r.pipeline, obj_type: ObjType::Table },
        ),
        makes_call(update_plan(r, with_callback), CallSpec::ObjNameSet { name: r.table }),
        makes_call(
            delete_plan(r, with_callback),
            CallSpec::ObjCreate { pipeline: r.pipeline, obj_type: ObjType::Table },
        ),
        makes_call(delete_plan(r, with_callback), CallSpec::ObjNameSet { name: r.table }),
        makes_call(get_plan(r), CallSpec::ObjCreate { pipeline: r.pipeline, obj_type: ObjType::Table }),
        makes_call(get_plan(r), CallSpec::ObjNameSet { name: r.table }),
{
    lemma_table_obj_calls(r, crate::plan::all_checked(
        r.keys,
        "key value"@,
        seq![crate::table::make_key_step(r.keys), crate::table::alloc_step(r.entity)]
            + crate::table::priority_steps(r.priority) + action_steps(
            r.action_path,
            r.action_params,
            seq![crate::table::crud_step(CrudOp::Create, r.flags, false, "create"@)],
        ),
    ));
    lemma_table_obj_calls(r, filter_steps(r, update_body(r, with_callback)));
    lemma_table_obj_calls(r, filter_steps(r, lookup_body(
        r.keys,
        crate::table::crud_step(CrudOp::Delete, r.flags, with_callback, "delete"@),
    )));
    lemma_table_obj_calls(r, filter_steps(r, lookup_body(
        r.keys,
        crate::table::crud_step(CrudOp::Get, r.flags, true, "get"@),
    )));
}

/// An update, delete or read given keys, with sendable strings, builds the
/// key of exactly the values given, in the order given, and sends the
/// request; an insert always builds the key of the values given.
pub proof fn law_request_key(r: TableRequest, with_callback: bool)
    requires
        table_request_sendable(r),
    ensures
        makes_call(insert_plan(r), CallSpec::MakeKey { values: r.keys }),
        makes_call(insert_plan(r), CallSpec::Crud { op: CrudOp::Create, flags: r.flags, with_callback: false }),
        r.keys.len() > 0 ==> makes_call(update_plan(r, with_callback), CallSpec::MakeKey { values: r.keys }),
        r.keys.len() > 0 ==> makes_call(delete_plan(r, with_callback), CallSpec::MakeKey { values: r.keys }),
        r.keys.len() > 0 ==> makes_call(get_plan(r), CallSpec::MakeKey { values: r.keys }),
        makes_call(
            delete_plan(r, with_callback),
            CallSpec::Crud { op: CrudOp::Delete, flags: r.flags, with_callback },
        ),
        makes_call(get_plan(r), CallSpec::Crud { op: CrudOp::Get, flags: r.flags, with_callback: true }),
        makes_call(
            update_plan(r, with_callback),
            CallSpec::Crud { op: CrudOp::Update, flags: r.flags, with_callback },
        ),
{
    // insert
    let mk = seq![crate::table::make_key_step(r.keys), crate::table::alloc_step(r.entity)];
    let rest = crate::table::priority_steps(r.priority) + action_steps(
        r.action_path,
        r.action_params,
        seq![crate::table::crud_step(CrudOp::Create, r.flags, false, "create"@)],
    );
    let ins = crate::plan::all_checked(r.keys, "key value"@, mk + crate::table::priority_steps(r.priority)
        + action_steps(
        r.action_path,
        r.action_params,
        seq![crate::table::crud_step(CrudOp::Create, r.flags, false, "create"@)],
    ));
    assert(ins == mk + rest);
    assert(is_call(mk[0], CallSpec::MakeKey { values: r.keys }));
    lemma_left(mk, rest, CallSpec::MakeKey { values: r.keys });
    lemma_table_obj_lift(r, ins, CallSpec::MakeKey { values: r.keys });
    let cc = CallSpec::Crud { op: CrudOp::Create, flags: r.flags, with_callback: false };
    let cs = seq![crate::table::crud_step(CrudOp::Create, r.flags, false, "create"@)];
    lemma_single(cs[0], cc);
    assert(seq![cs[0]] == cs);
    let acts = action_steps(r.action_path, r.action_params, cs);
    match r.action_path {
        Some(p) => {
            let act = StepSpec::Perform(
                CallSpec::CreateAction { path: p, params: r.action_params },
                crate::plan::FailureSpec::Entry("create_runt_act failed for '"@ + p + "'"@),
            );
            assert(acts == seq![act] + cs);
            lemma_right(seq![act], cs, cc);
        },
        None => {},
    }
    lemma_right(mk + crate::table::priority_steps(r.priority), acts, cc);
    assert(rest == crate::table::priority_steps(r.priority) + acts);
    assert(mk + rest == mk + crate::table::priority_steps(r.priority) + acts);
    lemma_table_obj_lift(r, ins, cc);
    // update
    lemma_update_body(r, with_callback);
    let ub = update_body(r, with_callback);
    lemma_filter_lift(r, ub, CallSpec::Crud { op: CrudOp::Update, flags: r.flags, with_callback });
    lemma_table_obj_lift(
        r,
        filter_steps(r, ub),
        CallSpec::Crud { op: CrudOp::Update, flags: r.flags, with_callback },
    );
    if r.keys.len() > 0 {
        lemma_filter_lift(r, ub, CallSpec::MakeKey { values: r.keys });
        lemma_table_obj_lift(r, filter_steps(r, ub), CallSpec::MakeKey { values: r.keys });
    }
    // delete
    let ds = crate::table::crud_step(CrudOp::Delete, r.flags, with_callback, "delete"@);
    let dc = CallSpec::Crud { op: CrudOp::Delete, flags: r.flags, with_callback };
    lemma_lookup_body(r.keys, ds, dc);
    lemma_filter_lift(r, lookup_body(r.keys, ds), dc);
    lemma_table_obj_lift(r, filter_steps(r, lookup_body(r.keys, ds)), dc);
    if r.keys.len() > 0 {
        lemma_filter_lift(r, lookup_body(r.keys, ds), CallSpec::MakeKey { values: r.keys });
        lemma_table_obj_lift(r, filter_steps(r, lookup_body(r.keys, ds)), CallSpec::MakeKey { values: r.keys });
    }
    // read
    let gs = crate::table::crud_step(CrudOp::Get, r.flags, true, "get"@);
    let gc = CallSpec::Crud { op: CrudOp::Get, flags: r.flags, with_callback: true };
    lemma_lookup_body(r.keys, gs, gc);
    lemma_filter_lift(r, lookup_body(r.keys, gs), gc);
    lemma_table_obj_lift(r, filter_steps(r, lookup_body(r.keys, gs)), gc);
    if r.keys.len() > 0 {
        lemma_filter_lift(r, lookup_body(r.keys, gs), CallSpec::MakeKey { values: r.keys });
        lemma_table_obj_lift(r, filter_steps(r, lookup_body(r.keys, gs)), CallSpec::MakeKey { values: r.keys });
    }
}

/// An insert, or an update given keys, given an action, with sendable
/// strings, attaches that action with exactly the parameter values given,
/// in the order given.
pub proof fn law_action_attached(r: TableRequest, path: Seq<char>, with_callback: bool)
    requires
        table_request_sendable(r),
        r.action_path == Some(path),
    ensures
        makes_call(insert_plan(r), CallSpec::CreateAction { path, params: r.action_params }),
        r.keys.len() > 0 ==> makes_call(
            update_plan(r, with_callback),
            CallSpec::CreateAction { path, params: r.action_params },
        ),
{
    let ca = CallSpec::CreateAction { path, params: r.action_params };
    let send = seq![crate::table::crud_step(CrudOp::Create, r.flags, false, "create"@)];
    let act = StepSpec::Perform(
        ca,
        crate::plan::FailureSpec::Entry("create_runt_act failed for '"@ + path + "'"@),
    );
    let acts = action_steps(r.action_path, r.action_params, send);
    assert(acts == seq![act] + send);
    lemma_single(act, ca);
    lemma_left(seq![act], send, ca);
    let head = seq![crate::table::make_key_step(r.keys), crate::table::alloc_step(r.entity)]
        + crate::table::priority_steps(r.priority);
    lemma_right(head, acts, ca);
    let ins = crate::plan::all_checked(r.keys, "key value"@, head + acts);
    assert(ins == head + acts);
    lemma_table_obj_lift(r, ins, ca);
    lemma_update_body(r, with_callback);
    if r.keys.len() > 0 {
        lemma_filter_lift(r, update_body(r, with_callback), ca);
        lemma_table_obj_lift(r, filter_steps(r, update_body(r, with_callback)), ca);
    }
}

/// An update, delete or read given a filter, with sendable strings, sets
/// exactly that filter before it sends the request, so that only the
/// entries the filter lets through are reached.
pub proof fn law_filter_applied(r: TableRequest, f: Seq<char>, with_callback: bool)
    requires
        table_request_sendable(r),
        r.filter == Some(f),
    ensures
        makes_call_before(
            update_plan(r, with_callback),
            CallSpec::FilterSet { filter: f },
            CallSpec::Crud { op: CrudOp::Update, flags: r.flags, with_callback },
        ),
        makes_call_before(
            delete_plan(r, with_callback),
            CallSpec::FilterSet { filter: f },
            CallSpec::Crud { op: CrudOp::Delete, flags: r.flags, with_callback },
        ),
        makes_call_before(
            get_plan(r),
            CallSpec::FilterSet { filter: f },
            CallSpec::Crud { op: CrudOp::Get, flags: r.flags, with_callback: true },
        ),
{
    let fc = CallSpec::FilterSet { filter: f };
    let uc = CallSpec::Crud { op: CrudOp::Update, flags: r.flags, with_callback };
    lemma_update_body(r, with_callback);
    lemma_filter_first(r, f, update_body(r, with_callback), uc);
    lemma_table_obj_lift_before(r, filter_steps(r, update_body(r, with_callback)), fc, uc);
    let ds = crate::table::crud_step(CrudOp::Delete, r.flags, with_callback, "delete"@);
    let dc = CallSpec::Crud { op: CrudOp::Delete, flags: r.flags, with_callback };
    lemma_lookup_body(r.keys, ds, dc);
    lemma_filter_first(r, f, lookup_body(r.keys, ds), dc);
    lemma_table_obj_lift_before(r, filter_steps(r, lookup_body(r.keys, ds)), fc, dc);
    let gs = crate::table::crud_step(CrudOp::Get, r.flags, true, "get"@);
    let gc = CallSpec::Crud { op: CrudOp::Get, flags: r.flags, with_callback: true };
    lemma_lookup_body(r.keys, gs, gc);
    lemma_filter_first(r, f, lookup_body(r.keys, gs), gc);
    lemma_table_obj_lift_before(r, filter_steps(r, lookup_body(r.keys, gs)), fc, gc);
}

/// An extern request of any operation, with sendable strings, creates its
/// object for its pipeline and attaches the instance with exactly the kind,
/// instance, key and parameter values given, before it sends the request
/// through that operation.
pub proof fn law_extern_instance(r: ExternRequest, op: CrudOp, with_callback: bool, name: Seq<char>)
    requires
        nul_free(r.pipeline),
        nul_free(r.kind),
        nul_free(r.instance),
        !any_nul(r.params),
    ensures
        makes_call(
            extern_plan(r, op, with_callback, name),
            CallSpec::ObjCreate { pipeline: r.pipeline, obj_type: ObjType::Extern },
        ),
        makes_call_before(
            extern_plan(r, op, with_callback, name),
            CallSpec::CreateExtern { kind: r.kind, instance: r.instance, key: r.key, params: r.params },
            CallSpec::Crud { op, flags: r.flags, with_callback },
        ),
{
    let p = extern_plan(r, op, with_callback, name);
    assert(is_call(p[0], CallSpec::ObjCreate { pipeline: r.pipeline, obj_type: ObjType::Extern }));
    assert(is_call(
        p[1],
        CallSpec::CreateExtern { kind: r.kind, instance: r.instance, key: r.key, params: r.params },
    ));
    assert(is_call(p[2], CallSpec::Crud { op, flags: r.flags, with_callback }));
}

/// A subscription with sendable strings creates its object for the
/// pipeline given and names exactly the table given, then sets the filter
/// given, where one is, and registers.
pub proof fn law_subscription_target(pipeline: Seq<char>, table: Seq<char>, filter: Option<Seq<char>>)
    requires
        nul_free(pipeline),
        nul_free(table),
        filter matches Some(f) ==> nul_free(f),
    ensures
        makes_call(
            subscribe_plan(pipeline, table, filter),
            CallSpec::ObjCreate { pipeline, obj_type: ObjType::Table },
        ),
        makes_call_before(
            subscribe_plan(pipeline, table, filter),
            CallSpec::ObjNameSet { name: table },
            CallSpec::Subscribe { flags: 0 },
        ),
        filter matches Some(f) ==> makes_call_before(
            subscribe_plan(pipeline, table, filter),
            CallSpec::FilterSet { filter: f },
            CallSpec::Subscribe { flags: 0 },
        ),
{
    let p = subscribe_plan(pipeline, table, filter);
    assert(is_call(p[0], CallSpec::ObjCreate { pipeline, obj_type: ObjType::Table }));
    assert(is_call(p[1], CallSpec::ObjNameSet { name: table }));
    match filter {
        Some(f) => {
            assert(is_call(p[2], CallSpec::FilterSet { filter: f }));
            assert(is_call(p[3], CallSpec::Subscribe { flags: 0 }));
        },
        None => {
            assert(is_call(p[2], CallSpec::Subscribe { flags: 0 }));
        },
    }
}

/// The attribute steps set each attribute given, to the value given.
proof fn lemma_attr_calls(r: TableRequest)
    ensures
        r.priority > 0 ==> makes_call(crate::table::attr_steps(r), CallSpec::PrioritySet { value: r.priority }),
        r.aging_ms matches Some(v) ==> makes_call(crate::table::attr_steps(r), CallSpec::AgingSet { value: v }),
        r.profile_id matches Some(v) ==> makes_call(crate::table::attr_steps(r), CallSpec::ProfileIdSet { value: v }),
        r.permissions matches Some(v) ==> makes_call(
            crate::table::attr_steps(r),
            CallSpec::PermissionsSet { value: v },
        ),
        r.dynamic matches Some(v) ==> makes_call(crate::table::attr_steps(r), CallSpec::DynamicSet { value: v }),
{
    let ign = crate::plan::FailureSpec::Ignored;
    let a = crate::table::priority_steps(r.priority);
    let b: Seq<StepSpec> = match r.aging_ms {
        Some(v) => seq![StepSpec::Perform(CallSpec::AgingSet { value: v }, ign)],
        None => Seq::empty(),
    };
    let c: Seq<StepSpec> = match r.profile_id {
        Some(v) => seq![StepSpec::Perform(CallSpec::ProfileIdSet { value: v }, ign)],
        None => Seq::empty(),
    };
    let d: Seq<StepSpec> = match r.permissions {
        Some(v) => seq![StepSpec::Perform(CallSpec::PermissionsSet { value: v }, ign)],
        None => Seq::empty(),
    };
    let e: Seq<StepSpec> = match r.dynamic {
        Some(v) => seq![StepSpec::Perform(CallSpec::DynamicSet { value: v }, ign)],
        None => Seq::empty(),
    };
    assert(crate::table::attr_steps(r) == a + b + c + d + e);
    if r.priority > 0 {
        let x = CallSpec::PrioritySet { value: r.priority };
        assert(is_call(a[0], x));
        lemma_left(a, b, x);
        lemma_left(a + b, c, x);
        lemma_left(a + b + c, d, x);
        lemma_left(a + b + c + d, e, x);
    }
    if let Some(v) = r.aging_ms {
        let x = CallSpec::AgingSet { value: v };
        assert(is_call(b[0], x));
        lemma_right(a, b, x);
        lemma_left(a + b, c, x);
        lemma_left(a + b + c, d, x);
        lemma_left(a + b + c + d, e, x);
    }
    if let Some(v) = r.profile_id {
        let x = CallSpec::ProfileIdSet { value: v };
        assert(is_call(c[0], x));
        lemma_right(a + b, c, x);
        lemma_left(a + b + c, d, x);
        lemma_left(a + b + c + d, e, x);
    }
    if let Some(v) = r.permissions {
        let x = CallSpec::PermissionsSet { value: v };
        assert(is_call(d[0], x));
        lemma_right(a + b + c, d, x);
        lemma_left(a + b + c + d, e, x);
    }
    if let Some(v) = r.dynamic {
        let x = CallSpec::DynamicSet { value: v };
        assert(is_call(e[0], x));
        lemma_right(a + b + c + d, e, x);
    }
}

/// The entry of an insert, or of an update given keys, is attached for the
/// entity given and carries the attributes given: an insert its priority
/// (where not zero), an update each of priority (where not zero), aging,
/// profile, permissions and the dynamic mark that was given. A delete or a
/// read given keys attaches a kernel entry.
pub proof fn law_entry_attributes(r: TableRequest, with_callback: bool)
    requires
        table_request_sendable(r),
    ensures
        makes_call(insert_plan(r), CallSpec::AllocEntry { entity: r.entity }),
        r.priority > 0 ==> makes_call(insert_plan(r), CallSpec::PrioritySet { value: r.priority }),
        r.keys.len() > 0 ==> makes_call(update_plan(r, with_callback), CallSpec::AllocEntry { entity: r.entity }),
        r.keys.len() > 0 && r.priority > 0 ==> makes_call(
            update_plan(r, with_callback),
            CallSpec::PrioritySet { value: r.priority },
        ),
        r.keys.len() > 0 ==> (r.aging_ms matches Some(v) ==> makes_call(
            update_plan(r, with_callback),
            CallSpec::AgingSet { value: v },
        )),
        r.keys.len() > 0 ==> (r.profile_id matches Some(v) ==> makes_call(
            update_plan(r, with_callback),
            CallSpec::ProfileIdSet { value: v },
        )),
        r.keys.len() > 0 ==> (r.permissions matches Some(v) ==> makes_call(
            update_plan(r, with_callback),
            CallSpec::PermissionsSet { value: v },
        )),
        r.keys.len() > 0 ==> (r.dynamic matches Some(v) ==> makes_call(
            update_plan(r, with_callback),
            CallSpec::DynamicSet { value: v },
        )),
        r.keys.len() > 0 ==> makes_call(
            delete_plan(r, with_callback),
            CallSpec::AllocEntry { entity: crate::types::Entity::Kernel },
        ),
        r.keys.len() > 0 ==> makes_call(
            get_plan(r),
            CallSpec::AllocEntry { entity: crate::types::Entity::Kernel },
        ),
{
    // insert
    let mk = seq![crate::table::make_key_step(r.keys), crate::table::alloc_step(r.entity)];
    let pr = crate::table::priority_steps(r.priority);
    let acts = action_steps(
        r.action_path,
        r.action_params,
        seq![crate::table::crud_step(CrudOp::Create, r.flags, false, "create"@)],
    );
    let ins = crate::plan::all_checked(r.keys, "key value"@, mk + pr + acts);
    assert(ins == mk + pr + acts);
    let ac = CallSpec::AllocEntry { entity: r.entity };
    assert(is_call(mk[1], ac));
    lemma_left(mk, pr, ac);
    lemma_left(mk + pr, acts, ac);
    lemma_table_obj_lift(r, ins, ac);
    if r.priority > 0 {
        let x = CallSpec::PrioritySet { value: r.priority };
        assert(is_call(pr[0], x));
        lemma_right(mk, pr, x);
        lemma_left(mk + pr, acts, x);
        lemma_table_obj_lift(r, ins, x);
    }
    // update
    if r.keys.len() > 0 {
        let send = seq![crate::table::crud_step(CrudOp::Update, r.flags, with_callback, "update"@)];
        let at = crate::table::attr_steps(r);
        let uacts = action_steps(r.action_path, r.action_params, send);
        let ub = update_body(r, with_callback);
        assert(ub == mk + at + uacts);
        lemma_attr_calls(r);
        lemma_left(mk, at, ac);
        lemma_left(mk + at, uacts, ac);
        lemma_filter_lift(r, ub, ac);
        lemma_table_obj_lift(r, filter_steps(r, ub), ac);
        let xs = seq![
            CallSpec::PrioritySet { value: r.priority },
            CallSpec::AgingSet { value: r.aging_ms->0 },
            CallSpec::ProfileIdSet { value: r.profile_id->0 },
            CallSpec::PermissionsSet { value: r.permissions->0 },
            CallSpec::DynamicSet { value: r.dynamic->0 },
        ];
        assert forall|k: int| 0 <= k < 5 && #[trigger] makes_call(at, xs[k]) implies makes_call(
            update_plan(r, with_callback),
            xs[k],
        ) by {
            lemma_right(mk, at, xs[k]);
            lemma_left(mk + at, uacts, xs[k]);
            lemma_filter_lift(r, ub, xs[k]);
            lemma_table_obj_lift(r, filter_steps(r, ub), xs[k]);
        }
        if r.priority > 0 {
            assert(makes_call(at, xs[0]));
        }
        if r.aging_ms is Some {
            assert(makes_call(at, xs[1]));
        }
        if r.profile_id is Some {
            assert(makes_call(at, xs[2]));
        }
        if r.permissions is Some {
            assert(makes_call(at, xs[3]));
        }
        if r.dynamic is Some {
            assert(makes_call(at, xs[4]));
        }
        // delete and read
        let kc = CallSpec::AllocEntry { entity: crate::types::Entity::Kernel };
        let ds = crate::table::crud_step(CrudOp::Delete, r.flags, with_callback, "delete"@);
        let db = lookup_body(r.keys, ds);
        assert(is_call(db[1], kc));
        lemma_filter_lift(r, db, kc);
        lemma_table_obj_lift(r, filter_steps(r, db), kc);
        let gs = crate::table::crud_step(CrudOp::Get, r.flags, true, "get"@);
        let gb = lookup_body(r.keys, gs);
        assert(is_call(gb[1], kc));
        lemma_filter_lift(r, gb, kc);
        lemma_table_obj_lift(r, filter_steps(r, gb), kc);
    }
}

/// A delete or a read without keys (a flush or a dump) builds no key and
/// attaches no entry: it reaches every entry the filter lets through.
pub proof fn law_keyless_reaches_all(r: TableRequest, with_callback: bool)
    requires
        table_request_sendable(r),
        r.keys.len() == 0,
    ensures
        forall|v: Seq<Seq<char>>| !makes_call(delete_plan(r, with_callback), CallSpec::MakeKey { values: v }),
        forall|e: crate::types::Entity| !makes_call(delete_plan(r, with_callback), CallSpec::AllocEntry { entity: e }),
        forall|v: Seq<Seq<char>>| !makes_call(get_plan(r), CallSpec::MakeKey { values: v }),
        forall|e: crate::types::Entity| !makes_call(get_plan(r), CallSpec::AllocEntry { entity: e }),
{
    let ds = crate::table::crud_step(CrudOp::Delete, r.flags, with_callback, "delete"@);
    let gs = crate::table::crud_step(CrudOp::Get, r.flags, true, "get"@);
    let dp = delete_plan(r, with_callback);
    let gp = get_plan(r);
    assert(forall|i: int| 0 <= i < dp.len() ==> !(#[trigger] dp[i] matches StepSpec::Perform(CallSpec::MakeKey { .. }, _))
        && !(dp[i] matches StepSpec::Perform(CallSpec::AllocEntry { .. }, _))) by {
        lemma_table_obj_shape(r, filter_steps(r, lookup_body(r.keys, ds)));
    }
    assert(forall|i: int| 0 <= i < gp.len() ==> !(#[trigger] gp[i] matches StepSpec::Perform(CallSpec::MakeKey { .. }, _))
        && !(gp[i] matches StepSpec::Perform(CallSpec::AllocEntry { .. }, _))) by {
        lemma_table_obj_shape(r, filter_steps(r, lookup_body(r.keys, gs)));
    }
}

/// Filling placeholder parameters from a schema changes nothing but the
/// parameters, and those only where none were given. Placeholders are all
/// `0`, as many as the data parameters of an instance the schema lists under
/// the request's extern kind and instance name. Where the schema lists one
/// extern of that kind with one instance of that name, and it has data
/// parameters, a request without parameters gets one `0` for each.
pub proof fn law_placeholder_params(r: ExternRequest, schema: PipelineSchema)
    ensures
        with_dummy_params(r, schema).ctx == r.ctx,
        with_dummy_params(r, schema).pipeline == r.pipeline,
        with_dummy_params(r, schema).kind == r.kind,
        with_dummy_params(r, schema).instance == r.instance,
        with_dummy_params(r, schema).key == r.key,
        with_dummy_params(r, schema).flags == r.flags,
        r.params.len() > 0 ==> with_dummy_params(r, schema).params == r.params,
        with_dummy_params(r, schema).params != r.params ==> {
            let w = with_dummy_params(r, schema).params;
            &&& forall|i: int| 0 <= i < w.len() ==> #[trigger] w[i] == "0"@
            &&& exists|e: int, k: int|
                0 <= e < schema.externs@.len() && 0 <= k < schema.externs@[e].instances@.len()
                    && #[trigger] schema.externs@[e].name@ == r.kind
                    && #[trigger] schema.externs@[e].instances@[k].name@ == r.instance
                    && schema.externs@[e].instances@[k].param_names@.len() == w.len()
        },
        forall|e: int, k: int|
            0 <= e < schema.externs@.len() && 0 <= k < schema.externs@[e].instances@.len()
                && #[trigger] schema.externs@[e].name@ == r.kind
                && #[trigger] schema.externs@[e].instances@[k].name@ == r.instance
                && (forall|e2: int| 0 <= e2 < schema.externs@.len() && #[trigger] schema.externs@[e2].name@ == r.kind ==> e2 == e)
                && (forall|k2: int| 0 <= k2 < schema.externs@[e].instances@.len()
                    && #[trigger] schema.externs@[e].instances@[k2].name@ == r.instance ==> k2 == k)
                && r.params.len() == 0
                && schema.externs@[e].instances@[k].param_names@.len() > 0
                ==> with_dummy_params(r, schema).params == crate::extern_::zeros(
                    schema.externs@[e].instances@[k].param_names@.len(),
                ),
{
    let en = crate::schema::extern_names(schema.externs@);
    crate::schema::lemma_last_index_named(en, r.kind);
    let ei = crate::schema::last_index_named(en, r.kind);
    if ei >= 0 {
        let ext = schema.externs@[ei];
        let inn = crate::schema::instance_names(ext.instances@);
        crate::schema::lemma_last_index_named(inn, r.instance);
        let ii = crate::schema::last_index_named(inn, r.instance);
        if ii >= 0 {
            assert(en[ei] == schema.externs@[ei].name@);
            assert(inn[ii] == ext.instances@[ii].name@);
            let w = with_dummy_params(r, schema).params;
            if w != r.params {
                assert(schema.externs@[ei].name@ == r.kind && schema.externs@[ei].instances@[ii].name@
                    == r.instance);
            }
        }
    }
    assert forall|e: int, k: int|
        0 <= e < schema.externs@.len() && 0 <= k < schema.externs@[e].instances@.len()
            && #[trigger] schema.externs@[e].name@ == r.kind
            && #[trigger] schema.externs@[e].instances@[k].name@ == r.instance
            && (forall|e2: int| 0 <= e2 < schema.externs@.len() && #[trigger] schema.externs@[e2].name@ == r.kind ==> e2 == e)
            && (forall|k2: int| 0 <= k2 < schema.externs@[e].instances@.len()
                && #[trigger] schema.externs@[e].instances@[k2].name@ == r.instance ==> k2 == k)
            && r.params.len() == 0
            && schema.externs@[e].instances@[k].param_names@.len() > 0
        implies with_dummy_params(r, schema).params == crate::extern_::zeros(
            schema.externs@[e].instances@[k].param_names@.len(),
        ) by {
        assert(en[e] == r.kind);
        assert(ei >= 0);
        assert(en[ei] == schema.externs@[ei].name@);
        assert(ei == e);
        let inn = crate::schema::instance_names(schema.externs@[e].instances@);
        crate::schema::lemma_last_index_named(inn, r.instance);
        let ii = crate::schema::last_index_named(inn, r.instance);
        assert(inn[k] == r.instance);
        assert(inn[ii] == schema.externs@[e].instances@[ii].name@);
        assert(ii == k);
    }
}

} // verus!
