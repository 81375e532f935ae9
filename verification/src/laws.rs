use vstd::prelude::*;
use crate::context::subscribe_plan;
use crate::extern_::{extern_plan, ExternRequest};
use crate::plan::{
    all_checked, carries_data, checked, handling_of, CallSpec, CrudOp, FailureSpec, Handling,
    ResponsesSpec, StepSpec,
};
use crate::types::Phase;
use crate::table::{
    action_steps, attr_steps, crud_step, delete_plan, filter_steps, get_plan, insert_plan,
    lookup_body, priority_steps, table_obj_steps, update_body, update_keyed, update_plan,
    TableRequest,
};

verus! {

/// A step that builds the request object: a call, but neither the sending
/// of the request nor the registration of a subscription.
pub open spec fn is_build_step(s: StepSpec) -> bool {
    match s {
        StepSpec::Perform(c, _) => !(c is Crud) && !(c is Subscribe),
        StepSpec::Fail(_) => false,
    }
}

/// Every step of the list builds the request object.
pub open spec fn all_build(p: Seq<StepSpec>) -> bool {
    forall|i: int| 0 <= i < p.len() ==> is_build_step(#[trigger] p[i])
}

/// The steps build the request object and end either with `send`, the one
/// step that sends the request, or with a step that stops the request.
pub open spec fn builds_then_sends(p: Seq<StepSpec>, send: StepSpec) -> bool {
    &&& p.len() > 0
    &&& all_build(p.drop_last())
    &&& (p.last() == send || p.last() is Fail)
}

proof fn lemma_prefix(pre: Seq<StepSpec>, then: Seq<StepSpec>, send: StepSpec)
    requires
        all_build(pre),
        builds_then_sends(then, send),
    ensures
        builds_then_sends(pre + then, send),
{
    let p = pre + then;
    assert(p.last() == then.last());
    assert forall|i: int| 0 <= i < p.drop_last().len() implies is_build_step(
        #[trigger] p.drop_last()[i],
    ) by {
        if i < pre.len() {
            assert(p.drop_last()[i] == pre[i]);
        } else {
            assert(p.drop_last()[i] == then.drop_last()[i - pre.len()]);
        }
    }
}

proof fn lemma_build_concat(a: Seq<StepSpec>, b: Seq<StepSpec>)
    requires
        all_build(a),
        all_build(b),
    ensures
        all_build(a + b),
{
    assert forall|i: int| 0 <= i < (a + b).len() implies is_build_step(#[trigger] (a + b)[i]) by {
        if i < a.len() {
            assert((a + b)[i] == a[i]);
        } else {
            assert((a + b)[i] == b[i - a.len()]);
        }
    }
}

proof fn lemma_stop(s: StepSpec, send: StepSpec)
    requires
        s is Fail,
    ensures
        builds_then_sends(seq![s], send),
{
    assert(seq![s].drop_last() =~= Seq::<StepSpec>::empty());
}

proof fn lemma_checked(s: Seq<char>, what: Seq<char>, then: Seq<StepSpec>, send: StepSpec)
    requires
        builds_then_sends(then, send),
    ensures
        builds_then_sends(checked(s, what, then), send),
{
    if s.contains('\0') {
        lemma_stop(crate::plan::nul_fail(what), send);
    }
}

proof fn lemma_all_checked(v: Seq<Seq<char>>, what: Seq<char>, then: Seq<StepSpec>, send: StepSpec)
    requires
        builds_then_sends(then, send),
    ensures
        builds_then_sends(all_checked(v, what, then), send),
{
    if crate::plan::any_nul(v) {
        lemma_stop(crate::plan::nul_fail(what), send);
    }
}

proof fn lemma_single_build(s: StepSpec)
    requires
        is_build_step(s),
    ensures
        all_build(seq![s]),
{
}

proof fn lemma_action(
    path: Option<Seq<char>>,
    params: Seq<Seq<char>>,
    then: Seq<StepSpec>,
    send: StepSpec,
)
    requires
        builds_then_sends(then, send),
    ensures
        builds_then_sends(action_steps(path, params, then), send),
{
    match path {
        None => {},
        Some(p) => {
            let act = StepSpec::Perform(
                CallSpec::CreateAction { path: p, params },
                FailureSpec::Entry("create_runt_act failed for '"@ + p + "'"@),
            );
            lemma_single_build(act);
            lemma_prefix(seq![act], then, send);
            lemma_all_checked(params, "action param"@, seq![act] + then, send);
            lemma_checked(p, "action path"@, all_checked(params, "action param"@, seq![act] + then), send);
        },
    }
}

proof fn lemma_attrs(r: TableRequest)
    ensures
        all_build(attr_steps(r)),
{
    let a = priority_steps(r.priority);
    let b: Seq<StepSpec> = match r.aging_ms {
        Some(v) => seq![StepSpec::Perform(CallSpec::AgingSet { value: v }, FailureSpec::Ignored)],
        None => Seq::empty(),
    };
    let c: Seq<StepSpec> = match r.profile_id {
        Some(v) => seq![StepSpec::Perform(CallSpec::ProfileIdSet { value: v }, FailureSpec::Ignored)],
        None => Seq::empty(),
    };
    let d: Seq<StepSpec> = match r.permissions {
        Some(v) => seq![
            StepSpec::Perform(CallSpec::PermissionsSet { value: v }, FailureSpec::Ignored),
        ],
        None => Seq::empty(),
    };
    let e: Seq<StepSpec> = match r.dynamic {
        Some(v) => seq![StepSpec::Perform(CallSpec::DynamicSet { value: v }, FailureSpec::Ignored)],
        None => Seq::empty(),
    };
    lemma_build_concat(a, b);
    lemma_build_concat(a + b, c);
    lemma_build_concat(a + b + c, d);
    lemma_build_concat(a + b + c + d, e);
}

proof fn lemma_filter(r: TableRequest, then: Seq<StepSpec>, send: StepSpec)
    requires
        builds_then_sends(then, send),
    ensures
        builds_then_sends(filter_steps(r, then), send),
{
    match r.filter {
        None => {},
        Some(f) => {
            let st = StepSpec::Perform(CallSpec::FilterSet { filter: f }, FailureSpec::Ignored);
            lemma_single_build(st);
            lemma_prefix(seq![st], then, send);
            lemma_checked(f, "filter"@, seq![st] + then, send);
        },
    }
}

proof fn lemma_table_obj(r: TableRequest, then: Seq<StepSpec>, send: StepSpec)
    requires
        builds_then_sends(then, send),
    ensures
        builds_then_sends(table_obj_steps(r, then), send),
{
    let name = crate::table::obj_name_step(r.table);
    let obj = crate::table::obj_create_step(r.pipeline, crate::types::ObjType::Table);
    lemma_single_build(name);
    lemma_prefix(seq![name], then, send);
    lemma_checked(r.table, "table"@, seq![name] + then, send);
    lemma_single_build(obj);
    lemma_prefix(seq![obj], checked(r.table, "table"@, seq![name] + then), send);
    lemma_checked(
        r.pipeline,
        "pipeline"@,
        seq![obj] + checked(r.table, "table"@, seq![name] + then),
        send,
    );
}

proof fn lemma_send_alone(send: StepSpec)
    ensures
        builds_then_sends(seq![send], send),
{
    assert(seq![send].drop_last() =~= Seq::<StepSpec>::empty());
}

/// An insert builds the request object and sends it once, as its last step,
/// or stops with an error before sending.
pub proof fn law_insert_sends_last(r: TableRequest)
    ensures
        builds_then_sends(insert_plan(r), crud_step(CrudOp::Create, r.flags, false, "create"@)),
{
    let send = crud_step(CrudOp::Create, r.flags, false, "create"@);
    let mk = seq![
        crate::table::make_key_step(r.keys),
        crate::table::alloc_step(r.entity),
    ];
    lemma_send_alone(send);
    lemma_action(r.action_path, r.action_params, seq![send], send);
    let acts = action_steps(r.action_path, r.action_params, seq![send]);
    lemma_build_concat(mk, priority_steps(r.priority));
    lemma_prefix(mk + priority_steps(r.priority), acts, send);
    assert(mk + priority_steps(r.priority) + acts == mk + (priority_steps(r.priority) + acts));
    lemma_all_checked(r.keys, "key value"@, mk + priority_steps(r.priority) + acts, send);
    lemma_table_obj(
        r,
        all_checked(r.keys, "key value"@, mk + priority_steps(r.priority) + acts),
        send,
    );
}

/// An update builds the request object and sends it once, as its last step,
/// or stops with an error before sending.
pub proof fn law_update_sends_last(r: TableRequest, with_callback: bool)
    ensures
        builds_then_sends(
            update_plan(r, with_callback),
            crud_step(CrudOp::Update, r.flags, with_callback, "update"@),
        ),
{
    let send = crud_step(CrudOp::Update, r.flags, with_callback, "update"@);
    lemma_send_alone(send);
    if r.keys.len() > 0 {
        let mk = seq![
            crate::table::make_key_step(r.keys),
            crate::table::alloc_step(r.entity),
        ];
        lemma_action(r.action_path, r.action_params, seq![send], send);
        let acts = action_steps(r.action_path, r.action_params, seq![send]);
        lemma_attrs(r);
        lemma_build_concat(mk, attr_steps(r));
        lemma_prefix(mk + attr_steps(r), acts, send);
        lemma_all_checked(r.keys, "key value"@, mk + attr_steps(r) + acts, send);
        assert(update_keyed(r, seq![send]) == all_checked(
            r.keys,
            "key value"@,
            mk + attr_steps(r) + acts,
        ));
    }
    lemma_filter(r, update_body(r, with_callback), send);
    lemma_table_obj(r, filter_steps(r, update_body(r, with_callback)), send);
}

proof fn lemma_lookup(r: TableRequest, send: StepSpec)
    requires
        is_build_step(crate::table::make_key_step(r.keys)),
    ensures
        builds_then_sends(
            table_obj_steps(r, filter_steps(r, lookup_body(r.keys, send))),
            send,
        ),
{
    lemma_send_alone(send);
    if r.keys.len() > 0 {
        let mk = seq![
            crate::table::make_key_step(r.keys),
            crate::table::alloc_step(crate::types::Entity::Kernel),
        ];
        lemma_prefix(mk, seq![send], send);
        assert(mk + seq![send] =~= seq![
            crate::table::make_key_step(r.keys),
            crate::table::alloc_step(crate::types::Entity::Kernel),
            send,
        ]);
        lemma_all_checked(r.keys, "key value"@, mk + seq![send], send);
    }
    lemma_filter(r, lookup_body(r.keys, send), send);
    lemma_table_obj(r, filter_steps(r, lookup_body(r.keys, send)), send);
}

/// A delete builds the request object and sends it once, as its last step,
/// or stops with an error before sending; without keys it builds no key
/// and no entry, and so reaches every entry the filter lets through.
pub proof fn law_delete_sends_last(r: TableRequest, with_callback: bool)
    ensures
        builds_then_sends(
            delete_plan(r, with_callback),
            crud_step(CrudOp::Delete, r.flags, with_callback, "delete"@),
        ),
        r.keys.len() == 0 ==> lookup_body(
            r.keys,
            crud_step(CrudOp::Delete, r.flags, with_callback, "delete"@),
        ) == seq![crud_step(CrudOp::Delete, r.flags, with_callback, "delete"@)],
{
    lemma_lookup(r, crud_step(CrudOp::Delete, r.flags, with_callback, "delete"@));
}

/// A read builds the request object and sends it once, as its last step,
/// or stops with an error before sending; without keys it builds no key and
/// no entry, and so reads every entry the filter lets through.
pub proof fn law_get_sends_last(r: TableRequest)
    ensures
        builds_then_sends(get_plan(r), crud_step(CrudOp::Get, r.flags, true, "get"@)),
        r.keys.len() == 0 ==> lookup_body(r.keys, crud_step(CrudOp::Get, r.flags, true, "get"@))
            == seq![crud_step(CrudOp::Get, r.flags, true, "get"@)],
{
    lemma_lookup(r, crud_step(CrudOp::Get, r.flags, true, "get"@));
}

/// An extern request builds the request object with its instance and sends
/// it once, as its last step, or stops with an error before sending.
pub proof fn law_extern_sends_last(r: ExternRequest, op: CrudOp, with_callback: bool, name: Seq<char>)
    ensures
        builds_then_sends(
            extern_plan(r, op, with_callback, name),
            crud_step(op, r.flags, with_callback, name),
        ),
{
    let send = crud_step(op, r.flags, with_callback, name);
    let ext = StepSpec::Perform(
        CallSpec::CreateExtern { kind: r.kind, instance: r.instance, key: r.key, params: r.params },
        FailureSpec::Entry("create_runt_ext failed for '"@ + r.kind + "/"@ + r.instance + "'"@),
    );
    assert(seq![ext, send].drop_last() =~= seq![ext]);
    lemma_all_checked(r.params, "param"@, seq![ext, send], send);
    let a = all_checked(r.params, "param"@, seq![ext, send]);
    lemma_checked(r.instance, "instance"@, a, send);
    lemma_checked(r.kind, "kind"@, checked(r.instance, "instance"@, a), send);
    let obj = crate::table::obj_create_step(r.pipeline, crate::types::ObjType::Extern);
    lemma_single_build(obj);
    lemma_prefix(seq![obj], checked(r.kind, "kind"@, checked(r.instance, "instance"@, a)), send);
    lemma_checked(
        r.pipeline,
        "pipeline"@,
        seq![obj] + checked(r.kind, "kind"@, checked(r.instance, "instance"@, a)),
        send,
    );
}

/// A subscription builds its request object and registers it once, as its
/// last step, or stops with an error before registering.
pub proof fn law_subscribe_registers_last(
    pipeline: Seq<char>,
    table: Seq<char>,
    filter: Option<Seq<char>>,
)
    ensures
        builds_then_sends(
            subscribe_plan(pipeline, table, filter),
            StepSpec::Perform(CallSpec::Subscribe { flags: 0 }, FailureSpec::Subscribe),
        ),
{
    let send = StepSpec::Perform(CallSpec::Subscribe { flags: 0 }, FailureSpec::Subscribe);
    let pre = seq![
        StepSpec::Perform(
            CallSpec::ObjCreate { pipeline, obj_type: crate::types::ObjType::Table },
            FailureSpec::Object("p4tc_obj_create failed for subscribe"@),
        ),
        crate::table::obj_name_step(table),
    ];
    let fs: Seq<StepSpec> = match filter {
        Some(f) => seq![StepSpec::Perform(CallSpec::FilterSet { filter: f }, FailureSpec::Ignored)],
        None => Seq::empty(),
    };
    lemma_build_concat(pre, fs);
    lemma_send_alone(send);
    lemma_prefix(pre + fs, seq![send], send);
    let body = pre + fs + seq![send];
    match filter {
        Some(f) => {
            lemma_checked(f, "filter"@, body, send);
            lemma_checked(table, "table"@, checked(f, "filter"@, body), send);
            lemma_checked(pipeline, "pipeline"@, checked(table, "table"@, checked(f, "filter"@, body)), send);
        },
        None => {
            lemma_checked(table, "table"@, body, send);
            lemma_checked(pipeline, "pipeline"@, checked(table, "table"@, body), send);
        },
    }
}

/// A callback that receives entries (of a read, an extern request or a
/// subscription) is handed exactly the responses that carry data, those at
/// the start or in the middle of a transaction holding an object; one that
/// receives phases (of an update or a delete) is handed every response; no
/// response reaches a request sent without a callback.
pub proof fn law_callback_delivery(r: ResponsesSpec, phase: Phase, has_obj: bool)
    ensures
        r is TableEntries ==> (handling_of(r, phase, has_obj) == Handling::ReadTableEntries
            <==> carries_data(phase, has_obj)),
        r is TableEntries ==> (handling_of(r, phase, has_obj) == Handling::Skip
            <==> !carries_data(phase, has_obj)),
        r is ExternEntries ==> (handling_of(r, phase, has_obj) == Handling::ReadExternEntries
            <==> carries_data(phase, has_obj)),
        r is ExternEntries ==> (handling_of(r, phase, has_obj) == Handling::Skip
            <==> !carries_data(phase, has_obj)),
        !carries_data(Phase::Eot, has_obj) && !carries_data(Phase::Abt, has_obj) && !carries_data(
            Phase::Unspec,
            has_obj,
        ),
        r is Phases ==> handling_of(r, phase, has_obj) == Handling::PassPhase,
        r is Unread ==> handling_of(r, phase, has_obj) == Handling::Skip,
{
}

} // verus!
