use vstd::prelude::*;
use crate::context::Context;
use crate::plan::{
    all_checked, any_has_nul, checked, copy_strings, nul_error, nul_fail, steps_view, Call, CallSpec,
    CrudOp, Failure, FailureSpec, Plan, Responses, ResponsesSpec, Step, StepSpec,
};
use crate::text::{has_nul, owned};
use crate::types::{Entity, MsgFlags, ObjType};

verus! {

/// What a table request says: the context, pipeline and table it is on, the
/// key field values, the action with its parameters, the entry attributes,
/// the entity, the filter and the message flags.
pub struct TableRequest {
    pub ctx: u64,
    pub pipeline: Seq<char>,
    pub table: Seq<char>,
    pub keys: Seq<Seq<char>>,
    pub action_path: Option<Seq<char>>,
    pub action_params: Seq<Seq<char>>,
    pub priority: u32,
    pub aging_ms: Option<u32>,
    pub profile_id: Option<u32>,
    pub permissions: Option<u32>,
    pub dynamic: Option<bool>,
    pub entity: Entity,
    pub filter: Option<Seq<char>>,
    pub flags: u32,
}

/// A fresh request on `table` of `pipeline`: no key, no action, priority
/// zero, no other attribute, entity `Tc`, no filter, no message flag.
pub open spec fn initial_request(ctx: u64, pipeline: Seq<char>, table: Seq<char>) -> TableRequest {
    TableRequest {
        ctx,
        pipeline,
        table,
        keys: Seq::empty(),
        action_path: None,
        action_params: Seq::empty(),
        priority: 0,
        aging_ms: None,
        profile_id: None,
        permissions: None,
        dynamic: None,
        entity: Entity::Tc,
        filter: None,
        flags: 0,
    }
}

/// Creating the request object for a pipeline's table.
pub open spec fn obj_create_step(pipeline: Seq<char>, obj_type: ObjType) -> StepSpec {
    StepSpec::Perform(
        CallSpec::ObjCreate { pipeline, obj_type },
        FailureSpec::Object("obj_create failed for '"@ + pipeline + "'"@),
    )
}

/// Naming the table the request is on.
pub open spec fn obj_name_step(table: Seq<char>) -> StepSpec {
    StepSpec::Perform(CallSpec::ObjNameSet { name: table }, FailureSpec::Ignored)
}

/// Building the key from its field values.
pub open spec fn make_key_step(keys: Seq<Seq<char>>) -> StepSpec {
    StepSpec::Perform(CallSpec::MakeKey { values: keys }, FailureSpec::Key("make_key failed"@))
}

/// Attaching the entry for the key.
pub open spec fn alloc_step(entity: Entity) -> StepSpec {
    StepSpec::Perform(
        CallSpec::AllocEntry { entity },
        FailureSpec::Entry("alloc_tbl_entry failed"@),
    )
}

/// Sending the request.
pub open spec fn crud_step(op: CrudOp, flags: u32, with_callback: bool, name: Seq<char>) -> StepSpec {
    StepSpec::Perform(CallSpec::Crud { op, flags, with_callback }, FailureSpec::Crud(name))
}

/// Setting the priority, where it is not zero.
pub open spec fn priority_steps(priority: u32) -> Seq<StepSpec> {
    if priority > 0 {
        seq![StepSpec::Perform(CallSpec::PrioritySet { value: priority }, FailureSpec::Ignored)]
    } else {
        Seq::empty()
    }
}

/// Setting the entry attributes that were given: priority (where not zero),
/// aging, profile, permissions, dynamic, in this order.
pub open spec fn attr_steps(r: TableRequest) -> Seq<StepSpec> {
    priority_steps(r.priority) + match r.aging_ms {
        Some(v) => seq![StepSpec::Perform(CallSpec::AgingSet { value: v }, FailureSpec::Ignored)],
        None => Seq::empty(),
    } + match r.profile_id {
        Some(v) => seq![StepSpec::Perform(CallSpec::ProfileIdSet { value: v }, FailureSpec::Ignored)],
        None => Seq::empty(),
    } + match r.permissions {
        Some(v) => seq![
            StepSpec::Perform(CallSpec::PermissionsSet { value: v }, FailureSpec::Ignored),
        ],
        None => Seq::empty(),
    } + match r.dynamic {
        Some(v) => seq![StepSpec::Perform(CallSpec::DynamicSet { value: v }, FailureSpec::Ignored)],
        None => Seq::empty(),
    }
}

/// Attaching the action with its parameters, where one was given, then `then`.
pub open spec fn action_steps(
    action_path: Option<Seq<char>>,
    action_params: Seq<Seq<char>>,
    then: Seq<StepSpec>,
) -> Seq<StepSpec> {
    match action_path {
        None => then,
        Some(path) => checked(
            path,
            "action path"@,
            all_checked(
                action_params,
                "action param"@,
                seq![
                    StepSpec::Perform(
                        CallSpec::CreateAction { path, params: action_params },
                        FailureSpec::Entry("create_runt_act failed for '"@ + path + "'"@),
                    ),
                ] + then,
            ),
        ),
    }
}

/// Setting the filter, where one was given, then `then`.
pub open spec fn filter_steps(r: TableRequest, then: Seq<StepSpec>) -> Seq<StepSpec> {
    match r.filter {
        None => then,
        Some(f) => checked(
            f,
            "filter"@,
            seq![StepSpec::Perform(CallSpec::FilterSet { filter: f }, FailureSpec::Ignored)] + then,
        ),
    }
}

/// The request object for the pipeline and table, then `then`.
pub open spec fn table_obj_steps(r: TableRequest, then: Seq<StepSpec>) -> Seq<StepSpec> {
    checked(
        r.pipeline,
        "pipeline"@,
        seq![obj_create_step(r.pipeline, ObjType::Table)] + checked(
            r.table,
            "table"@,
            seq![obj_name_step(r.table)] + then,
        ),
    )
}

/// The steps of an insert: the object, the key and the entry (with its
/// priority, where not zero), the action where one was given, and the
/// `create` request.
pub open spec fn insert_plan(r: TableRequest) -> Seq<StepSpec> {
    table_obj_steps(
        r,
        all_checked(
            r.keys,
            "key value"@,
            seq![make_key_step(r.keys), alloc_step(r.entity)] + priority_steps(r.priority)
                + action_steps(r.action_path, r.action_params, seq![crud_step(CrudOp::Create, r.flags, false, "create"@)]),
        ),
    )
}

/// The keyed part of an update: the key and the entry with its attributes
/// and action, then `send`.
pub open spec fn update_keyed(r: TableRequest, send: Seq<StepSpec>) -> Seq<StepSpec> {
    all_checked(
        r.keys,
        "key value"@,
        seq![make_key_step(r.keys), alloc_step(r.entity)] + attr_steps(r) + action_steps(
            r.action_path,
            r.action_params,
            send,
        ),
    )
}

/// What an update does after its object and filter: where keys were given,
/// the keyed part; then the `update` request.
pub open spec fn update_body(r: TableRequest, with_callback: bool) -> Seq<StepSpec> {
    let send = seq![crud_step(CrudOp::Update, r.flags, with_callback, "update"@)];
    if r.keys.len() > 0 {
        update_keyed(r, send)
    } else {
        send
    }
}

/// The steps of an update: the object, the filter, and, where keys were
/// given, the key and entry with its attributes and action; then the
/// `update` request.
pub open spec fn update_plan(r: TableRequest, with_callback: bool) -> Seq<StepSpec> {
    table_obj_steps(r, filter_steps(r, update_body(r, with_callback)))
}

/// What a delete or a read does after its object and filter: where keys
/// were given, the key and a kernel entry for it; then the request.
pub open spec fn lookup_body(keys: Seq<Seq<char>>, send: StepSpec) -> Seq<StepSpec> {
    if keys.len() > 0 {
        all_checked(keys, "key value"@, seq![make_key_step(keys), alloc_step(Entity::Kernel), send])
    } else {
        seq![send]
    }
}

/// The steps of a delete or a read: the object, the filter, and, where keys
/// were given, the key and a kernel entry for it; then the request.
pub open spec fn lookup_plan(r: TableRequest, send: StepSpec) -> Seq<StepSpec> {
    table_obj_steps(r, filter_steps(r, lookup_body(r.keys, send)))
}

/// The steps of a delete.
pub open spec fn delete_plan(r: TableRequest, with_callback: bool) -> Seq<StepSpec> {
    lookup_plan(r, crud_step(CrudOp::Delete, r.flags, with_callback, "delete"@))
}

/// The steps of a read; its responses always go to a callback.
pub open spec fn get_plan(r: TableRequest) -> Seq<StepSpec> {
    lookup_plan(r, crud_step(CrudOp::Get, r.flags, true, "get"@))
}

/// Appends the object creation and table naming steps; false where a step
/// stopping the request was appended.
fn push_table_obj(steps: &mut Vec<Step>, pipeline: &str, table: &str) -> (ok: bool)
    ensures
        ok ==> steps_view(final(steps)@) == steps_view(old(steps)@) + seq![
            obj_create_step(pipeline@, ObjType::Table),
            obj_name_step(table@),
        ],
        ok ==> !pipeline@.contains('\0') && !table@.contains('\0'),
        !ok ==> steps_view(final(steps)@) == steps_view(old(steps)@) + checked(
            pipeline@,
            "pipeline"@,
            seq![obj_create_step(pipeline@, ObjType::Table)] + checked(table@, "table"@, Seq::empty()),
        ),
        !ok ==> pipeline@.contains('\0') || table@.contains('\0'),
{
    let ghost before = steps_view(steps@);
    if has_nul(pipeline) {
        steps.push(Step::Fail(nul_error("pipeline")));
        assert(steps_view(steps@) =~= before + seq![nul_fail("pipeline"@)]);
        return false;
    }
    let mut msg = String::from_str("obj_create failed for '");
    msg.append(pipeline);
    msg.append("'");
    steps.push(
        Step::Perform(
            Call::ObjCreate { pipeline: owned(pipeline), obj_type: ObjType::Table },
            Failure::Object(msg),
        ),
    );
    if has_nul(table) {
        steps.push(Step::Fail(nul_error("table")));
        assert(steps_view(steps@) =~= before + seq![
            obj_create_step(pipeline@, ObjType::Table),
            nul_fail("table"@),
        ]);
        return false;
    }
    steps.push(Step::Perform(Call::ObjNameSet { name: owned(table) }, Failure::Ignored));
    assert(steps_view(steps@) =~= before + seq![
        obj_create_step(pipeline@, ObjType::Table),
        obj_name_step(table@),
    ]);
    true
}

/// Appends the filter step, where a filter was given; false where a step
/// stopping the request was appended.
fn push_filter(steps: &mut Vec<Step>, filter: &Option<String>) -> (ok: bool)
    ensures
        ok ==> steps_view(final(steps)@) == steps_view(old(steps)@) + match filter {
            Some(f) => seq![StepSpec::Perform(CallSpec::FilterSet { filter: f@ }, FailureSpec::Ignored)],
            None => Seq::<StepSpec>::empty(),
        },
        ok <==> !(filter matches Some(f) && f@.contains('\0')),
        !ok ==> steps_view(final(steps)@) == steps_view(old(steps)@) + seq![nul_fail("filter"@)],
{
    let ghost before = steps_view(steps@);
    match filter {
        Some(f) => {
            if has_nul(f.as_str()) {
                steps.push(Step::Fail(nul_error("filter")));
                assert(steps_view(steps@) =~= before + seq![nul_fail("filter"@)]);
                return false;
            }
            steps.push(Step::Perform(Call::FilterSet { filter: f.clone() }, Failure::Ignored));
            assert(steps_view(steps@) =~= before + seq![
                StepSpec::Perform(CallSpec::FilterSet { filter: f@ }, FailureSpec::Ignored),
            ]);
            true
        },
        None => {
            assert(steps_view(steps@) =~= before + Seq::<StepSpec>::empty());
            true
        },
    }
}

/// Appends the key and entry steps; false where a step stopping the request
/// was appended.
fn push_key_entry(steps: &mut Vec<Step>, keys: &Vec<String>, entity: Entity) -> (ok: bool)
    ensures
        ok == !crate::plan::any_nul(keys.deep_view()),
        ok ==> steps_view(final(steps)@) == steps_view(old(steps)@) + seq![
            make_key_step(keys.deep_view()),
            alloc_step(entity),
        ],
        !ok ==> steps_view(final(steps)@) == steps_view(old(steps)@) + seq![nul_fail("key value"@)],
{
    let ghost before = steps_view(steps@);
    if any_has_nul(keys) {
        steps.push(Step::Fail(nul_error("key value")));
        assert(steps_view(steps@) =~= before + seq![nul_fail("key value"@)]);
        return false;
    }
    steps.push(
        Step::Perform(
            Call::MakeKey { values: copy_strings(keys) },
            Failure::Key(String::from_str("make_key failed")),
        ),
    );
    steps.push(
        Step::Perform(
            Call::AllocEntry { entity },
            Failure::Entry(String::from_str("alloc_tbl_entry failed")),
        ),
    );
    assert(steps_view(steps@) =~= before + seq![make_key_step(keys.deep_view()), alloc_step(entity)]);
    true
}

/// Appends the action step, where an action was given; false where a step
/// stopping the request was appended.
fn push_action(
    steps: &mut Vec<Step>,
    path: &Option<String>,
    params: &Vec<String>,
    Ghost(then): Ghost<Seq<StepSpec>>,
) -> (ok: bool)
    ensures
        ({
            let pv = match path {
                Some(p) => Some(p@),
                None => None,
            };
            &&& ok ==> steps_view(final(steps)@) + then == steps_view(old(steps)@) + action_steps(
                pv,
                params.deep_view(),
                then,
            )
            &&& !ok ==> steps_view(final(steps)@) == steps_view(old(steps)@) + action_steps(
                pv,
                params.deep_view(),
                then,
            )
        }),
{
    let ghost before = steps_view(steps@);
    match path {
        Some(p) => {
            if has_nul(p.as_str()) {
                steps.push(Step::Fail(nul_error("action path")));
                assert(steps_view(steps@) =~= before + seq![nul_fail("action path"@)]);
                return false;
            }
            if any_has_nul(params) {
                steps.push(Step::Fail(nul_error("action param")));
                assert(steps_view(steps@) =~= before + seq![nul_fail("action param"@)]);
                return false;
            }
            let mut msg = String::from_str("create_runt_act failed for '");
            msg.append(p.as_str());
            msg.append("'");
            steps.push(
                Step::Perform(
                    Call::CreateAction { path: p.clone(), params: copy_strings(params) },
                    Failure::Entry(msg),
                ),
            );
            let ghost step = StepSpec::Perform(
                CallSpec::CreateAction { path: p@, params: params.deep_view() },
                FailureSpec::Entry("create_runt_act failed for '"@ + p@ + "'"@),
            );
            assert(steps_view(steps@) =~= before.push(step));
            assert(steps_view(steps@) + then =~= before + (seq![step] + then));
            true
        },
        None => {
            assert(steps_view(steps@) =~= before);
            true
        },
    }
}

/// The send step.
fn crud(op: CrudOp, flags: u32, with_callback: bool, name: &str) -> (s: Step)
    ensures
        s@ == crud_step(op, flags, with_callback, name@),
{
    Step::Perform(Call::Crud { op, flags, with_callback }, Failure::Crud(owned(name)))
}

/// A request inserting one entry into a table.
pub struct InsertBuilder<'a> {
    ctx: &'a Context,
    pipeline: &'a str,
    table: &'a str,
    keys: Vec<String>,
    action_path: Option<String>,
    action_params: Vec<String>,
    priority: u32,
    entity: Entity,
    flags: MsgFlags,
}

impl<'a> View for InsertBuilder<'a> {
    type V = TableRequest;

    closed spec fn view(&self) -> TableRequest {
        TableRequest {
            ctx: self.ctx.spec_handle(),
            pipeline: self.pipeline@,
            table: self.table@,
            keys: self.keys.deep_view(),
            action_path: match self.action_path {
                Some(p) => Some(p@),
                None => None,
            },
            action_params: self.action_params.deep_view(),
            priority: self.priority,
            aging_ms: None,
            profile_id: None,
            permissions: None,
            dynamic: None,
            entity: self.entity,
            filter: None,
            flags: self.flags.spec_bits(),
        }
    }
}

impl<'a> InsertBuilder<'a> {
    pub(crate) fn new(ctx: &'a Context, pipeline: &'a str, table: &'a str) -> (b: Self)
        ensures
            b@ == initial_request(ctx.spec_handle(), pipeline@, table@),
    {
        let b = InsertBuilder {
            ctx,
            pipeline,
            table,
            keys: Vec::new(),
            action_path: None,
            action_params: Vec::new(),
            priority: 0,
            entity: Entity::Tc,
            flags: MsgFlags::empty(),
        };
        assert(b.keys.deep_view() =~= Seq::<Seq<char>>::empty());
        assert(b.action_params.deep_view() =~= Seq::<Seq<char>>::empty());
        assert(b@ =~= initial_request(ctx.spec_handle(), pipeline@, table@));
        b
    }

    /// Adds a key field value, after those given before.
    pub fn key(self, value: &str) -> (b: Self)
        ensures
            b@ == (TableRequest { keys: self@.keys.push(value@), ..self@ }),
    {
        let mut b = self;
        let ghost before = b.keys.deep_view();
        b.keys.push(owned(value));
        assert(b.keys.deep_view() =~= before.push(value@));
        b
    }

    /// Sets the action, replacing one given before.
    pub fn action(self, path: &str) -> (b: Self)
        ensures
            b@ == (TableRequest { action_path: Some(path@), ..self@ }),
    {
        let mut b = self;
        b.action_path = Some(owned(path));
        b
    }

    /// Adds an action parameter value, after those given before.
    pub fn param(self, value: &str) -> (b: Self)
        ensures
            b@ == (TableRequest { action_params: self@.action_params.push(value@), ..self@ }),
    {
        let mut b = self;
        let ghost before = b.action_params.deep_view();
        b.action_params.push(owned(value));
        assert(b.action_params.deep_view() =~= before.push(value@));
        b
    }

    /// Sets the entry priority; zero leaves the library's default.
    pub fn priority(self, prio: u32) -> (b: Self)
        ensures
            b@ == (TableRequest { priority: prio, ..self@ }),
    {
        let mut b = self;
        b.priority = prio;
        b
    }

    /// Sets the entity the entry is created for.
    pub fn entity(self, entity: Entity) -> (b: Self)
        ensures
            b@ == (TableRequest { entity, ..self@ }),
    {
        let mut b = self;
        b.entity = entity;
        b
    }

    /// The steps that carry out the insert.
    pub fn execute(self) -> (p: Plan)
        ensures
            p.ctx == self@.ctx,
            steps_view(p.steps@) == insert_plan(self@),
            p.responses@ == ResponsesSpec::Unread,
    {
        let mut steps: Vec<Step> = Vec::new();
        let ghost r = self@;
        let ghost tail = seq![crud_step(CrudOp::Create, r.flags, false, "create"@)];
        assert(steps_view(steps@) =~= Seq::<StepSpec>::empty());
        if !push_table_obj(&mut steps, self.pipeline, self.table) {
            assert(steps_view(steps@) =~= insert_plan(r));
            return Plan { ctx: self.ctx.handle(), steps, responses: Responses::Unread };
        }
        let ghost s1 = steps_view(steps@);
        if !push_key_entry(&mut steps, &self.keys, self.entity) {
            assert(steps_view(steps@) =~= insert_plan(r));
            return Plan { ctx: self.ctx.handle(), steps, responses: Responses::Unread };
        }
        let ghost s2 = steps_view(steps@);
        if self.priority > 0 {
            steps.push(Step::Perform(Call::PrioritySet { value: self.priority }, Failure::Ignored));
        }
        assert(steps_view(steps@) =~= s2 + priority_steps(r.priority));
        let ghost s3 = steps_view(steps@);
        assert(r.action_path == match self.action_path {
            Some(p) => Some(p@),
            None => None,
        });
        assert(r.action_params == self.action_params.deep_view());
        if !push_action(&mut steps, &self.action_path, &self.action_params, Ghost(tail)) {
            assert(steps_view(steps@) == s3 + action_steps(r.action_path, r.action_params, tail));
            assert(steps_view(steps@) =~= insert_plan(r));
            return Plan { ctx: self.ctx.handle(), steps, responses: Responses::Unread };
        }
        let ghost s4 = steps_view(steps@);
        assert(s4 + tail == s3 + action_steps(r.action_path, r.action_params, tail));
        steps.push(crud(CrudOp::Create, self.flags.bits(), false, "create"));
        assert(steps_view(steps@) =~= s4 + tail);
        assert(steps_view(steps@) =~= insert_plan(r));
        Plan { ctx: self.ctx.handle(), steps, responses: Responses::Unread }
    }
}

/// Entry attributes of an update; each is set only where given (a zero
/// priority counts as not given).
#[derive(Debug, Clone, Copy)]
pub(crate) struct EntryAttrs {
    pub(crate) priority: u32,
    pub(crate) aging_ms: Option<u32>,
    pub(crate) profile_id: Option<u32>,
    pub(crate) permissions: Option<u32>,
    pub(crate) dynamic: Option<bool>,
}

/// Appends the steps setting the given attributes.
fn push_attrs(steps: &mut Vec<Step>, attrs: &EntryAttrs, Ghost(r): Ghost<TableRequest>)
    requires
        r.priority == attrs.priority,
        r.aging_ms == attrs.aging_ms,
        r.profile_id == attrs.profile_id,
        r.permissions == attrs.permissions,
        r.dynamic == attrs.dynamic,
    ensures
        steps_view(final(steps)@) == steps_view(old(steps)@) + attr_steps(r),
{
    let ghost s0 = steps_view(steps@);
    if attrs.priority > 0 {
        steps.push(Step::Perform(Call::PrioritySet { value: attrs.priority }, Failure::Ignored));
    }
    let ghost s1 = steps_view(steps@);
    assert(s1 =~= s0 + priority_steps(r.priority));
    match attrs.aging_ms {
        Some(v) => steps.push(Step::Perform(Call::AgingSet { value: v }, Failure::Ignored)),
        None => {},
    }
    let ghost s2 = steps_view(steps@);
    match attrs.profile_id {
        Some(v) => steps.push(Step::Perform(Call::ProfileIdSet { value: v }, Failure::Ignored)),
        None => {},
    }
    let ghost s3 = steps_view(steps@);
    match attrs.permissions {
        Some(v) => steps.push(Step::Perform(Call::PermissionsSet { value: v }, Failure::Ignored)),
        None => {},
    }
    let ghost s4 = steps_view(steps@);
    match attrs.dynamic {
        Some(v) => steps.push(Step::Perform(Call::DynamicSet { value: v }, Failure::Ignored)),
        None => {},
    }
    assert(steps_view(steps@) =~= s0 + attr_steps(r));
}

/// A request updating entries of a table.
pub struct UpdateBuilder<'a> {
    ctx: &'a Context,
    pipeline: &'a str,
    table: &'a str,
    keys: Vec<String>,
    action_path: Option<String>,
    action_params: Vec<String>,
    attrs: EntryAttrs,
    entity: Entity,
    filter: Option<String>,
    flags: MsgFlags,
}

impl<'a> View for UpdateBuilder<'a> {
    type V = TableRequest;

    closed spec fn view(&self) -> TableRequest {
        TableRequest {
            ctx: self.ctx.spec_handle(),
            pipeline: self.pipeline@,
            table: self.table@,
            keys: self.keys.deep_view(),
            action_path: match self.action_path {
                Some(p) => Some(p@),
                None => None,
            },
            action_params: self.action_params.deep_view(),
            priority: self.attrs.priority,
            aging_ms: self.attrs.aging_ms,
            profile_id: self.attrs.profile_id,
            permissions: self.attrs.permissions,
            dynamic: self.attrs.dynamic,
            entity: self.entity,
            filter: match self.filter {
                Some(f) => Some(f@),
                None => None,
            },
            flags: self.flags.spec_bits(),
        }
    }
}

impl<'a> UpdateBuilder<'a> {
    pub(crate) fn new(ctx: &'a Context, pipeline: &'a str, table: &'a str) -> (b: Self)
        ensures
            b@ == initial_request(ctx.spec_handle(), pipeline@, table@),
    {
        let b = UpdateBuilder {
            ctx,
            pipeline,
            table,
            keys: Vec::new(),
            action_path: None,
            action_params: Vec::new(),
            attrs: EntryAttrs {
                priority: 0,
                aging_ms: None,
                profile_id: None,
                permissions: None,
                dynamic: None,
            },
            entity: Entity::Tc,
            filter: None,
            flags: MsgFlags::empty(),
        };
        assert(b.keys.deep_view() =~= Seq::<Seq<char>>::empty());
        assert(b.action_params.deep_view() =~= Seq::<Seq<char>>::empty());
        assert(b@ =~= initial_request(ctx.spec_handle(), pipeline@, table@));
        b
    }

    /// Adds a key field value, after those given before.
    pub fn key(self, value: &str) -> (b: Self)
        ensures
            b@ == (TableRequest { keys: self@.keys.push(value@), ..self@ }),
    {
        let mut b = self;
        let ghost before = b.keys.deep_view();
        b.keys.push(owned(value));
        assert(b.keys.deep_view() =~= before.push(value@));
        b
    }

    /// Sets the action, replacing one given before.
    pub fn action(self, path: &str) -> (b: Self)
        ensures
            b@ == (TableRequest { action_path: Some(path@), ..self@ }),
    {
        let mut b = self;
        b.action_path = Some(owned(path));
        b
    }

    /// Adds an action parameter value, after those given before.
    pub fn param(self, value: &str) -> (b: Self)
        ensures
            b@ == (TableRequest { action_params: self@.action_params.push(value@), ..self@ }),
    {
        let mut b = self;
        let ghost before = b.action_params.deep_view();
        b.action_params.push(owned(value));
        assert(b.action_params.deep_view() =~= before.push(value@));
        b
    }

    /// Sets the entry priority; zero leaves it as it is.
    pub fn priority(self, v: u32) -> (b: Self)
        ensures
            b@ == (TableRequest { priority: v, ..self@ }),
    {
        let mut b = self;
        b.attrs.priority = v;
        b
    }

    /// Sets the entry's aging time in milliseconds.
    pub fn aging_ms(self, v: u32) -> (b: Self)
        ensures
            b@ == (TableRequest { aging_ms: Some(v), ..self@ }),
    {
        let mut b = self;
        b.attrs.aging_ms = Some(v);
        b
    }

    /// Sets the entry's profile.
    pub fn profile_id(self, v: u32) -> (b: Self)
        ensures
            b@ == (TableRequest { profile_id: Some(v), ..self@ }),
    {
        let mut b = self;
        b.attrs.profile_id = Some(v);
        b
    }

    /// Sets the entry's permissions.
    pub fn permissions(self, v: u32) -> (b: Self)
        ensures
            b@ == (TableRequest { permissions: Some(v), ..self@ }),
    {
        let mut b = self;
        b.attrs.permissions = Some(v);
        b
    }

    /// Sets whether the entry is dynamic.
    pub fn dynamic(self, v: bool) -> (b: Self)
        ensures
            b@ == (TableRequest { dynamic: Some(v), ..self@ }),
    {
        let mut b = self;
        b.attrs.dynamic = Some(v);
        b
    }

    /// Sets the entity the entry is updated for.
    pub fn entity(self, entity: Entity) -> (b: Self)
        ensures
            b@ == (TableRequest { entity, ..self@ }),
    {
        let mut b = self;
        b.entity = entity;
        b
    }

    /// Sets the filter expression, replacing one given before.
    pub fn filter(self, f: &str) -> (b: Self)
        ensures
            b@ == (TableRequest { filter: Some(f@), ..self@ }),
    {
        let mut b = self;
        b.filter = Some(owned(f));
        b
    }

    fn push_keyed(&self, steps: &mut Vec<Step>, with_callback: bool)
        ensures
            steps_view(final(steps)@) == steps_view(old(steps)@) + update_keyed(
                self@,
                seq![crud_step(CrudOp::Update, self@.flags, with_callback, "update"@)],
            ),
    {
        let ghost r = self@;
        let ghost s0 = steps_view(steps@);
        let ghost send = seq![crud_step(CrudOp::Update, r.flags, with_callback, "update"@)];
        if !push_key_entry(steps, &self.keys, self.entity) {
            assert(steps_view(steps@) =~= s0 + update_keyed(r, send));
            return;
        }
        let ghost s1 = steps_view(steps@);
        push_attrs(steps, &self.attrs, Ghost(r));
        let ghost s2 = steps_view(steps@);
        assert(s2 == s1 + attr_steps(r));
        assert(r.action_path == match self.action_path {
            Some(p) => Some(p@),
            None => None,
        });
        assert(r.action_params == self.action_params.deep_view());
        let ghost acts = action_steps(r.action_path, r.action_params, send);
        assert(update_keyed(r, send) == seq![make_key_step(r.keys), alloc_step(r.entity)]
            + attr_steps(r) + acts);
        if !push_action(steps, &self.action_path, &self.action_params, Ghost(send)) {
            assert(steps_view(steps@) == s2 + acts);
            assert(steps_view(steps@) =~= s0 + update_keyed(r, send));
            return;
        }
        let ghost s3 = steps_view(steps@);
        assert(s3 + send == s2 + acts);
        steps.push(crud(CrudOp::Update, self.flags.bits(), with_callback, "update"));
        assert(steps_view(steps@) =~= s3 + send);
        assert(steps_view(steps@) =~= s0 + update_keyed(r, send));
    }

    fn push_body(&self, steps: &mut Vec<Step>, with_callback: bool)
        ensures
            steps_view(final(steps)@) == steps_view(old(steps)@) + update_body(self@, with_callback),
    {
        let ghost r = self@;
        let ghost s0 = steps_view(steps@);
        if self.keys.len() > 0 {
            self.push_keyed(steps, with_callback);
            assert(steps_view(steps@) =~= s0 + update_body(r, with_callback));
        } else {
            steps.push(crud(CrudOp::Update, self.flags.bits(), with_callback, "update"));
            assert(steps_view(steps@) =~= s0 + update_body(r, with_callback));
        }
    }

    fn build(&self, with_callback: bool) -> (p: Plan)
        ensures
            p.ctx == self@.ctx,
            steps_view(p.steps@) == update_plan(self@, with_callback),
            p.responses@ == ResponsesSpec::Unread,
    {
        let mut steps: Vec<Step> = Vec::new();
        let ghost r = self@;
        assert(steps_view(steps@) =~= Seq::<StepSpec>::empty());
        if !push_table_obj(&mut steps, self.pipeline, self.table) {
            assert(steps_view(steps@) =~= update_plan(r, with_callback));
            return Plan { ctx: self.ctx.handle(), steps, responses: Responses::Unread };
        }
        let ghost s1 = steps_view(steps@);
        if !push_filter(&mut steps, &self.filter) {
            assert(steps_view(steps@) =~= update_plan(r, with_callback));
            return Plan { ctx: self.ctx.handle(), steps, responses: Responses::Unread };
        }
        let ghost s2 = steps_view(steps@);
        self.push_body(&mut steps, with_callback);
        assert(steps_view(steps@) =~= update_plan(r, with_callback));
        Plan { ctx: self.ctx.handle(), steps, responses: Responses::Unread }
    }

    /// The steps that carry out the update; its responses are not handed to
    /// a callback.
    pub fn execute(self) -> (p: Plan)
        ensures
            p.ctx == self@.ctx,
            steps_view(p.steps@) == update_plan(self@, false),
            p.responses@ == ResponsesSpec::Unread,
    {
        self.build(false)
    }

    /// The steps that carry out the update, the phase of every response
    /// handed to a callback, whatever the response holds.
    pub fn execute_with(self) -> (p: Plan)
        ensures
            p.ctx == self@.ctx,
            steps_view(p.steps@) == update_plan(self@, true),
            p.responses@ == ResponsesSpec::Phases,
    {
        self.build(true).with_responses(Responses::Phases)
    }
}

/// Appends the key and entry steps of a delete or a read, then the send step.
fn push_lookup_body(steps: &mut Vec<Step>, keys: &Vec<String>, send: Step)
    ensures
        steps_view(final(steps)@) == steps_view(old(steps)@) + lookup_body(keys.deep_view(), send@),
{
    let ghost s0 = steps_view(steps@);
    let ghost send_v = send@;
    if keys.len() > 0 {
        if !push_key_entry(steps, keys, Entity::Kernel) {
            assert(steps_view(steps@) =~= s0 + lookup_body(keys.deep_view(), send_v));
            return;
        }
        let ghost s1 = steps_view(steps@);
        steps.push(send);
        assert(steps_view(steps@) =~= s1.push(send_v));
        assert(steps_view(steps@) =~= s0 + lookup_body(keys.deep_view(), send_v));
    } else {
        steps.push(send);
        assert(steps_view(steps@) =~= s0 + lookup_body(keys.deep_view(), send_v));
    }
}

/// Appends the filter, key and entry steps of a delete or a read, then the
/// send step.
fn push_lookup(
    steps: &mut Vec<Step>,
    filter: &Option<String>,
    keys: &Vec<String>,
    send: Step,
    Ghost(r): Ghost<TableRequest>,
)
    requires
        r.filter == match filter {
            Some(f) => Some(f@),
            None => None,
        },
        r.keys == keys.deep_view(),
    ensures
        steps_view(final(steps)@) == steps_view(old(steps)@) + filter_steps(
            r,
            lookup_body(r.keys, send@),
        ),
{
    let ghost s0 = steps_view(steps@);
    let ghost send_v = send@;
    if !push_filter(steps, filter) {
        assert(steps_view(steps@) =~= s0 + filter_steps(r, lookup_body(r.keys, send_v)));
        return;
    }
    let ghost s1 = steps_view(steps@);
    push_lookup_body(steps, keys, send);
    assert(steps_view(steps@) =~= s0 + filter_steps(r, lookup_body(r.keys, send_v)));
}

/// A request deleting entries of a table: those of the given key, or all
/// that the filter lets through.
pub struct DeleteBuilder<'a> {
    ctx: &'a Context,
    pipeline: &'a str,
    table: &'a str,
    keys: Vec<String>,
    filter: Option<String>,
    flags: MsgFlags,
}

impl<'a> View for DeleteBuilder<'a> {
    type V = TableRequest;

    closed spec fn view(&self) -> TableRequest {
        TableRequest {
            keys: self.keys.deep_view(),
            filter: match self.filter {
                Some(f) => Some(f@),
                None => None,
            },
            flags: self.flags.spec_bits(),
            ..initial_request(self.ctx.spec_handle(), self.pipeline@, self.table@)
        }
    }
}

impl<'a> DeleteBuilder<'a> {
    pub(crate) fn new(ctx: &'a Context, pipeline: &'a str, table: &'a str) -> (b: Self)
        ensures
            b@ == initial_request(ctx.spec_handle(), pipeline@, table@),
    {
        let b = DeleteBuilder {
            ctx,
            pipeline,
            table,
            keys: Vec::new(),
            filter: None,
            flags: MsgFlags::empty(),
        };
        assert(b.keys.deep_view() =~= Seq::<Seq<char>>::empty());
        assert(b@ =~= initial_request(ctx.spec_handle(), pipeline@, table@));
        b
    }

    /// Adds a key field value, after those given before.
    pub fn key(self, value: &str) -> (b: Self)
        ensures
            b@ == (TableRequest { keys: self@.keys.push(value@), ..self@ }),
    {
        let mut b = self;
        let ghost before = b.keys.deep_view();
        b.keys.push(owned(value));
        assert(b.keys.deep_view() =~= before.push(value@));
        b
    }

    /// Sets the filter expression, replacing one given before.
    pub fn filter(self, f: &str) -> (b: Self)
        ensures
            b@ == (TableRequest { filter: Some(f@), ..self@ }),
    {
        let mut b = self;
        b.filter = Some(owned(f));
        b
    }

    fn build(&self, with_callback: bool) -> (p: Plan)
        ensures
            p.ctx == self@.ctx,
            steps_view(p.steps@) == delete_plan(self@, with_callback),
            p.responses@ == ResponsesSpec::Unread,
    {
        let mut steps: Vec<Step> = Vec::new();
        let ghost r = self@;
        assert(steps_view(steps@) =~= Seq::<StepSpec>::empty());
        if !push_table_obj(&mut steps, self.pipeline, self.table) {
            assert(steps_view(steps@) =~= delete_plan(r, with_callback));
            return Plan { ctx: self.ctx.handle(), steps, responses: Responses::Unread };
        }
        push_lookup(
            &mut steps,
            &self.filter,
            &self.keys,
            crud(CrudOp::Delete, self.flags.bits(), with_callback, "delete"),
            Ghost(r),
        );
        assert(steps_view(steps@) =~= delete_plan(r, with_callback));
        Plan { ctx: self.ctx.handle(), steps, responses: Responses::Unread }
    }

    /// The steps that carry out the delete; its responses are not handed to
    /// a callback.
    pub fn execute(self) -> (p: Plan)
        ensures
            p.ctx == self@.ctx,
            steps_view(p.steps@) == delete_plan(self@, false),
            p.responses@ == ResponsesSpec::Unread,
    {
        self.build(false)
    }

    /// The steps that carry out the delete, the phase of every response
    /// handed to a callback, whatever the response holds.
    pub fn execute_with(self) -> (p: Plan)
        ensures
            p.ctx == self@.ctx,
            steps_view(p.steps@) == delete_plan(self@, true),
            p.responses@ == ResponsesSpec::Phases,
    {
        self.build(true).with_responses(Responses::Phases)
    }
}

/// A request reading entries of a table: those of the given key, or all
/// that the filter lets through.
pub struct GetBuilder<'a> {
    ctx: &'a Context,
    pipeline: &'a str,
    table: &'a str,
    keys: Vec<String>,
    filter: Option<String>,
    flags: MsgFlags,
}

impl<'a> View for GetBuilder<'a> {
    type V = TableRequest;

    closed spec fn view(&self) -> TableRequest {
        TableRequest {
            keys: self.keys.deep_view(),
            filter: match self.filter {
                Some(f) => Some(f@),
                None => None,
            },
            flags: self.flags.spec_bits(),
            ..initial_request(self.ctx.spec_handle(), self.pipeline@, self.table@)
        }
    }
}

impl<'a> GetBuilder<'a> {
    pub(crate) fn new(ctx: &'a Context, pipeline: &'a str, table: &'a str) -> (b: Self)
        ensures
            b@ == initial_request(ctx.spec_handle(), pipeline@, table@),
    {
        let b = GetBuilder {
            ctx,
            pipeline,
            table,
            keys: Vec::new(),
            filter: None,
            flags: MsgFlags::empty(),
        };
        assert(b.keys.deep_view() =~= Seq::<Seq<char>>::empty());
        assert(b@ =~= initial_request(ctx.spec_handle(), pipeline@, table@));
        b
    }

    /// Adds a key field value, after those given before.
    pub fn key(self, value: &str) -> (b: Self)
        ensures
            b@ == (TableRequest { keys: self@.keys.push(value@), ..self@ }),
    {
        let mut b = self;
        let ghost before = b.keys.deep_view();
        b.keys.push(owned(value));
        assert(b.keys.deep_view() =~= before.push(value@));
        b
    }

    /// Sets the filter expression, replacing one given before.
    pub fn filter(self, f: &str) -> (b: Self)
        ensures
            b@ == (TableRequest { filter: Some(f@), ..self@ }),
    {
        let mut b = self;
        b.filter = Some(owned(f));
        b
    }

    /// The steps that carry out the read; of its responses, each that
    /// carries data is read as entries of the request's table of its
    /// pipeline, which a callback receives with the phase; the others are
    /// skipped.
    pub fn execute(self) -> (p: Plan)
        ensures
            p.ctx == self@.ctx,
            steps_view(p.steps@) == get_plan(self@),
            p.responses@ == (ResponsesSpec::TableEntries { pipeline: self@.pipeline, table: self@.table }),
    {
        let responses = Responses::TableEntries { pipeline: owned(self.pipeline), table: owned(self.table) };
        self.build().with_responses(responses)
    }

    fn build(self) -> (p: Plan)
        ensures
            p.ctx == self@.ctx,
            steps_view(p.steps@) == get_plan(self@),
    {
        let mut steps: Vec<Step> = Vec::new();
        let ghost r = self@;
        assert(steps_view(steps@) =~= Seq::<StepSpec>::empty());
        if !push_table_obj(&mut steps, self.pipeline, self.table) {
            assert(steps_view(steps@) =~= get_plan(r));
            return Plan { ctx: self.ctx.handle(), steps, responses: Responses::Unread };
        }
        push_lookup(
            &mut steps,
            &self.filter,
            &self.keys,
            crud(CrudOp::Get, self.flags.bits(), true, "get"),
            Ghost(r),
        );
        assert(steps_view(steps@) =~= get_plan(r));
        Plan { ctx: self.ctx.handle(), steps, responses: Responses::Unread }
    }
}

} // verus!
