use vstd::prelude::*;
use crate::context::Context;
use crate::plan::{
    all_checked, any_has_nul, checked, copy_strings, nul_error, steps_view, Call, CallSpec,
    CrudOp, Failure, FailureSpec, Plan, Responses, ResponsesSpec, Step, StepSpec,
};
use crate::schema::{extern_names, instance_names, last_index_named, PipelineSchema};
use crate::table::{crud_step, obj_create_step};
use crate::text::{has_nul, owned};
use crate::types::{MsgFlags, ObjType};

verus! {

/// What an extern request says: the context, pipeline, extern kind and
/// instance it is on, the instance key, the parameter values and the
/// message flags.
pub struct ExternRequest {
    pub ctx: u64,
    pub pipeline: Seq<char>,
    pub kind: Seq<char>,
    pub instance: Seq<char>,
    pub key: u32,
    pub params: Seq<Seq<char>>,
    pub flags: u32,
}

/// A fresh extern request: key zero, no parameter, no message flag.
pub open spec fn initial_extern_request(
    ctx: u64,
    pipeline: Seq<char>,
    kind: Seq<char>,
    instance: Seq<char>,
) -> ExternRequest {
    ExternRequest { ctx, pipeline, kind, instance, key: 0, params: Seq::empty(), flags: 0 }
}

/// The steps of an extern request sent through `op`: the object for the
/// pipeline, the extern instance with its key and parameters, and the request.
pub open spec fn extern_plan(r: ExternRequest, op: CrudOp, with_callback: bool, name: Seq<char>) -> Seq<
    StepSpec,
> {
    checked(
        r.pipeline,
        "pipeline"@,
        seq![obj_create_step(r.pipeline, ObjType::Extern)] + checked(
            r.kind,
            "kind"@,
            checked(
                r.instance,
                "instance"@,
                all_checked(
                    r.params,
                    "param"@,
                    seq![
                        StepSpec::Perform(
                            CallSpec::CreateExtern {
                                kind: r.kind,
                                instance: r.instance,
                                key: r.key,
                                params: r.params,
                            },
                            FailureSpec::Entry(
                                "create_runt_ext failed for '"@ + r.kind + "/"@ + r.instance + "'"@,
                            ),
                        ),
                        crud_step(op, r.flags, with_callback, name),
                    ],
                ),
            ),
        ),
    )
}

/// `n` parameter values `0`.
pub open spec fn zeros(n: nat) -> Seq<Seq<char>> {
    Seq::new(n, |i: int| "0"@)
}

/// The request with placeholder parameters: where it has no parameter and
/// the schema knows its extern instance with data parameters, one `0` for
/// each of them; else unchanged.
pub open spec fn with_dummy_params(r: ExternRequest, schema: PipelineSchema) -> ExternRequest {
    let ei = last_index_named(extern_names(schema.externs@), r.kind);
    if ei >= 0 {
        let ext = schema.externs@[ei];
        let ii = last_index_named(instance_names(ext.instances@), r.instance);
        if ii >= 0 {
            let n = ext.instances@[ii].param_names@.len();
            if r.params.len() == 0 && n > 0 {
                ExternRequest { params: zeros(n), ..r }
            } else {
                r
            }
        } else {
            r
        }
    } else {
        r
    }
}

/// The texts of a list of string slices.
pub open spec fn strs_view(v: Seq<&str>) -> Seq<Seq<char>> {
    v.map_values(|s: &str| s@)
}

/// An extern request under construction.
pub struct ExternBuilder<'a> {
    ctx: &'a Context,
    pipeline: &'a str,
    kind: &'a str,
    instance: &'a str,
    key: u32,
    params: Vec<String>,
    flags: MsgFlags,
}

impl<'a> View for ExternBuilder<'a> {
    type V = ExternRequest;

    closed spec fn view(&self) -> ExternRequest {
        ExternRequest {
            ctx: self.ctx.spec_handle(),
            pipeline: self.pipeline@,
            kind: self.kind@,
            instance: self.instance@,
            key: self.key,
            params: self.params.deep_view(),
            flags: self.flags.spec_bits(),
        }
    }
}

impl<'a> ExternBuilder<'a> {
    pub(crate) fn new(ctx: &'a Context, pipeline: &'a str, kind: &'a str, instance: &'a str) -> (b:
        Self)
        ensures
            b@ == initial_extern_request(ctx.spec_handle(), pipeline@, kind@, instance@),
    {
        let b = ExternBuilder {
            ctx,
            pipeline,
            kind,
            instance,
            key: 0,
            params: Vec::new(),
            flags: MsgFlags::empty(),
        };
        assert(b.params.deep_view() =~= Seq::<Seq<char>>::empty());
        assert(b@ =~= initial_extern_request(ctx.spec_handle(), pipeline@, kind@, instance@));
        b
    }

    /// Sets the instance key.
    pub fn key(self, k: u32) -> (b: Self)
        ensures
            b@ == (ExternRequest { key: k, ..self@ }),
    {
        let mut b = self;
        b.key = k;
        b
    }

    /// Adds a parameter value, after those given before.
    pub fn param(self, value: &str) -> (b: Self)
        ensures
            b@ == (ExternRequest { params: self@.params.push(value@), ..self@ }),
    {
        let mut b = self;
        let ghost before = b.params.deep_view();
        b.params.push(owned(value));
        assert(b.params.deep_view() =~= before.push(value@));
        b
    }

    /// Adds parameter values, in order, after those given before.
    pub fn params(self, values: &[&str]) -> (b: Self)
        ensures
            b@ == (ExternRequest { params: self@.params + strs_view(values@), ..self@ }),
    {
        let mut b = self;
        let ghost start = b.params.deep_view();
        let mut i: usize = 0;
        while i < values.len()
            invariant
                i <= values@.len(),
                b.params.deep_view() == start + strs_view(values@).take(i as int),
                b.ctx == self.ctx,
                b.pipeline == self.pipeline,
                b.kind == self.kind,
                b.instance == self.instance,
                b.key == self.key,
                b.flags == self.flags,
            decreases values@.len() - i,
        {
            let ghost before = b.params.deep_view();
            b.params.push(owned(values[i]));
            assert(b.params.deep_view() =~= before.push(values@[i as int]@));
            assert(strs_view(values@).take(i + 1) =~= strs_view(values@).take(i as int).push(
                values@[i as int]@,
            ));
            i = i + 1;
        }
        assert(strs_view(values@).take(values@.len() as int) =~= strs_view(values@));
        b
    }

    /// Fills in placeholder parameters from the schema: where no parameter
    /// was given and the schema knows the extern instance with data
    /// parameters, one `0` for each.
    pub fn fill_dummy_params(self, schema: &PipelineSchema) -> (b: Self)
        ensures
            b@ == with_dummy_params(self@, *schema),
    {
        let mut b = self;
        match schema.get_extern(b.kind) {
            Some(ext) => match ext.get_instance(b.instance) {
                Some(inst) => {
                    let n = inst.param_names.len();
                    if b.params.len() == 0 && n > 0 {
                        let mut ps: Vec<String> = Vec::new();
                        let mut i: usize = 0;
                        while i < n
                            invariant
                                i <= n,
                                ps.deep_view() =~= zeros(i as nat),
                            decreases n - i,
                        {
                            let ghost before = ps.deep_view();
                            ps.push(String::from_str("0"));
                            assert(ps.deep_view() =~= before.push("0"@));
                            i = i + 1;
                        }
                        b.params = ps;
                    }
                },
                None => {},
            },
            None => {},
        }
        b
    }

    fn plan(&self, op: CrudOp, with_callback: bool, name: &str) -> (p: Plan)
        ensures
            p.ctx == self@.ctx,
            steps_view(p.steps@) == extern_plan(self@, op, with_callback, name@),
            p.responses@ == ResponsesSpec::Unread,
    {
        let ghost r = self@;
        let mut steps: Vec<Step> = Vec::new();
        assert(steps_view(steps@) =~= Seq::<StepSpec>::empty());
        if has_nul(self.pipeline) {
            steps.push(Step::Fail(nul_error("pipeline")));
            assert(steps_view(steps@) =~= extern_plan(r, op, with_callback, name@));
            return Plan { ctx: self.ctx.handle(), steps, responses: Responses::Unread };
        }
        let mut msg = String::from_str("obj_create failed for '");
        msg.append(self.pipeline);
        msg.append("'");
        steps.push(
            Step::Perform(
                Call::ObjCreate { pipeline: owned(self.pipeline), obj_type: ObjType::Extern },
                Failure::Object(msg),
            ),
        );
        let ghost s1 = steps_view(steps@);
        assert(s1 =~= seq![obj_create_step(r.pipeline, ObjType::Extern)]);
        if has_nul(self.kind) {
            steps.push(Step::Fail(nul_error("kind")));
            assert(steps_view(steps@) =~= extern_plan(r, op, with_callback, name@));
            return Plan { ctx: self.ctx.handle(), steps, responses: Responses::Unread };
        }
        if has_nul(self.instance) {
            steps.push(Step::Fail(nul_error("instance")));
            assert(steps_view(steps@) =~= extern_plan(r, op, with_callback, name@));
            return Plan { ctx: self.ctx.handle(), steps, responses: Responses::Unread };
        }
        if any_has_nul(&self.params) {
            steps.push(Step::Fail(nul_error("param")));
            assert(steps_view(steps@) =~= extern_plan(r, op, with_callback, name@));
            return Plan { ctx: self.ctx.handle(), steps, responses: Responses::Unread };
        }
        let mut emsg = String::from_str("create_runt_ext failed for '");
        emsg.append(self.kind);
        emsg.append("/");
        emsg.append(self.instance);
        emsg.append("'");
        steps.push(
            Step::Perform(
                Call::CreateExtern {
                    kind: owned(self.kind),
                    instance: owned(self.instance),
                    key: self.key,
                    params: copy_strings(&self.params),
                },
                Failure::Entry(emsg),
            ),
        );
        steps.push(
            Step::Perform(
                Call::Crud { op, flags: self.flags.bits(), with_callback },
                Failure::Crud(owned(name)),
            ),
        );
        assert(steps_view(steps@) =~= extern_plan(r, op, with_callback, name@));
        Plan { ctx: self.ctx.handle(), steps, responses: Responses::Unread }
    }
}

/// A request creating an extern instance entry.
pub struct ExternInsertBuilder<'a>(ExternBuilder<'a>);

/// A request updating an extern instance entry.
pub struct ExternUpdateBuilder<'a>(ExternBuilder<'a>);

/// A request deleting an extern instance entry.
pub struct ExternDeleteBuilder<'a>(ExternBuilder<'a>);

/// A request reading an extern instance entry.
pub struct ExternGetBuilder<'a>(ExternBuilder<'a>);

impl<'a> View for ExternInsertBuilder<'a> {
    type V = ExternRequest;

    closed spec fn view(&self) -> ExternRequest {
        self.0@
    }
}

impl<'a> View for ExternUpdateBuilder<'a> {
    type V = ExternRequest;

    closed spec fn view(&self) -> ExternRequest {
        self.0@
    }
}

impl<'a> View for ExternDeleteBuilder<'a> {
    type V = ExternRequest;

    closed spec fn view(&self) -> ExternRequest {
        self.0@
    }
}

impl<'a> View for ExternGetBuilder<'a> {
    type V = ExternRequest;

    closed spec fn view(&self) -> ExternRequest {
        self.0@
    }
}

impl<'a> ExternInsertBuilder<'a> {
    pub(crate) fn new(ctx: &'a Context, pipeline: &'a str, kind: &'a str, instance: &'a str) -> (b:
        Self)
        ensures
            b@ == initial_extern_request(ctx.spec_handle(), pipeline@, kind@, instance@),
    {
        ExternInsertBuilder(ExternBuilder::new(ctx, pipeline, kind, instance))
    }

    /// Sets the instance key.
    pub fn key(self, k: u32) -> (b: Self)
        ensures
            b@ == (ExternRequest { key: k, ..self@ }),
    {
        ExternInsertBuilder(self.0.key(k))
    }

    /// Adds a parameter value, after those given before.
    pub fn param(self, value: &str) -> (b: Self)
        ensures
            b@ == (ExternRequest { params: self@.params.push(value@), ..self@ }),
    {
        ExternInsertBuilder(self.0.param(value))
    }

    /// Adds parameter values, in order, after those given before.
    pub fn params(self, values: &[&str]) -> (b: Self)
        ensures
            b@ == (ExternRequest { params: self@.params + strs_view(values@), ..self@ }),
    {
        ExternInsertBuilder(self.0.params(values))
    }

    /// The steps that carry out the insert, its responses not handed to a callback.
    pub fn execute(self) -> (p: Plan)
        ensures
            p.ctx == self@.ctx,
            steps_view(p.steps@) == extern_plan(self@, CrudOp::Create, false, "extern_insert"@),
            p.responses@ == ResponsesSpec::Unread,
    {
        self.0.plan(CrudOp::Create, false, "extern_insert")
    }

    /// The steps that carry out the insert; of its responses, each that carries
    /// data is read as extern entries, which a callback receives with the
    /// phase; the others are skipped.
    pub fn execute_with(self) -> (p: Plan)
        ensures
            p.ctx == self@.ctx,
            steps_view(p.steps@) == extern_plan(self@, CrudOp::Create, true, "extern_insert"@),
            p.responses@ == ResponsesSpec::ExternEntries,
    {
        self.0.plan(CrudOp::Create, true, "extern_insert").with_responses(Responses::ExternEntries)
    }
}

impl<'a> ExternUpdateBuilder<'a> {
    pub(crate) fn new(ctx: &'a Context, pipeline: &'a str, kind: &'a str, instance: &'a str) -> (b:
        Self)
        ensures
            b@ == initial_extern_request(ctx.spec_handle(), pipeline@, kind@, instance@),
    {
        ExternUpdateBuilder(ExternBuilder::new(ctx, pipeline, kind, instance))
    }

    /// Sets the instance key.
    pub fn key(self, k: u32) -> (b: Self)
        ensures
            b@ == (ExternRequest { key: k, ..self@ }),
    {
        ExternUpdateBuilder(self.0.key(k))
    }

    /// Adds a parameter value, after those given before.
    pub fn param(self, value: &str) -> (b: Self)
        ensures
            b@ == (ExternRequest { params: self@.params.push(value@), ..self@ }),
    {
        ExternUpdateBuilder(self.0.param(value))
    }

    /// Adds parameter values, in order, after those given before.
    pub fn params(self, values: &[&str]) -> (b: Self)
        ensures
            b@ == (ExternRequest { params: self@.params + strs_view(values@), ..self@ }),
    {
        ExternUpdateBuilder(self.0.params(values))
    }

    /// The steps that carry out the update, its responses not handed to a callback.
    pub fn execute(self) -> (p: Plan)
        ensures
            p.ctx == self@.ctx,
            steps_view(p.steps@) == extern_plan(self@, CrudOp::Update, false, "extern_update"@),
            p.responses@ == ResponsesSpec::Unread,
    {
        self.0.plan(CrudOp::Update, false, "extern_update")
    }

    /// The steps that carry out the update; of its responses, each that carries
    /// data is read as extern entries, which a callback receives with the
    /// phase; the others are skipped.
    pub fn execute_with(self) -> (p: Plan)
        ensures
            p.ctx == self@.ctx,
            steps_view(p.steps@) == extern_plan(self@, CrudOp::Update, true, "extern_update"@),
            p.responses@ == ResponsesSpec::ExternEntries,
    {
        self.0.plan(CrudOp::Update, true, "extern_update").with_responses(Responses::ExternEntries)
    }
}

impl<'a> ExternDeleteBuilder<'a> {
    pub(crate) fn new(ctx: &'a Context, pipeline: &'a str, kind: &'a str, instance: &'a str) -> (b:
        Self)
        ensures
            b@ == initial_extern_request(ctx.spec_handle(), pipeline@, kind@, instance@),
    {
        ExternDeleteBuilder(ExternBuilder::new(ctx, pipeline, kind, instance))
    }

    /// Sets the instance key.
    pub fn key(self, k: u32) -> (b: Self)
        ensures
            b@ == (ExternRequest { key: k, ..self@ }),
    {
        ExternDeleteBuilder(self.0.key(k))
    }

    /// Fills in placeholder parameters from the pipeline schema.
    pub fn schema(self, s: &PipelineSchema) -> (b: Self)
        ensures
            b@ == with_dummy_params(self@, *s),
    {
        ExternDeleteBuilder(self.0.fill_dummy_params(s))
    }

    /// The steps that carry out the delete, its responses not handed to a callback.
    pub fn execute(self) -> (p: Plan)
        ensures
            p.ctx == self@.ctx,
            steps_view(p.steps@) == extern_plan(self@, CrudOp::Delete, false, "extern_delete"@),
            p.responses@ == ResponsesSpec::Unread,
    {
        self.0.plan(CrudOp::Delete, false, "extern_delete")
    }

    /// The steps that carry out the delete; of its responses, each that carries
    /// data is read as extern entries, which a callback receives with the
    /// phase; the others are skipped.
    pub fn execute_with(self) -> (p: Plan)
        ensures
            p.ctx == self@.ctx,
            steps_view(p.steps@) == extern_plan(self@, CrudOp::Delete, true, "extern_delete"@),
            p.responses@ == ResponsesSpec::ExternEntries,
    {
        self.0.plan(CrudOp::Delete, true, "extern_delete").with_responses(Responses::ExternEntries)
    }
}

impl<'a> ExternGetBuilder<'a> {
    pub(crate) fn new(ctx: &'a Context, pipeline: &'a str, kind: &'a str, instance: &'a str) -> (b:
        Self)
        ensures
            b@ == initial_extern_request(ctx.spec_handle(), pipeline@, kind@, instance@),
    {
        ExternGetBuilder(ExternBuilder::new(ctx, pipeline, kind, instance))
    }

    /// Sets the instance key.
    pub fn key(self, k: u32) -> (b: Self)
        ensures
            b@ == (ExternRequest { key: k, ..self@ }),
    {
        ExternGetBuilder(self.0.key(k))
    }

    /// Fills in placeholder parameters from the pipeline schema.
    pub fn schema(self, s: &PipelineSchema) -> (b: Self)
        ensures
            b@ == with_dummy_params(self@, *s),
    {
        ExternGetBuilder(self.0.fill_dummy_params(s))
    }

    /// The steps that carry out the read; of its responses, each that carries
    /// data is read as extern entries, which a callback receives with the
    /// phase; the others are skipped.
    pub fn execute(self) -> (p: Plan)
        ensures
            p.ctx == self@.ctx,
            steps_view(p.steps@) == extern_plan(self@, CrudOp::Get, true, "extern_get"@),
            p.responses@ == ResponsesSpec::ExternEntries,
    {
        self.0.plan(CrudOp::Get, true, "extern_get").with_responses(Responses::ExternEntries)
    }
}

} // verus!
