use vstd::prelude::*;
use crate::error::{Error, ErrorSpec};
use crate::extern_::{
    ExternDeleteBuilder, ExternGetBuilder, ExternInsertBuilder, ExternUpdateBuilder,
    initial_extern_request,
};
use crate::plan::{
    check_c_str, checked, nul_error, nul_msg, steps_view, Call, CallSpec, Failure, FailureSpec, Plan,
    Responses, ResponsesSpec, Step, StepSpec,
};
use crate::table::{
    initial_request, obj_name_step, DeleteBuilder, GetBuilder, InsertBuilder, UpdateBuilder,
};
use crate::text::{has_nul, owned};
use crate::types::ObjType;

verus! {

/// A runtime context of the control library, known by the handle the
/// library gave for it. Requests built from a context are carried out on it.
pub struct Context {
    handle: u64,
}

impl Context {
    /// The handle of the runtime context.
    pub closed spec fn spec_handle(&self) -> u64 {
        self.handle
    }

    /// The context the control library created, given the handle it returned
    /// (none where it returned null) and the OS error code current right
    /// after the call.
    pub fn from_created(created: Option<u64>, os_error: i32) -> (r: Result<Context, Error>)
        ensures
            match created {
                Some(h) => r matches Ok(c) && c.spec_handle() == h,
                None => r matches Err(e) && e@ == ErrorSpec::Context(os_error),
            },
    {
        match created {
            Some(h) => Ok(Context { handle: h }),
            None => Err(Error::Context(os_error)),
        }
    }

    /// The handle of the runtime context.
    pub fn handle(&self) -> (h: u64)
        ensures
            h == self.spec_handle(),
    {
        self.handle
    }

    /// A request inserting an entry into `table` of `pipeline`.
    pub fn insert<'a>(&'a self, pipeline: &'a str, table: &'a str) -> (b: InsertBuilder<'a>)
        ensures
            b@ == initial_request(self.spec_handle(), pipeline@, table@),
    {
        InsertBuilder::new(self, pipeline, table)
    }

    /// A request updating entries of `table` of `pipeline`.
    pub fn update<'a>(&'a self, pipeline: &'a str, table: &'a str) -> (b: UpdateBuilder<'a>)
        ensures
            b@ == initial_request(self.spec_handle(), pipeline@, table@),
    {
        UpdateBuilder::new(self, pipeline, table)
    }

    /// A request deleting entries of `table` of `pipeline`.
    pub fn delete<'a>(&'a self, pipeline: &'a str, table: &'a str) -> (b: DeleteBuilder<'a>)
        ensures
            b@ == initial_request(self.spec_handle(), pipeline@, table@),
    {
        DeleteBuilder::new(self, pipeline, table)
    }

    /// A request reading entries of `table` of `pipeline`.
    pub fn get<'a>(&'a self, pipeline: &'a str, table: &'a str) -> (b: GetBuilder<'a>)
        ensures
            b@ == initial_request(self.spec_handle(), pipeline@, table@),
    {
        GetBuilder::new(self, pipeline, table)
    }

    /// A request reading all entries of a table: a `get` without keys.
    pub fn dump<'a>(&'a self, pipeline: &'a str, table: &'a str) -> (b: GetBuilder<'a>)
        ensures
            b@ == initial_request(self.spec_handle(), pipeline@, table@),
            b@.keys.len() == 0,
    {
        GetBuilder::new(self, pipeline, table)
    }

    /// A request deleting all entries of a table: a `delete` without keys.
    pub fn flush<'a>(&'a self, pipeline: &'a str, table: &'a str) -> (b: DeleteBuilder<'a>)
        ensures
            b@ == initial_request(self.spec_handle(), pipeline@, table@),
            b@.keys.len() == 0,
    {
        DeleteBuilder::new(self, pipeline, table)
    }

    /// A request creating an instance entry of an extern.
    pub fn extern_insert<'a>(&'a self, pipeline: &'a str, kind: &'a str, instance: &'a str) -> (b:
        ExternInsertBuilder<'a>)
        ensures
            b@ == initial_extern_request(self.spec_handle(), pipeline@, kind@, instance@),
    {
        ExternInsertBuilder::new(self, pipeline, kind, instance)
    }

    /// A request updating an instance entry of an extern.
    pub fn extern_update<'a>(&'a self, pipeline: &'a str, kind: &'a str, instance: &'a str) -> (b:
        ExternUpdateBuilder<'a>)
        ensures
            b@ == initial_extern_request(self.spec_handle(), pipeline@, kind@, instance@),
    {
        ExternUpdateBuilder::new(self, pipeline, kind, instance)
    }

    /// A request deleting an instance entry of an extern.
    pub fn extern_delete<'a>(&'a self, pipeline: &'a str, kind: &'a str, instance: &'a str) -> (b:
        ExternDeleteBuilder<'a>)
        ensures
            b@ == initial_extern_request(self.spec_handle(), pipeline@, kind@, instance@),
    {
        ExternDeleteBuilder::new(self, pipeline, kind, instance)
    }

    /// A request reading an instance entry of an extern.
    pub fn extern_get<'a>(&'a self, pipeline: &'a str, kind: &'a str, instance: &'a str) -> (b:
        ExternGetBuilder<'a>)
        ensures
            b@ == initial_extern_request(self.spec_handle(), pipeline@, kind@, instance@),
    {
        ExternGetBuilder::new(self, pipeline, kind, instance)
    }
}

/// The steps that register a subscription to `table` of `pipeline`, with an
/// optional filter: the names are checked first, then the object is
/// created and named, the filter set, and the subscription registered.
pub open spec fn subscribe_plan(pipeline: Seq<char>, table: Seq<char>, filter: Option<Seq<char>>) -> Seq<
    StepSpec,
> {
    let body = seq![
        StepSpec::Perform(
            CallSpec::ObjCreate { pipeline, obj_type: ObjType::Table },
            FailureSpec::Object("p4tc_obj_create failed for subscribe"@),
        ),
        obj_name_step(table),
    ] + match filter {
        Some(f) => seq![StepSpec::Perform(CallSpec::FilterSet { filter: f }, FailureSpec::Ignored)],
        None => Seq::empty(),
    } + seq![StepSpec::Perform(CallSpec::Subscribe { flags: 0 }, FailureSpec::Subscribe)];
    checked(
        pipeline,
        "pipeline"@,
        checked(
            table,
            "table"@,
            match filter {
                Some(f) => checked(f, "filter"@, body),
                None => body,
            },
        ),
    )
}

impl Context {
    fn subscription(&self, pipeline: &str, table: &str, filter: Option<&str>) -> (p: Plan)
        ensures
            p.ctx == self.spec_handle(),
            steps_view(p.steps@) == subscribe_plan(
                pipeline@,
                table@,
                match filter {
                    Some(f) => Some(f@),
                    None => None,
                },
            ),
    {
        let ghost fv = match filter {
            Some(f) => Some(f@),
            None => None,
        };
        let mut steps: Vec<Step> = Vec::new();
        if has_nul(pipeline) {
            steps.push(Step::Fail(nul_error("pipeline")));
            assert(steps_view(steps@) =~= subscribe_plan(pipeline@, table@, fv));
            return Plan { ctx: self.handle, steps, responses: Responses::Unread };
        }
        if has_nul(table) {
            steps.push(Step::Fail(nul_error("table")));
            assert(steps_view(steps@) =~= subscribe_plan(pipeline@, table@, fv));
            return Plan { ctx: self.handle, steps, responses: Responses::Unread };
        }
        match filter {
            Some(f) => {
                if has_nul(f) {
                    steps.push(Step::Fail(nul_error("filter")));
                    assert(steps_view(steps@) =~= subscribe_plan(pipeline@, table@, fv));
                    return Plan { ctx: self.handle, steps, responses: Responses::Unread };
                }
            },
            None => {},
        }
        steps.push(
            Step::Perform(
                Call::ObjCreate { pipeline: owned(pipeline), obj_type: ObjType::Table },
                Failure::Object(String::from_str("p4tc_obj_create failed for subscribe")),
            ),
        );
        steps.push(Step::Perform(Call::ObjNameSet { name: owned(table) }, Failure::Ignored));
        match filter {
            Some(f) => {
                steps.push(Step::Perform(Call::FilterSet { filter: owned(f) }, Failure::Ignored));
            },
            None => {},
        }
        steps.push(Step::Perform(Call::Subscribe { flags: 0 }, Failure::Subscribe));
        assert(steps_view(steps@) =~= subscribe_plan(pipeline@, table@, fv));
        Plan { ctx: self.handle, steps, responses: Responses::Unread }
    }

    /// The steps that register a subscription to real-time events on a table.
    /// Of the events, each that carries data is read as entries of `table` of
    /// `pipeline`, which a callback receives with the phase, on a thread of
    /// its own; the others are skipped.
    pub fn subscribe(&self, pipeline: &str, table: &str) -> (p: Plan)
        ensures
            p.ctx == self.spec_handle(),
            steps_view(p.steps@) == subscribe_plan(pipeline@, table@, None),
            p.responses@ == (ResponsesSpec::TableEntries { pipeline: pipeline@, table: table@ }),
    {
        let responses = Responses::TableEntries { pipeline: owned(pipeline), table: owned(table) };
        self.subscription(pipeline, table, None).with_responses(responses)
    }

    /// The steps that register a subscription to the events on a table that
    /// a filter expression lets through.
    pub fn subscribe_filtered(&self, pipeline: &str, table: &str, filter: &str) -> (p: Plan)
        ensures
            p.ctx == self.spec_handle(),
            steps_view(p.steps@) == subscribe_plan(pipeline@, table@, Some(filter@)),
            p.responses@ == (ResponsesSpec::TableEntries { pipeline: pipeline@, table: table@ }),
    {
        let responses = Responses::TableEntries { pipeline: owned(pipeline), table: owned(table) };
        self.subscription(pipeline, table, Some(filter)).with_responses(responses)
    }
}

/// The registration of a subscription: the id the library gave it, while
/// it is active; a negative id means it is not (or no longer) registered.
pub struct Registration {
    sub_id: i32,
}

impl Registration {
    pub closed spec fn spec_id(&self) -> i32 {
        self.sub_id
    }

    /// The registration under the id the library gave back.
    pub fn new(sub_id: i32) -> (r: Registration)
        ensures
            r.spec_id() == sub_id,
    {
        Registration { sub_id }
    }

    /// The id the subscription is registered under.
    pub fn id(&self) -> (id: i32)
        ensures
            id == self.spec_id(),
    {
        self.sub_id
    }

    /// Whether the subscription is registered.
    pub fn active(&self) -> (r: bool)
        ensures
            r == (self.spec_id() >= 0),
    {
        self.sub_id >= 0
    }

    /// Stops the subscription: while it is registered, gives the id to
    /// unsubscribe and leaves it unregistered; once stopped, gives nothing
    /// and leaves it as it is, so that it is unsubscribed once however often
    /// it is stopped.
    pub fn stop(&mut self) -> (unsubscribe: Option<i32>)
        ensures
            old(self).spec_id() >= 0 ==> unsubscribe == Some(old(self).spec_id()),
            old(self).spec_id() >= 0 ==> final(self).spec_id() == -1,
            old(self).spec_id() < 0 ==> unsubscribe is None,
            old(self).spec_id() < 0 ==> final(self).spec_id() == old(self).spec_id(),
    {
        if self.sub_id >= 0 {
            let id = self.sub_id;
            self.sub_id = -1;
            Some(id)
        } else {
            None
        }
    }
}

/// A pipeline provisioned into the kernel, known by its name and the handle
/// the control library gave for its configuration.
pub struct Pipeline {
    handle: u64,
    name: String,
}

impl Pipeline {
    pub closed spec fn spec_name(&self) -> Seq<char> {
        self.name@
    }

    pub closed spec fn spec_handle(&self) -> u64 {
        self.handle
    }

    /// Checks the pipeline name and the template directory before they are
    /// handed to the control library.
    pub fn check_provision(name: &str, template_dir: Option<&str>) -> (r: Result<(), Error>)
        ensures
            name@.contains('\0') ==> (r matches Err(e) && e@ == (ErrorSpec::Object {
                msg: nul_msg("pipeline name"@),
            })),
            !name@.contains('\0') ==> (match template_dir {
                Some(d) => if d@.contains('\0') {
                    r matches Err(e) && e@ == (ErrorSpec::Object { msg: nul_msg("template dir"@) })
                } else {
                    r is Ok
                },
                None => r is Ok,
            }),
    {
        check_c_str(name, "pipeline name")?;
        match template_dir {
            Some(d) => check_c_str(d, "template dir"),
            None => Ok(()),
        }
    }

    /// The pipeline the control library provisioned, given the handle it
    /// returned (none where it returned null) and the OS error code current
    /// right after the call.
    pub fn from_provisioned(name: &str, created: Option<u64>, os_error: i32) -> (r: Result<
        Pipeline,
        Error,
    >)
        ensures
            match created {
                Some(h) => r matches Ok(p) && p.spec_handle() == h && p.spec_name() == name@,
                None => r matches Err(e) && e@ == (ErrorSpec::Provision {
                    pipeline: name@,
                    os_error,
                }),
            },
    {
        match created {
            Some(h) => Ok(Pipeline { handle: h, name: owned(name) }),
            None => Err(Error::Provision { pipeline: owned(name), os_error }),
        }
    }

    /// The pipeline's name.
    pub fn name(&self) -> (r: &str)
        ensures
            r@ == self.spec_name(),
    {
        self.name.as_str()
    }

    /// The handle of the pipeline's configuration.
    pub fn handle(&self) -> (h: u64)
        ensures
            h == self.spec_handle(),
    {
        self.handle
    }
}

} // verus!
