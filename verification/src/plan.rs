use vstd::prelude::*;
use crate::error::{Error, ErrorSpec};
use crate::text::{has_nul, owned};
use crate::types::{Entity, ObjType, Phase};

verus! {

/// The CRUD entry point of the control library a request goes through.
#[derive(Debug, Clone, Copy, PartialEq, Eq, Structural)]
pub enum CrudOp {
    Create,
    Update,
    Delete,
    Get,
}

/// A call into the control library, with the plain values it is made with.
#[derive(Debug)]
pub enum Call {
    /// Create a request object for a pipeline.
    ObjCreate { pipeline: String, obj_type: ObjType },
    /// Name the table (or object) the request is on.
    ObjNameSet { name: String },
    /// Set the request's filter expression.
    FilterSet { filter: String },
    /// Build a key from its field values.
    MakeKey { values: Vec<String> },
    /// Attach an entry with the key just built (message flags zero).
    AllocEntry { entity: Entity },
    PrioritySet { value: u32 },
    AgingSet { value: u32 },
    ProfileIdSet { value: u32 },
    PermissionsSet { value: u32 },
    DynamicSet { value: bool },
    /// Attach an action with its parameters to the entry.
    CreateAction { path: String, params: Vec<String> },
    /// Attach an extern instance with its key and parameters; no parameter
    /// means the call is made with none at all.
    CreateExtern { kind: String, instance: String, key: u32, params: Vec<String> },
    /// Send the request; `with_callback` says whether responses are handed
    /// to a callback.
    Crud { op: CrudOp, flags: u32, with_callback: bool },
    /// Register a subscription for the request's table.
    Subscribe { flags: u32 },
}

/// How the failure of a call is reported.
#[derive(Debug)]
pub enum Failure {
    /// The call's result is not looked at.
    Ignored,
    /// A null result fails with `Error::Object` of this message.
    Object(String),
    /// A null result fails with `Error::Key` of this message.
    Key(String),
    /// A null result fails with `Error::Entry` of this message.
    Entry(String),
    /// A non-zero status fails with `Error::Crud` of this operation name.
    Crud(String),
    /// A negative status fails with `Error::Subscribe`.
    Subscribe,
}

/// A step of a request: a call to make, or the error the request stops with.
#[derive(Debug)]
pub enum Step {
    Perform(Call, Failure),
    Fail(Error),
}

/// What becomes of the responses the library hands back while a request is
/// sent or a subscription runs.
#[derive(Debug)]
pub enum Responses {
    /// No callback is given: responses are not looked at.
    Unread,
    /// The phase of every response is passed on, whatever the response holds.
    Phases,
    /// Each response that carries data (the start or the middle of a
    /// transaction, with an object) is read as the entries of `table` of
    /// `pipeline` and passed on with its phase; every other is skipped.
    TableEntries { pipeline: String, table: String },
    /// Each response that carries data is read as extern entries and passed
    /// on with its phase; every other is skipped.
    ExternEntries,
}

pub enum ResponsesSpec {
    Unread,
    Phases,
    TableEntries { pipeline: Seq<char>, table: Seq<char> },
    ExternEntries,
}

impl View for Responses {
    type V = ResponsesSpec;

    open spec fn view(&self) -> ResponsesSpec {
        match self {
            Responses::Unread => ResponsesSpec::Unread,
            Responses::Phases => ResponsesSpec::Phases,
            Responses::TableEntries { pipeline, table } => ResponsesSpec::TableEntries {
                pipeline: pipeline@,
                table: table@,
            },
            Responses::ExternEntries => ResponsesSpec::ExternEntries,
        }
    }
}

/// What is done with one response.
#[derive(Debug, Clone, Copy, PartialEq, Eq, Structural)]
pub enum Handling {
    /// Nothing reaches the callback.
    Skip,
    /// The callback gets the response's phase alone.
    PassPhase,
    /// The response's object is read as table entries, which the callback
    /// gets with the phase.
    ReadTableEntries,
    /// The response's object is read as extern entries, which the callback
    /// gets with the phase.
    ReadExternEntries,
}

/// Whether a response carries data: it comes at the start or in the middle
/// of a transaction and holds an object.
pub open spec fn carries_data(phase: Phase, has_obj: bool) -> bool {
    (phase == Phase::Sot || phase == Phase::Mot) && has_obj
}

/// What is done with a response in `phase`, holding an object or not.
pub open spec fn handling_of(r: ResponsesSpec, phase: Phase, has_obj: bool) -> Handling {
    match r {
        ResponsesSpec::Unread => Handling::Skip,
        ResponsesSpec::Phases => Handling::PassPhase,
        ResponsesSpec::TableEntries { .. } => if carries_data(phase, has_obj) {
            Handling::ReadTableEntries
        } else {
            Handling::Skip
        },
        ResponsesSpec::ExternEntries => if carries_data(phase, has_obj) {
            Handling::ReadExternEntries
        } else {
            Handling::Skip
        },
    }
}

impl Responses {
    /// What is done with a response in `phase`; `has_obj` says whether it
    /// holds an object.
    pub fn handling(&self, phase: Phase, has_obj: bool) -> (h: Handling)
        ensures
            h == handling_of(self@, phase, has_obj),
    {
        match self {
            Responses::Unread => Handling::Skip,
            Responses::Phases => Handling::PassPhase,
            Responses::TableEntries { .. } => if phase.carries_data() && has_obj {
                Handling::ReadTableEntries
            } else {
                Handling::Skip
            },
            Responses::ExternEntries => if phase.carries_data() && has_obj {
                Handling::ReadExternEntries
            } else {
                Handling::Skip
            },
        }
    }
}

/// The sequence of steps that carries out a request on a runtime context,
/// and what becomes of the responses to it.
#[derive(Debug)]
pub struct Plan {
    /// The runtime context the request is for.
    pub ctx: u64,
    pub steps: Vec<Step>,
    pub responses: Responses,
}

impl Plan {
    /// The same plan, its responses treated as `responses` says.
    pub(crate) fn with_responses(self, responses: Responses) -> (p: Plan)
        ensures
            p.ctx == self.ctx,
            p.steps@ == self.steps@,
            p.responses@ == responses@,
    {
        Plan { ctx: self.ctx, steps: self.steps, responses }
    }
}

/// What a call gave back.
#[derive(Debug, Clone, Copy, PartialEq, Eq, Structural)]
pub enum Outcome {
    /// A non-null pointer, or a call whose result is not looked at.
    Done,
    /// A null pointer.
    Null,
    /// A status code, and the OS error code current right after the call.
    Status { code: i32, os_error: i32 },
}

/// What the runner of a plan asks for next.
#[derive(Debug)]
pub enum Command {
    /// Make this call and report its outcome.
    Perform(Call),
    /// The request is over, with this result; `release` says whether the
    /// request object a call created is to be destroyed now.
    Finish { result: Result<(), Error>, release: bool },
}

pub enum CallSpec {
    ObjCreate { pipeline: Seq<char>, obj_type: ObjType },
    ObjNameSet { name: Seq<char> },
    FilterSet { filter: Seq<char> },
    MakeKey { values: Seq<Seq<char>> },
    AllocEntry { entity: Entity },
    PrioritySet { value: u32 },
    AgingSet { value: u32 },
    ProfileIdSet { value: u32 },
    PermissionsSet { value: u32 },
    DynamicSet { value: bool },
    CreateAction { path: Seq<char>, params: Seq<Seq<char>> },
    CreateExtern { kind: Seq<char>, instance: Seq<char>, key: u32, params: Seq<Seq<char>> },
    Crud { op: CrudOp, flags: u32, with_callback: bool },
    Subscribe { flags: u32 },
}

pub enum FailureSpec {
    Ignored,
    Object(Seq<char>),
    Key(Seq<char>),
    Entry(Seq<char>),
    Crud(Seq<char>),
    Subscribe,
}

pub enum StepSpec {
    Perform(CallSpec, FailureSpec),
    Fail(ErrorSpec),
}

pub enum CommandSpec {
    Perform(CallSpec),
    Finish { result: Result<(), ErrorSpec>, release: bool },
}

impl View for Call {
    type V = CallSpec;

    open spec fn view(&self) -> CallSpec {
        match self {
            Call::ObjCreate { pipeline, obj_type } => CallSpec::ObjCreate {
                pipeline: pipeline@,
                obj_type: *obj_type,
            },
            Call::ObjNameSet { name } => CallSpec::ObjNameSet { name: name@ },
            Call::FilterSet { filter } => CallSpec::FilterSet { filter: filter@ },
            Call::MakeKey { values } => CallSpec::MakeKey { values: values.deep_view() },
            Call::AllocEntry { entity } => CallSpec::AllocEntry { entity: *entity },
            Call::PrioritySet { value } => CallSpec::PrioritySet { value: *value },
            Call::AgingSet { value } => CallSpec::AgingSet { value: *value },
            Call::ProfileIdSet { value } => CallSpec::ProfileIdSet { value: *value },
            Call::PermissionsSet { value } => CallSpec::PermissionsSet { value: *value },
            Call::DynamicSet { value } => CallSpec::DynamicSet { value: *value },
            Call::CreateAction { path, params } => CallSpec::CreateAction {
                path: path@,
                params: params.deep_view(),
            },
            Call::CreateExtern { kind, instance, key, params } => CallSpec::CreateExtern {
                kind: kind@,
                instance: instance@,
                key: *key,
                params: params.deep_view(),
            },
            Call::Crud { op, flags, with_callback } => CallSpec::Crud {
                op: *op,
                flags: *flags,
                with_callback: *with_callback,
            },
            Call::Subscribe { flags } => CallSpec::Subscribe { flags: *flags },
        }
    }
}

impl View for Failure {
    type V = FailureSpec;

    open spec fn view(&self) -> FailureSpec {
        match self {
            Failure::Ignored => FailureSpec::Ignored,
            Failure::Object(m) => FailureSpec::Object(m@),
            Failure::Key(m) => FailureSpec::Key(m@),
            Failure::Entry(m) => FailureSpec::Entry(m@),
            Failure::Crud(op) => FailureSpec::Crud(op@),
            Failure::Subscribe => FailureSpec::Subscribe,
        }
    }
}

impl View for Step {
    type V = StepSpec;

    open spec fn view(&self) -> StepSpec {
        match self {
            Step::Perform(c, f) => StepSpec::Perform(c@, f@),
            Step::Fail(e) => StepSpec::Fail(e@),
        }
    }
}

impl View for Command {
    type V = CommandSpec;

    open spec fn view(&self) -> CommandSpec {
        match self {
            Command::Perform(c) => CommandSpec::Perform(c@),
            Command::Finish { result: Ok(()), release } => CommandSpec::Finish {
                result: Ok(()),
                release: *release,
            },
            Command::Finish { result: Err(e), release } => CommandSpec::Finish {
                result: Err(e@),
                release: *release,
            },
        }
    }
}

/// The views of a list of steps.
pub open spec fn steps_view(s: Seq<Step>) -> Seq<StepSpec> {
    s.map_values(|x: Step| x@)
}

/// The error a call fails with, given how its failure is reported and what
/// it gave back; none where it succeeded.
pub open spec fn failure_error(f: FailureSpec, o: Outcome) -> Option<ErrorSpec> {
    match f {
        FailureSpec::Ignored => None,
        FailureSpec::Object(m) => if o is Null {
            Some(ErrorSpec::Object { msg: m })
        } else {
            None
        },
        FailureSpec::Key(m) => if o is Null {
            Some(ErrorSpec::Key { msg: m })
        } else {
            None
        },
        FailureSpec::Entry(m) => if o is Null {
            Some(ErrorSpec::Entry { msg: m })
        } else {
            None
        },
        FailureSpec::Crud(op) => match o {
            Outcome::Status { code, os_error } => if code != 0 {
                Some(ErrorSpec::Crud { op, os_error })
            } else {
                None
            },
            _ => None,
        },
        FailureSpec::Subscribe => match o {
            Outcome::Status { code, os_error } => if code < 0 {
                Some(ErrorSpec::Subscribe(os_error))
            } else {
                None
            },
            _ => None,
        },
    }
}

/// The message of the error for a string that holds a NUL character.
pub open spec fn nul_msg(what: Seq<char>) -> Seq<char> {
    what + " contains null byte"@
}

/// The step that stops a request on a string holding a NUL character.
pub open spec fn nul_fail(what: Seq<char>) -> StepSpec {
    StepSpec::Fail(ErrorSpec::Object { msg: nul_msg(what) })
}

/// `then`, where `s` can be handed to the control library as a C string;
/// else the request stops on it.
pub open spec fn checked(s: Seq<char>, what: Seq<char>, then: Seq<StepSpec>) -> Seq<StepSpec> {
    if s.contains('\0') {
        seq![nul_fail(what)]
    } else {
        then
    }
}

/// Whether one of the strings holds a NUL character.
pub open spec fn any_nul(values: Seq<Seq<char>>) -> bool {
    exists|i: int| 0 <= i < values.len() && #[trigger] values[i].contains('\0')
}

/// `then`, where every one of the strings can be handed to the control
/// library as a C string; else the request stops on them.
pub open spec fn all_checked(values: Seq<Seq<char>>, what: Seq<char>, then: Seq<StepSpec>) -> Seq<
    StepSpec,
> {
    if any_nul(values) {
        seq![nul_fail(what)]
    } else {
        then
    }
}

/// Whether some string of the list holds a NUL character.
pub fn any_has_nul(values: &Vec<String>) -> (r: bool)
    ensures
        r == any_nul(values.deep_view()),
{
    let mut i: usize = 0;
    while i < values.len()
        invariant
            i <= values@.len(),
            forall|j: int| 0 <= j < i ==> !(#[trigger] values.deep_view()[j]).contains('\0'),
        decreases values@.len() - i,
    {
        assert(values.deep_view()[i as int] == values@[i as int]@);
        if has_nul(values[i].as_str()) {
            return true;
        }
        i = i + 1;
    }
    false
}

/// The error for a string that holds a NUL character.
pub fn nul_error(what: &str) -> (e: Error)
    ensures
        e@ == (ErrorSpec::Object { msg: nul_msg(what@) }),
{
    let mut msg = owned(what);
    msg.append(" contains null byte");
    Error::Object { msg }
}

/// Checks that a string can be handed to the control library as a C string
/// (it holds no NUL character); the error names what the string is.
pub fn check_c_str(s: &str, what: &str) -> (r: Result<(), Error>)
    ensures
        match r {
            Ok(()) => !s@.contains('\0'),
            Err(e) => s@.contains('\0') && e@ == (ErrorSpec::Object { msg: nul_msg(what@) }),
        },
{
    if has_nul(s) {
        Err(nul_error(what))
    } else {
        Ok(())
    }
}

/// A copy of a list of strings.
pub fn copy_strings(v: &Vec<String>) -> (r: Vec<String>)
    ensures
        r.deep_view() == v.deep_view(),
{
    let mut r: Vec<String> = Vec::new();
    let mut i: usize = 0;
    while i < v.len()
        invariant
            i <= v@.len(),
            r.deep_view() =~= v.deep_view().take(i as int),
        decreases v@.len() - i,
    {
        let ghost before = r.deep_view();
        r.push(v[i].clone());
        assert(r.deep_view() =~= before.push(v@[i as int]@));
        i = i + 1;
    }
    assert(v.deep_view().take(v@.len() as int) =~= v.deep_view());
    r
}

impl Failure {
    /// The error a call fails with, given what it gave back.
    pub fn judge(&self, o: Outcome) -> (r: Option<Error>)
        ensures
            match r {
                Some(e) => failure_error(self@, o) == Some(e@),
                None => failure_error(self@, o) is None,
            },
    {
        match self {
            Failure::Ignored => None,
            Failure::Object(m) => match o {
                Outcome::Null => Some(Error::Object { msg: m.clone() }),
                _ => None,
            },
            Failure::Key(m) => match o {
                Outcome::Null => Some(Error::Key { msg: m.clone() }),
                _ => None,
            },
            Failure::Entry(m) => match o {
                Outcome::Null => Some(Error::Entry { msg: m.clone() }),
                _ => None,
            },
            Failure::Crud(op) => match o {
                Outcome::Status { code, os_error } => if code != 0 {
                    Some(Error::Crud { op: op.clone(), os_error })
                } else {
                    None
                },
                _ => None,
            },
            Failure::Subscribe => match o {
                Outcome::Status { code, os_error } => if code < 0 {
                    Some(Error::Subscribe(os_error))
                } else {
                    None
                },
                _ => None,
            },
        }
    }
}

/// Carries out a plan step by step: hands out the calls in order and stops at
/// the first call that fails, or at a step that stops the request. When the
/// request ends, it has the request object released where a call created one.
pub struct Runner {
    rest: Vec<Step>,
    pending: Option<Failure>,
    creating: bool,
    holds: bool,
}

/// The state of a runner: the steps not yet handed out, how the failure of
/// the call last handed out is reported (none before the first call),
/// whether that call creates the request object, and whether a request
/// object is held (created and not yet released).
pub struct RunnerSpec {
    pub rest: Seq<StepSpec>,
    pub pending: Option<FailureSpec>,
    pub creating: bool,
    pub holds: bool,
}

impl View for Runner {
    type V = RunnerSpec;

    closed spec fn view(&self) -> RunnerSpec {
        RunnerSpec {
            rest: steps_view(self.rest@),
            pending: match self.pending {
                Some(f) => Some(f@),
                None => None,
            },
            creating: self.creating,
            holds: self.holds,
        }
    }
}

/// A runner at the start of a plan with these steps.
pub open spec fn start(steps: Seq<StepSpec>) -> RunnerSpec {
    RunnerSpec { rest: steps, pending: None, creating: false, holds: false }
}

/// A runner that has ended: nothing left, nothing held.
pub open spec fn ended() -> RunnerSpec {
    RunnerSpec { rest: Seq::empty(), pending: None, creating: false, holds: false }
}

/// Whether the runner holds a request object once the call last handed out
/// gave `o`: it held one already, or that call created one (a non-null
/// pointer came back).
pub open spec fn holds_after(s: RunnerSpec, o: Outcome) -> bool {
    s.holds || (s.pending is Some && s.creating && o == Outcome::Done)
}

/// What a runner does next: after a call that failed, the request ends with
/// its error; else the next step is taken: none left ends the request well,
/// a stopping step ends it with its error, a call is handed out. A request
/// that ends has the object it holds released, and the runner holds none
/// after.
pub open spec fn next_command(s: RunnerSpec, o: Outcome) -> (RunnerSpec, CommandSpec) {
    let failed = match s.pending {
        Some(f) => failure_error(f, o),
        None => None,
    };
    let holds = holds_after(s, o);
    match failed {
        Some(e) => (ended(), CommandSpec::Finish { result: Err(e), release: holds }),
        None => if s.rest.len() == 0 {
            (ended(), CommandSpec::Finish { result: Ok(()), release: holds })
        } else {
            match s.rest[0] {
                StepSpec::Fail(e) => (ended(), CommandSpec::Finish { result: Err(e), release: holds }),
                StepSpec::Perform(c, f) => (
                    RunnerSpec {
                        rest: s.rest.drop_first(),
                        pending: Some(f),
                        creating: c is ObjCreate,
                        holds,
                    },
                    CommandSpec::Perform(c),
                ),
            }
        },
    }
}

impl Runner {
    /// A runner at the start of a plan.
    pub fn new(plan: Plan) -> (r: Runner)
        ensures
            r@ == start(steps_view(plan.steps@)),
    {
        Runner { rest: plan.steps, pending: None, creating: false, holds: false }
    }

    /// The next command, given the outcome of the call last handed out (the
    /// outcome is not looked at before the first call).
    pub fn next(&mut self, outcome: Outcome) -> (c: Command)
        ensures
            (final(self)@, c@) == next_command(old(self)@, outcome),
    {
        let holds = self.holds || (self.pending.is_some() && self.creating && outcome == Outcome::Done);
        let pending = self.pending.take();
        self.creating = false;
        self.holds = false;
        match pending {
            Some(f) => match f.judge(outcome) {
                Some(e) => {
                    self.rest.clear();
                    proof {
                        assert(steps_view(self.rest@) =~= Seq::<StepSpec>::empty());
                    }
                    return Command::Finish { result: Err(e), release: holds };
                },
                None => {},
            },
            None => {},
        }
        if self.rest.len() == 0 {
            assert(steps_view(self.rest@) =~= Seq::<StepSpec>::empty());
            return Command::Finish { result: Ok(()), release: holds };
        }
        let ghost before = steps_view(self.rest@);
        let step = self.rest.remove(0);
        assert(step@ == before[0]);
        match step {
            Step::Fail(e) => {
                self.rest.clear();
                assert(steps_view(self.rest@) =~= Seq::<StepSpec>::empty());
                Command::Finish { result: Err(e), release: holds }
            },
            Step::Perform(c, f) => {
                assert(steps_view(self.rest@) =~= before.drop_first());
                self.pending = Some(f);
                self.creating = c.creates_object();
                self.holds = holds;
                Command::Perform(c)
            },
        }
    }
}

impl Call {
    /// Whether the call creates the request object.
    pub fn creates_object(&self) -> (r: bool)
        ensures
            r == (self@ is ObjCreate),
    {
        match self {
            Call::ObjCreate { .. } => true,
            _ => false,
        }
    }
}

/// The result of carrying out a list of steps, where `outcomes` are the
/// outcomes of its calls in order: the error of the first call that fails or
/// of the first stopping step, whichever comes first; success where there is
/// neither; none where the calls outnumber the outcomes.
pub open spec fn plan_result(steps: Seq<StepSpec>, outcomes: Seq<Outcome>) -> Option<
    Result<(), ErrorSpec>,
>
    decreases steps.len(),
{
    if steps.len() == 0 {
        Some(Ok(()))
    } else {
        match steps[0] {
            StepSpec::Fail(e) => Some(Err(e)),
            StepSpec::Perform(_, f) => if outcomes.len() == 0 {
                None
            } else {
                match failure_error(f, outcomes[0]) {
                    Some(e) => Some(Err(e)),
                    None => plan_result(steps.drop_first(), outcomes.drop_first()),
                }
            },
        }
    }
}

/// Whether carrying out a list of steps, where `outcomes` are the outcomes
/// of its calls in order, creates the request object: a call that creates
/// it gives a non-null pointer before the request ends.
pub open spec fn plan_creates(steps: Seq<StepSpec>, outcomes: Seq<Outcome>) -> bool
    decreases steps.len(),
{
    if steps.len() == 0 {
        false
    } else {
        match steps[0] {
            StepSpec::Fail(_) => false,
            StepSpec::Perform(c, f) => if outcomes.len() == 0 {
                false
            } else {
                (c is ObjCreate && outcomes[0] == Outcome::Done) || (failure_error(f, outcomes[0]) is None
                    && plan_creates(steps.drop_first(), outcomes.drop_first()))
            },
        }
    }
}

/// Feeding a runner: `next` with `o`, then, for each call it hands out, with
/// the next of `outcomes`; the command it finishes with, or none where the
/// outcomes run out first.
pub open spec fn feed(s: RunnerSpec, o: Outcome, outcomes: Seq<Outcome>) -> Option<CommandSpec>
    decreases s.rest.len(), outcomes.len(),
{
    let (s2, c) = next_command(s, o);
    match c {
        CommandSpec::Finish { .. } => Some(c),
        CommandSpec::Perform(_) => if outcomes.len() == 0 || s2.rest.len() >= s.rest.len() {
            None
        } else {
            feed(s2, outcomes[0], outcomes.drop_first())
        },
    }
}

/// The command that ends a request: its result, and whether the request
/// object is released.
pub open spec fn finish_with(result: Option<Result<(), ErrorSpec>>, release: bool) -> Option<
    CommandSpec,
> {
    match result {
        Some(r) => Some(CommandSpec::Finish { result: r, release }),
        None => None,
    }
}

/// The runner carries out its plan: a runner fed the outcomes of the calls it
/// hands out finishes with the error of the first call that fails or of the
/// first stopping step, whichever comes first, and with success where there
/// is neither. The outcome given before the first call is not looked at.
/// The request object is released when the request ends, exactly where a
/// call created it, however the request ends; the runner holds no object
/// after that, so it is released once.
pub proof fn law_runner_follows_plan(steps: Seq<StepSpec>, first: Outcome, outcomes: Seq<Outcome>)
    ensures
        feed(start(steps), first, outcomes) == finish_with(
            plan_result(steps, outcomes),
            plan_creates(steps, outcomes),
        ),
        next_command(start(steps), first).0.holds == false,
        forall|o: Outcome| #[trigger] next_command(ended(), o) == (ended(), CommandSpec::Finish { result: Ok(()), release: false }),
    decreases steps.len(),
{
    lemma_feed_pending(steps, None, false, false, first, outcomes);
}

proof fn lemma_feed_pending(
    steps: Seq<StepSpec>,
    pending: Option<FailureSpec>,
    creating: bool,
    holds: bool,
    o: Outcome,
    outcomes: Seq<Outcome>,
)
    ensures
        ({
            let s = RunnerSpec { rest: steps, pending, creating, holds };
            let h = holds_after(s, o);
            feed(s, o, outcomes) == match pending {
                Some(f) => match failure_error(f, o) {
                    Some(e) => Some(CommandSpec::Finish { result: Err(e), release: h }),
                    None => finish_with(plan_result(steps, outcomes), h || plan_creates(steps, outcomes)),
                },
                None => finish_with(plan_result(steps, outcomes), h || plan_creates(steps, outcomes)),
            }
        }),
    decreases steps.len(),
{
    let s = RunnerSpec { rest: steps, pending, creating, holds };
    let failed = match pending {
        Some(f) => failure_error(f, o),
        None => None,
    };
    if failed is None && steps.len() > 0 {
        match steps[0] {
            StepSpec::Fail(_) => {},
            StepSpec::Perform(c, f) => {
                if outcomes.len() > 0 {
                    lemma_feed_pending(
                        steps.drop_first(),
                        Some(f),
                        c is ObjCreate,
                        holds_after(s, o),
                        outcomes[0],
                        outcomes.drop_first(),
                    );
                }
            },
        }
    }
}

} // verus!
