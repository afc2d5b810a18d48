//! The build agent: generates the backend, builds it with bounded fix
//! retries, and probes the running server.
//!
//! A transport error while probing kills the server at once; probing goes on
//! with the remaining endpoints, and the kill at the end of testing is asked
//! for only while the server still runs, so the server is killed exactly once.
use vstd::prelude::*;
use crate::agent::{ChatMessage, AgentCommand, AgentState, BasicAgent, BasicTrait};
use crate::context::{
    check_endpoints, copy_routes, probe_eligible, routes_view, RouteObject, RouteView, TaskList,
    TaskListView,
};
use crate::prompt::{debug_option, debug_option_text, debug_quoted, debug_text};
use crate::protocol::{
    Action, ActionView, AgentError, BuildOutcome, BuildOutcomeView, Event, EventView, GenerationTask,
    ProbeOutcome, ProbeOutcomeView,
};

verus! {

/// Build failures beyond this many are fatal.
pub const MAX_BUG_COUNT: u8 = 2;

/// Seconds the server is given to start listening before probing begins.
pub const WARM_UP_SECONDS: u64 = 5;

/// What the build agent waits for next.
#[derive(Debug, Clone, Copy, PartialEq, Eq, Structural)]
pub enum BackendStep {
    /// About to act on the current state.
    Begin,
    AwaitTemplate,
    AwaitCode,
    AwaitFix,
    AwaitImprove,
    /// A status line was asked for; each `Notice` step goes on at `Ack`.
    NoticeConfirm,
    AwaitConfirm,
    NoticeBuild,
    AwaitBuild,
    NoticeBuilt,
    /// The escalation was reported; the abort follows whatever comes next.
    NoticeFatal,
    AwaitSchemaText,
    AwaitRoutes,
    NoticeStart,
    AwaitServer,
    NoticeLaunch,
    AwaitWarmUp,
    NoticeProbe,
    /// Waiting for the probe of `probes[next_probe]`.
    AwaitProbe,
    /// Waiting for a report or a kill to complete before probing on.
    AwaitNotice,
    AwaitSchemaSaved,
    NoticeComplete,
    AwaitStop,
    /// The server was stopped after an unexpected event; the abort follows.
    AwaitHalt,
}

/// The build agent.
#[derive(Debug)]
pub struct AgentBackend {
    pub attributes: BasicAgent,
    /// The diagnostic output of the last failed build.
    pub bug_errors: Option<String>,
    /// Consecutive build failures since the last successful build.
    pub bug_count: u8,
    pub step: BackendStep,
    /// The endpoint schema text as the generator emitted it.
    pub schema_text: String,
    /// The probe-eligible routes, probed in order.
    pub probes: Vec<RouteObject>,
    pub next_probe: usize,
    /// Whether the backend subprocess was started and not yet killed.
    pub server_running: bool,
    /// A status line still to be reported.
    pub notice: Option<String>,
}

pub struct BackendView {
    pub state: AgentState,
    pub step: BackendStep,
    pub bug_errors: Option<Seq<char>>,
    pub bug_count: u8,
    pub schema_text: Seq<char>,
    pub probes: Seq<RouteView>,
    pub next_probe: nat,
    pub server_running: bool,
    pub notice: Option<Seq<char>>,
}

pub open spec fn opt_view(o: Option<String>) -> Option<Seq<char>> {
    match o {
        Some(s) => Some(s@),
        None => None,
    }
}

impl View for AgentBackend {
    type V = BackendView;

    open spec fn view(&self) -> BackendView {
        BackendView {
            state: self.attributes.state,
            step: self.step,
            bug_errors: opt_view(self.bug_errors),
            bug_count: self.bug_count,
            schema_text: self.schema_text@,
            probes: routes_view(self.probes@),
            next_probe: self.next_probe as nat,
            server_running: self.server_running,
            notice: opt_view(self.notice),
        }
    }
}

pub type BackendResult = (BackendView, TaskListView, ActionView);

pub open spec fn initial_message(template: Seq<char>, description: Seq<char>) -> Seq<char> {
    "CODE TEMPLATE: "@ + template + " \n PROJECT DESCRIPTION: "@ + description + " \n"@
}

/// The fix request: the broken source and the last build's diagnostics,
/// each rendered as `{:?}` renders it.
pub open spec fn fix_message(code: Seq<char>, errors: Option<Seq<char>>) -> Seq<char> {
    "BROKEN CODE: "@ + debug_quoted(code) + " \n ERROR BUGS: "@ + debug_option(errors)
        + " \n\n            THIS FUNCTION ONLY OUTPUTS CODE. JUST OUTPUT THE CODE."@
}

/// The improve request: the current source and the project description,
/// each rendered as `{:?}` renders it.
pub open spec fn improve_message(code: Seq<char>, description: Seq<char>) -> Seq<char> {
    "CODE TEMPLATE: "@ + debug_quoted(code) + " \n PROJECT DESCRIPTION: "@ + debug_quoted(description)
        + " \n"@
}

pub open spec fn endpoints_message(code: Seq<char>) -> Seq<char> {
    "CODE INPUT: "@ + code
}

/// The address of a route on the locally running backend.
pub open spec fn local_url(route: Seq<char>) -> Seq<char> {
    if route.len() > 0 && route[0] == '/' {
        "http://127.0.0.1:8080"@ + route
    } else {
        "http://127.0.0.1:8080/"@ + route
    }
}

pub open spec fn warning_message(route: Seq<char>) -> Seq<char> {
    "WARNING: Failed to call web server with endpoint "@ + route
}

pub open spec fn error_message(err: Seq<char>) -> Seq<char> {
    "Error checking: "@ + err
}

pub open spec fn confirm_notice() -> Seq<char> {
    "Confirm code is safe from user..."@
}

pub open spec fn build_notice() -> Seq<char> {
    "Building project..."@
}

pub open spec fn too_many_bugs_notice() -> Seq<char> {
    "Too many bugs found in code..."@
}

pub open spec fn built_notice() -> Seq<char> {
    "Server is built successful"@
}

pub open spec fn start_notice() -> Seq<char> {
    "Starting web server..."@
}

pub open spec fn launch_notice() -> Seq<char> {
    "Launching test endpoints in 5 seconds..."@
}

pub open spec fn probe_notice(route: Seq<char>) -> Seq<char> {
    "Testing endpoint "@ + route + "..."@
}

pub open spec fn complete_notice() -> Seq<char> {
    "Backend testing complete..."@
}

/// The agent moves to `step` and asks for a status line.
pub open spec fn notice(
    b: BackendView,
    ctx: TaskListView,
    step: BackendStep,
    kind: AgentCommand,
    message: Seq<char>,
) -> BackendResult {
    (BackendView { step, ..b }, ctx, ActionView::Report { kind, message })
}

/// The failure count after one more failed build.
pub open spec fn bumped(c: u8) -> u8 {
    if c < 255 {
        (c + 1) as u8
    } else {
        255
    }
}

pub open spec fn backend_abort(b: BackendView, ctx: TaskListView, e: AgentError) -> BackendResult {
    (BackendView { state: AgentState::Done, ..b }, ctx, ActionView::Abort(e))
}

/// The generated source is stored and persisted; the agent moves on.
pub open spec fn code_stored(
    b: BackendView,
    ctx: TaskListView,
    code: Seq<char>,
    next: AgentState,
) -> BackendResult {
    (
        BackendView { state: next, step: BackendStep::Begin, ..b },
        TaskListView { backend_code: Some(code), ..ctx },
        ActionView::SaveCode(code),
    )
}

/// `Working`: after a failed build, ask for a fix of the current source;
/// otherwise pass straight on to `Testing`.
pub open spec fn working_begin(b: BackendView, ctx: TaskListView) -> BackendResult {
    if b.bug_count > 0 {
        match ctx.backend_code {
            Some(code) => (
                BackendView { state: AgentState::Working, step: BackendStep::AwaitFix, ..b },
                ctx,
                ActionView::Generate {
                    task: GenerationTask::FixedCode,
                    message: fix_message(code, b.bug_errors),
                },
            ),
            None => backend_abort(b, ctx, AgentError::MissingSource),
        }
    } else {
        notice(
            BackendView { state: AgentState::Testing, ..b },
            ctx,
            BackendStep::NoticeConfirm,
            AgentCommand::Test,
            confirm_notice(),
        )
    }
}

/// Asks for an improved version of the current source, given the project
/// description.
pub open spec fn improve_requested(b: BackendView, ctx: TaskListView) -> BackendResult {
    match ctx.backend_code {
        Some(code) => (
            BackendView { state: AgentState::Working, step: BackendStep::AwaitImprove, ..b },
            ctx,
            ActionView::Generate {
                task: GenerationTask::ImprovedCode,
                message: improve_message(code, ctx.description),
            },
        ),
        None => backend_abort(b, ctx, AgentError::MissingSource),
    }
}

/// An event the agent was not waiting for is fatal; a running server is
/// stopped first.
pub open spec fn backend_unexpected(b: BackendView, ctx: TaskListView) -> BackendResult {
    if b.server_running {
        (
            BackendView { step: BackendStep::AwaitHalt, server_running: false, ..b },
            ctx,
            ActionView::StopServer,
        )
    } else {
        backend_abort(b, ctx, AgentError::UnexpectedEvent)
    }
}

/// A failed build is counted and either retried through a fix or, past the
/// ceiling, fatal; a successful build resets the count and asks for the
/// endpoint schema.
pub open spec fn build_finished(b: BackendView, ctx: TaskListView, o: BuildOutcomeView) -> BackendResult {
    match o {
        BuildOutcomeView::Failure(err) => {
            let b2 = BackendView { bug_count: bumped(b.bug_count), bug_errors: Some(err), ..b };
            if b2.bug_count > MAX_BUG_COUNT {
                notice(b2, ctx, BackendStep::NoticeFatal, AgentCommand::Issue, too_many_bugs_notice())
            } else {
                working_begin(BackendView { state: AgentState::Working, ..b2 }, ctx)
            }
        },
        BuildOutcomeView::Success => notice(
            BackendView { bug_count: 0, ..b },
            ctx,
            BackendStep::NoticeBuilt,
            AgentCommand::Test,
            built_notice(),
        ),
    }
}

/// Asks for the endpoint schema of the source that built.
pub open spec fn schema_requested(b: BackendView, ctx: TaskListView) -> BackendResult {
    match ctx.backend_code {
        Some(code) => (
            BackendView { step: BackendStep::AwaitSchemaText, ..b },
            ctx,
            ActionView::Generate { task: GenerationTask::RestEndpoints, message: endpoints_message(code) },
        ),
        None => backend_abort(b, ctx, AgentError::MissingSource),
    }
}

/// The probe-eligible routes are stored, and the server start announced.
pub open spec fn routes_decoded(b: BackendView, ctx: TaskListView, routes: Seq<RouteView>) -> BackendResult {
    let p = probe_eligible(routes);
    notice(
        BackendView { probes: p, next_probe: 0, notice: None, ..b },
        TaskListView { api_endpoint_schema: Some(p), ..ctx },
        BackendStep::NoticeStart,
        AgentCommand::Test,
        start_notice(),
    )
}

/// Announce the next endpoint, or persist the schema once all are probed.
pub open spec fn next_endpoint(b: BackendView, ctx: TaskListView) -> BackendResult {
    if b.next_probe < b.probes.len() {
        notice(
            b,
            ctx,
            BackendStep::NoticeProbe,
            AgentCommand::Test,
            probe_notice(b.probes[b.next_probe as int].route),
        )
    } else {
        (
            BackendView { step: BackendStep::AwaitSchemaSaved, ..b },
            ctx,
            ActionView::SaveSchema(b.schema_text),
        )
    }
}

/// A 200 moves on; another status is a warning; a transport error kills
/// the server if it still runs, then is reported. Probing goes on either way.
pub open spec fn endpoint_probed(b: BackendView, ctx: TaskListView, o: ProbeOutcomeView) -> BackendResult {
    if b.next_probe < b.probes.len() {
        let route = b.probes[b.next_probe as int].route;
        let b2 = BackendView { next_probe: b.next_probe + 1, step: BackendStep::AwaitNotice, ..b };
        match o {
            ProbeOutcomeView::Status(code) => if code == 200 {
                next_endpoint(BackendView { next_probe: b.next_probe + 1, ..b }, ctx)
            } else {
                (
                    b2,
                    ctx,
                    ActionView::Report { kind: AgentCommand::Issue, message: warning_message(route) },
                )
            },
            ProbeOutcomeView::Failed(err) => if b.server_running {
                (
                    BackendView { server_running: false, notice: Some(error_message(err)), ..b2 },
                    ctx,
                    ActionView::StopServer,
                )
            } else {
                (
                    b2,
                    ctx,
                    ActionView::Report { kind: AgentCommand::Issue, message: error_message(err) },
                )
            },
        }
    } else {
        next_endpoint(b, ctx)
    }
}

/// One step of the build agent: its next state, the context after it, and
/// the action it asks for.
pub open spec fn backend_next(b: BackendView, ctx: TaskListView, e: EventView) -> BackendResult {
    let unexpected = backend_unexpected(b, ctx);
    match b.state {
        AgentState::Done => (b, ctx, ActionView::Finished),
        AgentState::Planning => match (b.step, e) {
            (BackendStep::Begin, EventView::Ack) => (
                BackendView { step: BackendStep::AwaitTemplate, ..b },
                ctx,
                ActionView::ReadTemplate,
            ),
            (BackendStep::AwaitTemplate, EventView::Text(t)) => (
                BackendView { step: BackendStep::AwaitCode, ..b },
                ctx,
                ActionView::Generate {
                    task: GenerationTask::BackendCode,
                    message: initial_message(t, ctx.description),
                },
            ),
            (BackendStep::AwaitCode, EventView::Text(code)) => code_stored(b, ctx, code, AgentState::Working),
            _ => unexpected,
        },
        AgentState::Working => match (b.step, e) {
            (BackendStep::Begin, EventView::Ack) => working_begin(b, ctx),
            (BackendStep::AwaitFix, EventView::Text(code)) => code_stored(b, ctx, code, AgentState::Testing),
            (BackendStep::AwaitImprove, EventView::Text(code)) => code_stored(
                b,
                ctx,
                code,
                AgentState::Testing,
            ),
            _ => unexpected,
        },
        AgentState::Testing => match (b.step, e) {
            (BackendStep::Begin, EventView::Ack) => notice(
                b,
                ctx,
                BackendStep::NoticeConfirm,
                AgentCommand::Test,
                confirm_notice(),
            ),
            (BackendStep::NoticeConfirm, EventView::Ack) => (
                BackendView { step: BackendStep::AwaitConfirm, ..b },
                ctx,
                ActionView::Confirm,
            ),
            (BackendStep::AwaitConfirm, EventView::Confirmed(yes)) => if yes {
                notice(b, ctx, BackendStep::NoticeBuild, AgentCommand::Test, build_notice())
            } else {
                backend_abort(b, ctx, AgentError::UnsafeCodeDeclined)
            },
            (BackendStep::NoticeBuild, EventView::Ack) => (
                BackendView { step: BackendStep::AwaitBuild, ..b },
                ctx,
                ActionView::Build,
            ),
            (BackendStep::AwaitBuild, EventView::Built(o)) => build_finished(b, ctx, o),
            (BackendStep::NoticeFatal, _) => backend_abort(b, ctx, AgentError::TooManyBugs),
            (BackendStep::NoticeBuilt, EventView::Ack) => schema_requested(b, ctx),
            (BackendStep::AwaitSchemaText, EventView::Text(t)) => (
                BackendView { step: BackendStep::AwaitRoutes, schema_text: t, ..b },
                ctx,
                ActionView::DecodeRoutes(t),
            ),
            (BackendStep::AwaitRoutes, EventView::Routes(Some(routes))) => routes_decoded(b, ctx, routes),
            (BackendStep::AwaitRoutes, EventView::Routes(None)) => backend_abort(
                b,
                ctx,
                AgentError::MalformedSchema,
            ),
            (BackendStep::NoticeStart, EventView::Ack) => (
                BackendView { step: BackendStep::AwaitServer, server_running: true, ..b },
                ctx,
                ActionView::StartServer,
            ),
            (BackendStep::AwaitServer, EventView::Ack) => notice(
                b,
                ctx,
                BackendStep::NoticeLaunch,
                AgentCommand::Test,
                launch_notice(),
            ),
            (BackendStep::NoticeLaunch, EventView::Ack) => (
                BackendView { step: BackendStep::AwaitWarmUp, ..b },
                ctx,
                ActionView::Wait(WARM_UP_SECONDS),
            ),
            (BackendStep::AwaitWarmUp, EventView::Ack) => next_endpoint(b, ctx),
            (BackendStep::NoticeProbe, EventView::Ack) => if b.next_probe < b.probes.len() {
                (
                    BackendView { step: BackendStep::AwaitProbe, ..b },
                    ctx,
                    ActionView::Probe(local_url(b.probes[b.next_probe as int].route)),
                )
            } else {
                next_endpoint(b, ctx)
            },
            (BackendStep::AwaitProbe, EventView::Probed(o)) => endpoint_probed(b, ctx, o),
            (BackendStep::AwaitNotice, EventView::Ack) => match b.notice {
                Some(n) => (
                    BackendView { notice: None, ..b },
                    ctx,
                    ActionView::Report { kind: AgentCommand::Issue, message: n },
                ),
                None => next_endpoint(b, ctx),
            },
            (BackendStep::AwaitSchemaSaved, EventView::Ack) => notice(
                b,
                ctx,
                BackendStep::NoticeComplete,
                AgentCommand::Test,
                complete_notice(),
            ),
            (BackendStep::NoticeComplete, EventView::Ack) => if b.server_running {
                (
                    BackendView { step: BackendStep::AwaitStop, server_running: false, ..b },
                    ctx,
                    ActionView::StopServer,
                )
            } else {
                (BackendView { state: AgentState::Done, ..b }, ctx, ActionView::Finished)
            },
            (BackendStep::AwaitStop, EventView::Ack) => (
                BackendView { state: AgentState::Done, ..b },
                ctx,
                ActionView::Finished,
            ),
            (BackendStep::AwaitHalt, _) => backend_abort(b, ctx, AgentError::UnexpectedEvent),
            _ => unexpected,
        },
    }
}

/// The prompt that asks for the first version of the backend.
pub fn initial_code_message(template: &str, description: &str) -> (r: String)
    ensures
        r@ == initial_message(template@, description@),
{
    let m = String::from_str("CODE TEMPLATE: ");
    let m = m.concat(template);
    let m = m.concat(" \n PROJECT DESCRIPTION: ");
    let m = m.concat(description);
    m.concat(" \n")
}

/// The prompt that asks for a fix of broken code.
pub fn fix_code_message(code: &str, errors: &Option<String>) -> (r: String)
    ensures
        r@ == fix_message(code@, opt_view(*errors)),
{
    let m = String::from_str("BROKEN CODE: ");
    let m = m.concat(debug_text(code).as_str());
    let m = m.concat(" \n ERROR BUGS: ");
    let m = m.concat(debug_option_text(errors).as_str());
    m.concat(" \n\n            THIS FUNCTION ONLY OUTPUTS CODE. JUST OUTPUT THE CODE.")
}

/// The prompt that asks for an improved version of working code.
pub fn improve_code_message(code: &str, description: &str) -> (r: String)
    ensures
        r@ == improve_message(code@, description@),
{
    let m = String::from_str("CODE TEMPLATE: ");
    let m = m.concat(debug_text(code).as_str());
    let m = m.concat(" \n PROJECT DESCRIPTION: ");
    let m = m.concat(debug_text(description).as_str());
    m.concat(" \n")
}

/// The prompt that asks for the endpoint schema of the code.
pub fn endpoints_code_message(code: &str) -> (r: String)
    ensures
        r@ == endpoints_message(code@),
{
    String::from_str("CODE INPUT: ").concat(code)
}

/// The address of a route on the locally running backend.
pub fn route_url(route: &str) -> (r: String)
    ensures
        r@ == local_url(route@),
{
    if route.unicode_len() > 0 && route.get_char(0) == '/' {
        String::from_str("http://127.0.0.1:8080").concat(route)
    } else {
        String::from_str("http://127.0.0.1:8080/").concat(route)
    }
}

pub fn warning_text(route: &str) -> (r: String)
    ensures
        r@ == warning_message(route@),
{
    String::from_str("WARNING: Failed to call web server with endpoint ").concat(route)
}

pub fn probe_notice_text(route: &str) -> (r: String)
    ensures
        r@ == probe_notice(route@),
{
    String::from_str("Testing endpoint ").concat(route).concat("...")
}

pub fn error_text(err: &str) -> (r: String)
    ensures
        r@ == error_message(err@),
{
    String::from_str("Error checking: ").concat(err)
}

impl AgentBackend {
    /// The state of a freshly made agent.
    pub open spec fn new_view() -> BackendView {
        BackendView {
            state: AgentState::Planning,
            step: BackendStep::Begin,
            bug_errors: None,
            bug_count: 0,
            schema_text: seq![],
            probes: seq![],
            next_probe: 0,
            server_running: false,
            notice: None,
        }
    }

    pub open spec fn same_identity(&self, other: &AgentBackend) -> bool {
        self.attributes.objective@ == other.attributes.objective@
            && self.attributes.position@ == other.attributes.position@
            && self.attributes.memory@ == other.attributes.memory@
    }

    /// A build agent in state `Planning` with no failures counted.
    pub fn new() -> (r: AgentBackend)
        ensures
            r@ == Self::new_view(),
            r.attributes.position@ == "Backend Developer"@,
            r.attributes.memory@ == Seq::<ChatMessage>::empty(),
            r.attributes.objective@ == "Develop backend code for webserver and json database"@,
    {
        let attributes = BasicAgent::new(
            String::from_str("Develop backend code for webserver and json database"),
            String::from_str("Backend Developer"),
        );
        let r = AgentBackend {
            attributes,
            bug_errors: None,
            bug_count: 0,
            step: BackendStep::Begin,
            schema_text: String::new(),
            probes: Vec::new(),
            next_probe: 0,
            server_running: false,
            notice: None,
        };
        assert(routes_view(r.probes@) =~= seq![]);
        r
    }

    fn abort(&mut self, e: AgentError) -> (r: Action)
        ensures
            (final(self)@, r@) == ((BackendView { state: AgentState::Done, ..old(self)@ }), ActionView::Abort(e)),
            final(self).same_identity(old(self)),
    {
        self.attributes.update_state(AgentState::Done);
        Action::Abort(e)
    }

    fn store_code(&mut self, tasklist: &mut TaskList, code: String, next: AgentState) -> (r: Action)
        ensures
            (final(self)@, final(tasklist)@, r@) == code_stored(old(self)@, old(tasklist)@, code@, next),
            final(self).same_identity(old(self)),
    {
        self.attributes.update_state(next);
        self.step = BackendStep::Begin;
        let saved = code.clone();
        tasklist.backend_code = Some(code);
        Action::SaveCode(saved)
    }

    /// Combines the code template with the project description into the
    /// request for the first version of the backend.
    pub fn initial_backend_code(&mut self, tasklist: &TaskList, template: &str) -> (r: Action)
        ensures
            final(self)@ == (BackendView { step: BackendStep::AwaitCode, ..old(self)@ }),
            r@ == (ActionView::Generate {
                task: GenerationTask::BackendCode,
                message: initial_message(template@, tasklist@.description),
            }),
            final(self).same_identity(old(self)),
    {
        self.step = BackendStep::AwaitCode;
        let message = initial_code_message(template, tasklist.description.as_str());
        Action::Generate { task: GenerationTask::BackendCode, message }
    }

    /// Asks for a fix of the current source, given the last build's
    /// diagnostics.
    pub fn fix_bug(&mut self, tasklist: &TaskList) -> (r: Action)
        requires
            old(self)@.bug_count > 0,
        ensures
            (final(self)@, tasklist@, r@) == working_begin(old(self)@, tasklist@),
            final(self).same_identity(old(self)),
    {
        match &tasklist.backend_code {
            Some(code) => {
                self.attributes.update_state(AgentState::Working);
                self.step = BackendStep::AwaitFix;
                let message = fix_code_message(code.as_str(), &self.bug_errors);
                Action::Generate { task: GenerationTask::FixedCode, message }
            },
            None => self.abort(AgentError::MissingSource),
        }
    }

    /// `Working` after a build that did not fail: no generation runs, and the
    /// agent passes straight on to `Testing`.
    pub fn working_pass_through(&mut self) -> (r: Action)
        requires
            old(self)@.bug_count == 0,
        ensures
            final(self)@ == (BackendView {
                state: AgentState::Testing,
                step: BackendStep::NoticeConfirm,
                ..old(self)@
            }),
            r@ == (ActionView::Report { kind: AgentCommand::Test, message: confirm_notice() }),
            final(self).same_identity(old(self)),
    {
        self.attributes.update_state(AgentState::Testing);
        self.notify(BackendStep::NoticeConfirm, AgentCommand::Test, String::from_str("Confirm code is safe from user..."))
    }

    fn notify(&mut self, step: BackendStep, kind: AgentCommand, message: String) -> (r: Action)
        ensures
            final(self)@ == (BackendView { step, ..old(self)@ }),
            r@ == (ActionView::Report { kind, message: message@ }),
            final(self).same_identity(old(self)),
    {
        self.step = step;
        Action::Report { kind, message }
    }

    /// Asks for an improved version of the current source, given the project
    /// description; the reply is stored and persisted like a fix, and the
    /// agent then moves on to `Testing`.
    pub fn improve_backend_code(&mut self, tasklist: &TaskList) -> (r: Action)
        ensures
            (final(self)@, tasklist@, r@) == improve_requested(old(self)@, tasklist@),
            final(self).same_identity(old(self)),
    {
        match &tasklist.backend_code {
            Some(code) => {
                self.attributes.update_state(AgentState::Working);
                self.step = BackendStep::AwaitImprove;
                let message = improve_code_message(code.as_str(), tasklist.description.as_str());
                Action::Generate { task: GenerationTask::ImprovedCode, message }
            },
            None => self.abort(AgentError::MissingSource),
        }
    }

    fn unexpected(&mut self) -> (r: Action)
        ensures
            (final(self)@, r@) == ({
                let x = backend_unexpected(old(self)@, arbitrary());
                (x.0, x.2)
            }),
            final(self).same_identity(old(self)),
    {
        if self.server_running {
            self.step = BackendStep::AwaitHalt;
            self.server_running = false;
            Action::StopServer
        } else {
            self.abort(AgentError::UnexpectedEvent)
        }
    }

    fn working_begin(&mut self, tasklist: &TaskList) -> (r: Action)
        ensures
            (final(self)@, tasklist@, r@) == working_begin(old(self)@, tasklist@),
            final(self).same_identity(old(self)),
    {
        if self.bug_count > 0 {
            self.fix_bug(tasklist)
        } else {
            self.working_pass_through()
        }
    }

    /// Asks for the endpoint schema of the source that built.
    pub fn extract_rest_api_endpoints(&mut self, tasklist: &TaskList) -> (r: Action)
        ensures
            (final(self)@, tasklist@, r@) == schema_requested(old(self)@, tasklist@),
            final(self).same_identity(old(self)),
    {
        match &tasklist.backend_code {
            Some(code) => {
                self.step = BackendStep::AwaitSchemaText;
                let message = endpoints_code_message(code.as_str());
                Action::Generate { task: GenerationTask::RestEndpoints, message }
            },
            None => self.abort(AgentError::MissingSource),
        }
    }

    /// Counts a build outcome: a failure is retried through a fix until the
    /// ceiling is passed, then it is fatal.
    pub fn record_build(&mut self, tasklist: &TaskList, outcome: BuildOutcome) -> (r: Action)
        ensures
            (final(self)@, tasklist@, r@) == build_finished(old(self)@, tasklist@, outcome@),
            final(self).same_identity(old(self)),
    {
        match outcome {
            BuildOutcome::Failure(err) => {
                self.bug_count = self.bug_count.saturating_add(1);
                self.bug_errors = Some(err);
                if self.bug_count > MAX_BUG_COUNT {
                    self.notify(
                        BackendStep::NoticeFatal,
                        AgentCommand::Issue,
                        String::from_str("Too many bugs found in code..."),
                    )
                } else {
                    self.attributes.update_state(AgentState::Working);
                    self.working_begin(tasklist)
                }
            },
            BuildOutcome::Success => {
                self.bug_count = 0;
                self.notify(BackendStep::NoticeBuilt, AgentCommand::Test, String::from_str("Server is built successful"))
            },
        }
    }

    /// Stores the probe-eligible routes and starts the server.
    pub fn record_routes(&mut self, tasklist: &mut TaskList, routes: Vec<RouteObject>) -> (r: Action)
        ensures
            (final(self)@, final(tasklist)@, r@) == routes_decoded(old(self)@, old(tasklist)@, routes_view(routes@)),
            final(self).same_identity(old(self)),
    {
        let eligible = check_endpoints(&routes);
        self.probes = copy_routes(&eligible);
        tasklist.api_endpoint_schema = Some(eligible);
        self.next_probe = 0;
        self.notice = None;
        self.notify(BackendStep::NoticeStart, AgentCommand::Test, String::from_str("Starting web server..."))
    }

    fn next_endpoint(&mut self) -> (r: Action)
        ensures
            final(self)@ == next_endpoint(old(self)@, arbitrary()).0,
            r@ == next_endpoint(old(self)@, arbitrary()).2,
            final(self).same_identity(old(self)),
    {
        if self.next_probe < self.probes.len() {
            let message = probe_notice_text(self.probes[self.next_probe].route.as_str());
            self.notify(BackendStep::NoticeProbe, AgentCommand::Test, message)
        } else {
            self.step = BackendStep::AwaitSchemaSaved;
            Action::SaveSchema(self.schema_text.clone())
        }
    }

    /// Handles the outcome of the probe of the endpoint under test.
    pub fn record_probe(&mut self, outcome: ProbeOutcome) -> (r: Action)
        ensures
            final(self)@ == endpoint_probed(old(self)@, arbitrary(), outcome@).0,
            r@ == endpoint_probed(old(self)@, arbitrary(), outcome@).2,
            final(self).same_identity(old(self)),
    {
        if self.next_probe < self.probes.len() {
            let i: usize = self.next_probe;
            self.next_probe = i + 1;
            match outcome {
                ProbeOutcome::Status(code) => {
                    if code == 200 {
                        self.next_endpoint()
                    } else {
                        self.step = BackendStep::AwaitNotice;
                        let message = warning_text(self.probes[i].route.as_str());
                        Action::Report { kind: AgentCommand::Issue, message }
                    }
                },
                ProbeOutcome::Failed(err) => {
                    self.step = BackendStep::AwaitNotice;
                    let message = error_text(err.as_str());
                    if self.server_running {
                        self.server_running = false;
                        self.notice = Some(message);
                        Action::StopServer
                    } else {
                        Action::Report { kind: AgentCommand::Issue, message }
                    }
                },
            }
        } else {
            self.next_endpoint()
        }
    }

    /// One step of the agent: handles the outcome of its last action and
    /// returns the next action.
    pub fn execute(&mut self, tasklist: &mut TaskList, event: Event) -> (r: Action)
        ensures
            (final(self)@, final(tasklist)@, r@) == backend_next(old(self)@, old(tasklist)@, event@),
            final(self).same_identity(old(self)),
    {
        match self.attributes.state {
            AgentState::Done => Action::Finished,
            AgentState::Planning => match (self.step, event) {
                (BackendStep::Begin, Event::Ack) => {
                    self.step = BackendStep::AwaitTemplate;
                    Action::ReadTemplate
                },
                (BackendStep::AwaitTemplate, Event::Text(t)) => self.initial_backend_code(tasklist, t.as_str()),
                (BackendStep::AwaitCode, Event::Text(code)) => self.store_code(tasklist, code, AgentState::Working),
                _ => self.unexpected(),
            },
            AgentState::Working => match (self.step, event) {
                (BackendStep::Begin, Event::Ack) => self.working_begin(tasklist),
                (BackendStep::AwaitFix, Event::Text(code)) => self.store_code(tasklist, code, AgentState::Testing),
                (BackendStep::AwaitImprove, Event::Text(code)) => self.store_code(
                    tasklist,
                    code,
                    AgentState::Testing,
                ),
                _ => self.unexpected(),
            },
            AgentState::Testing => match (self.step, event) {
                (BackendStep::Begin, Event::Ack) => self.notify(
                    BackendStep::NoticeConfirm,
                    AgentCommand::Test,
                    String::from_str("Confirm code is safe from user..."),
                ),
                (BackendStep::NoticeConfirm, Event::Ack) => {
                    self.step = BackendStep::AwaitConfirm;
                    Action::Confirm
                },
                (BackendStep::AwaitConfirm, Event::Confirmed(yes)) => {
                    if yes {
                        self.notify(BackendStep::NoticeBuild, AgentCommand::Test, String::from_str("Building project..."))
                    } else {
                        self.abort(AgentError::UnsafeCodeDeclined)
                    }
                },
                (BackendStep::NoticeBuild, Event::Ack) => {
                    self.step = BackendStep::AwaitBuild;
                    Action::Build
                },
                (BackendStep::AwaitBuild, Event::Built(o)) => self.record_build(tasklist, o),
                (BackendStep::NoticeFatal, _) => self.abort(AgentError::TooManyBugs),
                (BackendStep::NoticeBuilt, Event::Ack) => self.extract_rest_api_endpoints(tasklist),
                (BackendStep::AwaitSchemaText, Event::Text(t)) => {
                    self.step = BackendStep::AwaitRoutes;
                    let decode = t.clone();
                    self.schema_text = t;
                    Action::DecodeRoutes(decode)
                },
                (BackendStep::AwaitRoutes, Event::Routes(Some(routes))) => self.record_routes(tasklist, routes),
                (BackendStep::AwaitRoutes, Event::Routes(None)) => self.abort(AgentError::MalformedSchema),
                (BackendStep::NoticeStart, Event::Ack) => {
                    self.step = BackendStep::AwaitServer;
                    self.server_running = true;
                    Action::StartServer
                },
                (BackendStep::AwaitServer, Event::Ack) => self.notify(
                    BackendStep::NoticeLaunch,
                    AgentCommand::Test,
                    String::from_str("Launching test endpoints in 5 seconds..."),
                ),
                (BackendStep::NoticeLaunch, Event::Ack) => {
                    self.step = BackendStep::AwaitWarmUp;
                    Action::Wait(WARM_UP_SECONDS)
                },
                (BackendStep::AwaitWarmUp, Event::Ack) => self.next_endpoint(),
                (BackendStep::NoticeProbe, Event::Ack) => {
                    if self.next_probe < self.probes.len() {
                        self.step = BackendStep::AwaitProbe;
                        let url = route_url(self.probes[self.next_probe].route.as_str());
                        Action::Probe(url)
                    } else {
                        self.next_endpoint()
                    }
                },
                (BackendStep::AwaitProbe, Event::Probed(o)) => self.record_probe(o),
                (BackendStep::AwaitNotice, Event::Ack) => match self.notice.take() {
                    Some(n) => Action::Report { kind: AgentCommand::Issue, message: n },
                    None => self.next_endpoint(),
                },
                (BackendStep::AwaitSchemaSaved, Event::Ack) => self.notify(
                    BackendStep::NoticeComplete,
                    AgentCommand::Test,
                    String::from_str("Backend testing complete..."),
                ),
                (BackendStep::NoticeComplete, Event::Ack) => {
                    if self.server_running {
                        self.step = BackendStep::AwaitStop;
                        self.server_running = false;
                        Action::StopServer
                    } else {
                        self.attributes.update_state(AgentState::Done);
                        Action::Finished
                    }
                },
                (BackendStep::AwaitStop, Event::Ack) => {
                    self.attributes.update_state(AgentState::Done);
                    Action::Finished
                },
                (BackendStep::AwaitHalt, _) => self.abort(AgentError::UnexpectedEvent),
                _ => self.unexpected(),
            },
        }
    }
}

} // verus!
