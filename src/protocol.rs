//! What agents ask their driver to do, and what the driver hands back.
use vstd::prelude::*;
use crate::agent::AgentCommand;
use crate::context::{opt_routes_view, ProjectScope, RouteObject, RouteView};

verus! {

/// Which instruction a generation request carries.
#[derive(Debug, Clone, Copy, PartialEq, Eq, Structural)]
pub enum GenerationTask {
    ProjectScope,
    SiteUrls,
    BackendCode,
    ImprovedCode,
    FixedCode,
    RestEndpoints,
}

/// How a build of the generated backend ended; a failure carries the
/// build's diagnostic output.
#[derive(Debug, Clone, PartialEq, Eq)]
pub enum BuildOutcome {
    Success,
    Failure(String),
}

/// How one HTTP probe ended: a status code, or a transport error.
#[derive(Debug, Clone, PartialEq, Eq)]
pub enum ProbeOutcome {
    Status(u16),
    Failed(String),
}

/// The fatal conditions that abort the pipeline.
#[derive(Debug, Clone, Copy, PartialEq, Eq, Structural)]
pub enum AgentError {
    /// The scope decision was not well-formed structured data.
    MalformedScope,
    /// The URL list was not a list of strings.
    MalformedUrls,
    /// The endpoint schema was not a list of route descriptors.
    MalformedSchema,
    /// The user declined to run the generated code.
    UnsafeCodeDeclined,
    /// The build failed more often than the retry ceiling allows.
    TooManyBugs,
    /// No generated source was present where one was needed.
    MissingSource,
    /// The driver handed back an event the agent was not waiting for.
    UnexpectedEvent,
}

/// The outcome of the last action, handed back to the agent.
#[derive(Debug, Clone, PartialEq, Eq)]
pub enum Event {
    /// The last action completed and has nothing to report.
    Ack,
    /// Text: a generation reply, or the code template.
    Text(String),
    /// The decoded scope decision; `None` when the reply was malformed.
    Scope(Option<ProjectScope>),
    /// The decoded endpoint schema; `None` when the reply was malformed.
    Routes(Option<Vec<RouteObject>>),
    /// The user's answer to the safety confirmation.
    Confirmed(bool),
    Built(BuildOutcome),
    Probed(ProbeOutcome),
}

/// One unit of outside work for the driver to perform.
#[derive(Debug, Clone, PartialEq, Eq)]
pub enum Action {
    /// Ask the generation service; answer with `Event::Text`.
    Generate { task: GenerationTask, message: String },
    /// Decode a scope decision; answer with `Event::Scope`.
    DecodeScope(String),
    /// Decode an endpoint schema; answer with `Event::Routes`.
    DecodeRoutes(String),
    /// Load the code template; answer with `Event::Text`.
    ReadTemplate,
    /// Persist the generated source; answer with `Event::Ack`.
    SaveCode(String),
    /// Persist the endpoint schema text; answer with `Event::Ack`.
    SaveSchema(String),
    /// Ask the user to confirm running generated code; answer with `Event::Confirmed`.
    Confirm,
    /// Build the generated backend; answer with `Event::Built`.
    Build,
    /// Start the built backend as a subprocess; answer with `Event::Ack`.
    StartServer,
    /// Sleep this many seconds; answer with `Event::Ack`.
    Wait(u64),
    /// Issue an HTTP GET with a short timeout; answer with `Event::Probed`.
    Probe(String),
    /// Kill the backend subprocess; answer with `Event::Ack`.
    StopServer,
    /// Print a status line; answer with `Event::Ack`.
    Report { kind: AgentCommand, message: String },
    /// The agent has finished its work.
    Finished,
    /// The pipeline must stop.
    Abort(AgentError),
}

pub enum BuildOutcomeView {
    Success,
    Failure(Seq<char>),
}

pub enum ProbeOutcomeView {
    Status(u16),
    Failed(Seq<char>),
}

pub enum EventView {
    Ack,
    Text(Seq<char>),
    Scope(Option<ProjectScope>),
    Routes(Option<Seq<RouteView>>),
    Confirmed(bool),
    Built(BuildOutcomeView),
    Probed(ProbeOutcomeView),
}

pub enum ActionView {
    Generate { task: GenerationTask, message: Seq<char> },
    DecodeScope(Seq<char>),
    DecodeRoutes(Seq<char>),
    ReadTemplate,
    SaveCode(Seq<char>),
    SaveSchema(Seq<char>),
    Confirm,
    Build,
    StartServer,
    Wait(u64),
    Probe(Seq<char>),
    StopServer,
    Report { kind: AgentCommand, message: Seq<char> },
    Finished,
    Abort(AgentError),
}

impl View for BuildOutcome {
    type V = BuildOutcomeView;

    open spec fn view(&self) -> BuildOutcomeView {
        match self {
            BuildOutcome::Success => BuildOutcomeView::Success,
            BuildOutcome::Failure(e) => BuildOutcomeView::Failure(e@),
        }
    }
}

impl View for ProbeOutcome {
    type V = ProbeOutcomeView;

    open spec fn view(&self) -> ProbeOutcomeView {
        match self {
            ProbeOutcome::Status(c) => ProbeOutcomeView::Status(*c),
            ProbeOutcome::Failed(e) => ProbeOutcomeView::Failed(e@),
        }
    }
}

impl View for Event {
    type V = EventView;

    open spec fn view(&self) -> EventView {
        match self {
            Event::Ack => EventView::Ack,
            Event::Text(t) => EventView::Text(t@),
            Event::Scope(s) => EventView::Scope(*s),
            Event::Routes(r) => EventView::Routes(opt_routes_view(*r)),
            Event::Confirmed(b) => EventView::Confirmed(*b),
            Event::Built(o) => EventView::Built(o@),
            Event::Probed(o) => EventView::Probed(o@),
        }
    }
}

impl View for Action {
    type V = ActionView;

    open spec fn view(&self) -> ActionView {
        match self {
            Action::Generate { task, message } => ActionView::Generate { task: *task, message: message@ },
            Action::DecodeScope(t) => ActionView::DecodeScope(t@),
            Action::DecodeRoutes(t) => ActionView::DecodeRoutes(t@),
            Action::ReadTemplate => ActionView::ReadTemplate,
            Action::SaveCode(t) => ActionView::SaveCode(t@),
            Action::SaveSchema(t) => ActionView::SaveSchema(t@),
            Action::Confirm => ActionView::Confirm,
            Action::Build => ActionView::Build,
            Action::StartServer => ActionView::StartServer,
            Action::Wait(s) => ActionView::Wait(*s),
            Action::Probe(u) => ActionView::Probe(u@),
            Action::StopServer => ActionView::StopServer,
            Action::Report { kind, message } => ActionView::Report { kind: *kind, message: message@ },
            Action::Finished => ActionView::Finished,
            Action::Abort(e) => ActionView::Abort(*e),
        }
    }
}

impl Action {
    /// Whether the action ends the agent's run, successfully or not.
    pub fn is_terminal(&self) -> (r: bool)
        ensures
            r == (self@ is Finished || self@ is Abort),
    {
        match self {
            Action::Finished => true,
            Action::Abort(_) => true,
            _ => false,
        }
    }
}

} // verus!
