//! The scoping agent: decides the project scope and which external URLs the
//! backend may rely on.
use vstd::prelude::*;
use crate::agent::{AgentCommand, ChatMessage, AgentState, BasicAgent, BasicTrait};
use crate::context::{copy_texts, push_text, texts_view, ProjectScope, TaskList, TaskListView};
use crate::json::{decode_string_list, decoded_string_list};
use crate::protocol::{Action, ActionView, AgentError, Event, EventView, GenerationTask, ProbeOutcome, ProbeOutcomeView};

verus! {

/// What the scoping agent waits for next.
#[derive(Debug, Clone, Copy, PartialEq, Eq, Structural)]
pub enum AnalystStep {
    /// About to act on the current state.
    Begin,
    /// Waiting for the scope reply text.
    AwaitScopeText,
    /// Waiting for the decoded scope.
    AwaitScope,
    /// Waiting for the URL list reply text.
    AwaitUrlsText,
    /// Waiting for the outcome of the probe of `candidates[next_probe]`.
    AwaitProbe,
}

/// The scoping agent.
#[derive(Debug)]
pub struct AgentAnalyst {
    pub attributes: BasicAgent,
    pub step: AnalystStep,
    /// The URLs under test, in the order the generator listed them.
    pub candidates: Vec<String>,
    /// The URLs that have answered 200 so far, in order.
    pub kept: Vec<String>,
    pub next_probe: usize,
}

pub struct AnalystView {
    pub state: AgentState,
    pub step: AnalystStep,
    pub candidates: Seq<Seq<char>>,
    pub kept: Seq<Seq<char>>,
    pub next_probe: nat,
}

impl View for AgentAnalyst {
    type V = AnalystView;

    open spec fn view(&self) -> AnalystView {
        AnalystView {
            state: self.attributes.state,
            step: self.step,
            candidates: texts_view(self.candidates@),
            kept: texts_view(self.kept@),
            next_probe: self.next_probe as nat,
        }
    }
}

pub type AnalystResult = (AnalystView, TaskListView, ActionView);

/// A probe passes when it answered with status 200.
pub open spec fn probe_passed(o: ProbeOutcomeView) -> bool {
    o == ProbeOutcomeView::Status(200)
}

pub open spec fn analyst_abort(a: AnalystView, ctx: TaskListView, e: AgentError) -> AnalystResult {
    (AnalystView { state: AgentState::Done, ..a }, ctx, ActionView::Abort(e))
}

/// The scope is recorded; URLs are requested only when the scope needs them.
pub open spec fn scope_decided(a: AnalystView, ctx: TaskListView, s: ProjectScope) -> AnalystResult {
    let ctx2 = TaskListView { project_scope: Some(s), ..ctx };
    if s.is_external_urls_required {
        (
            AnalystView { step: AnalystStep::AwaitUrlsText, ..a },
            ctx2,
            ActionView::Generate { task: GenerationTask::SiteUrls, message: ctx.description },
        )
    } else {
        (AnalystView { state: AgentState::Done, ..a }, ctx2, ActionView::Finished)
    }
}

/// Probe the next candidate, or publish the survivors and finish.
pub open spec fn probe_or_finish(a: AnalystView, ctx: TaskListView) -> AnalystResult {
    if a.next_probe < a.candidates.len() {
        (a, ctx, ActionView::Probe(a.candidates[a.next_probe as int]))
    } else {
        (
            AnalystView { state: AgentState::Done, ..a },
            TaskListView { external_urls: Some(a.kept), ..ctx },
            ActionView::Finished,
        )
    }
}

/// The URL list is recorded and the agent enters `Testing`, announcing it;
/// the next step probes the first URL, or finishes when there is none.
pub open spec fn urls_decided(a: AnalystView, ctx: TaskListView, urls: Seq<Seq<char>>) -> AnalystResult {
    (
        AnalystView {
            state: AgentState::Testing,
            step: AnalystStep::Begin,
            candidates: urls,
            kept: seq![],
            next_probe: 0,
        },
        TaskListView { external_urls: Some(urls), ..ctx },
        ActionView::Report { kind: AgentCommand::Test, message: testing_notice() },
    )
}

pub open spec fn testing_notice() -> Seq<char> {
    "Testing external URL endpoints..."@
}

/// The URL under test is kept exactly when its probe passed.
pub open spec fn probe_recorded(a: AnalystView, ctx: TaskListView, o: ProbeOutcomeView) -> AnalystResult {
    if a.next_probe < a.candidates.len() {
        let kept = if probe_passed(o) {
            a.kept.push(a.candidates[a.next_probe as int])
        } else {
            a.kept
        };
        probe_or_finish(AnalystView { kept, next_probe: a.next_probe + 1, ..a }, ctx)
    } else {
        probe_or_finish(a, ctx)
    }
}

/// One step of the scoping agent: its next state, the context after it,
/// and the action it asks for.
pub open spec fn analyst_next(a: AnalystView, ctx: TaskListView, e: EventView) -> AnalystResult {
    match a.state {
        AgentState::Done => (a, ctx, ActionView::Finished),
        AgentState::Working => (AnalystView { state: AgentState::Done, ..a }, ctx, ActionView::Finished),
        AgentState::Planning => match a.step {
            AnalystStep::Begin => (
                AnalystView { step: AnalystStep::AwaitScopeText, ..a },
                ctx,
                ActionView::Generate { task: GenerationTask::ProjectScope, message: ctx.description },
            ),
            AnalystStep::AwaitScopeText => match e {
                EventView::Text(t) => (
                    AnalystView { step: AnalystStep::AwaitScope, ..a },
                    ctx,
                    ActionView::DecodeScope(t),
                ),
                _ => analyst_abort(a, ctx, AgentError::UnexpectedEvent),
            },
            AnalystStep::AwaitScope => match e {
                EventView::Scope(Some(s)) => scope_decided(a, ctx, s),
                EventView::Scope(None) => analyst_abort(a, ctx, AgentError::MalformedScope),
                _ => analyst_abort(a, ctx, AgentError::UnexpectedEvent),
            },
            AnalystStep::AwaitUrlsText => match e {
                EventView::Text(t) => match decoded_string_list(t) {
                    Some(urls) => urls_decided(a, ctx, urls),
                    None => analyst_abort(a, ctx, AgentError::MalformedUrls),
                },
                _ => analyst_abort(a, ctx, AgentError::UnexpectedEvent),
            },
            AnalystStep::AwaitProbe => analyst_abort(a, ctx, AgentError::UnexpectedEvent),
        },
        AgentState::Testing => match (a.step, e) {
            (AnalystStep::Begin, EventView::Ack) => probe_or_finish(
                AnalystView { step: AnalystStep::AwaitProbe, ..a },
                ctx,
            ),
            (AnalystStep::AwaitProbe, EventView::Probed(o)) => probe_recorded(a, ctx, o),
            _ => analyst_abort(a, ctx, AgentError::UnexpectedEvent),
        },
    }
}

impl AgentAnalyst {
    /// The state of a freshly made agent.
    pub open spec fn new_view() -> AnalystView {
        AnalystView {
            state: AgentState::Planning,
            step: AnalystStep::Begin,
            candidates: seq![],
            kept: seq![],
            next_probe: 0,
        }
    }

    pub open spec fn same_identity(&self, other: &AgentAnalyst) -> bool {
        self.attributes.objective@ == other.attributes.objective@
            && self.attributes.position@ == other.attributes.position@
            && self.attributes.memory@ == other.attributes.memory@
    }

    /// A scoping agent in state `Planning`.
    pub fn new() -> (r: AgentAnalyst)
        ensures
            r@ == Self::new_view(),
            r.attributes.position@ == "Analyst"@,
            r.attributes.memory@ == Seq::<ChatMessage>::empty(),
            r.attributes.objective@ == "Gather information and design solution for website development"@,
    {
        let attributes = BasicAgent::new(
            String::from_str("Gather information and design solution for website development"),
            String::from_str("Analyst"),
        );
        let r = AgentAnalyst {
            attributes,
            step: AnalystStep::Begin,
            candidates: Vec::new(),
            kept: Vec::new(),
            next_probe: 0,
        };
        assert(texts_view(r.candidates@) =~= seq![]);
        r
    }

    fn abort(&mut self, e: AgentError) -> (r: Action)
        ensures
            (final(self)@, r@) == ((AnalystView { state: AgentState::Done, ..old(self)@ }), ActionView::Abort(e)),
            final(self).same_identity(old(self)),
    {
        self.attributes.update_state(AgentState::Done);
        Action::Abort(e)
    }

    fn probe_or_finish(&mut self, tasklist: &mut TaskList) -> (r: Action)
        ensures
            (final(self)@, final(tasklist)@, r@) == probe_or_finish(old(self)@, old(tasklist)@),
            final(self).same_identity(old(self)),
    {
        if self.next_probe < self.candidates.len() {
            Action::Probe(self.candidates[self.next_probe].clone())
        } else {
            self.attributes.update_state(AgentState::Done);
            tasklist.external_urls = Some(copy_texts(&self.kept));
            Action::Finished
        }
    }

    /// Records the decoded scope decision and asks for the URL list when the
    /// scope needs external URLs; otherwise the agent is done.
    pub fn define_project_scope(&mut self, tasklist: &mut TaskList, scope: ProjectScope) -> (r: Action)
        ensures
            (final(self)@, final(tasklist)@, r@) == scope_decided(old(self)@, old(tasklist)@, scope),
            final(self).same_identity(old(self)),
    {
        tasklist.project_scope = Some(scope);
        if scope.is_external_urls_required {
            self.step = AnalystStep::AwaitUrlsText;
            Action::Generate { task: GenerationTask::SiteUrls, message: tasklist.description.clone() }
        } else {
            self.attributes.update_state(AgentState::Done);
            Action::Finished
        }
    }

    /// Records the decoded URL list and enters `Testing`.
    pub fn determine_external_urls(&mut self, tasklist: &mut TaskList, urls: Vec<String>) -> (r: Action)
        ensures
            (final(self)@, final(tasklist)@, r@) == urls_decided(old(self)@, old(tasklist)@, texts_view(urls@)),
            final(self).same_identity(old(self)),
    {
        self.candidates = copy_texts(&urls);
        tasklist.external_urls = Some(urls);
        self.kept = Vec::new();
        self.next_probe = 0;
        self.step = AnalystStep::Begin;
        self.attributes.update_state(AgentState::Testing);
        assert(texts_view(self.kept@) =~= seq![]);
        Action::Report { kind: AgentCommand::Test, message: String::from_str("Testing external URL endpoints...") }
    }

    /// Records the outcome of the probe of the URL under test.
    pub fn record_probe(&mut self, tasklist: &mut TaskList, outcome: ProbeOutcome) -> (r: Action)
        ensures
            (final(self)@, final(tasklist)@, r@) == probe_recorded(old(self)@, old(tasklist)@, outcome@),
            final(self).same_identity(old(self)),
    {
        if self.next_probe < self.candidates.len() {
            let passed = match outcome {
                ProbeOutcome::Status(code) => code == 200,
                ProbeOutcome::Failed(_) => false,
            };
            if passed {
                let url = self.candidates[self.next_probe].clone();
                push_text(&mut self.kept, url);
            }
            self.next_probe = self.next_probe + 1;
        }
        self.probe_or_finish(tasklist)
    }

    /// One step of the agent: handles the outcome of its last action and
    /// returns the next action.
    pub fn execute(&mut self, tasklist: &mut TaskList, event: Event) -> (r: Action)
        ensures
            (final(self)@, final(tasklist)@, r@) == analyst_next(old(self)@, old(tasklist)@, event@),
            final(self).same_identity(old(self)),
    {
        match self.attributes.state {
            AgentState::Done => Action::Finished,
            AgentState::Working => {
                self.attributes.update_state(AgentState::Done);
                Action::Finished
            },
            AgentState::Planning => match self.step {
                AnalystStep::Begin => {
                    self.step = AnalystStep::AwaitScopeText;
                    Action::Generate {
                        task: GenerationTask::ProjectScope,
                        message: tasklist.description.clone(),
                    }
                },
                AnalystStep::AwaitScopeText => match event {
                    Event::Text(t) => {
                        self.step = AnalystStep::AwaitScope;
                        Action::DecodeScope(t)
                    },
                    _ => self.abort(AgentError::UnexpectedEvent),
                },
                AnalystStep::AwaitScope => match event {
                    Event::Scope(Some(s)) => self.define_project_scope(tasklist, s),
                    Event::Scope(None) => self.abort(AgentError::MalformedScope),
                    _ => self.abort(AgentError::UnexpectedEvent),
                },
                AnalystStep::AwaitUrlsText => match event {
                    Event::Text(t) => match decode_string_list(t.as_str()) {
                        Ok(urls) => self.determine_external_urls(tasklist, urls),
                        Err(_) => self.abort(AgentError::MalformedUrls),
                    },
                    _ => self.abort(AgentError::UnexpectedEvent),
                },
                AnalystStep::AwaitProbe => self.abort(AgentError::UnexpectedEvent),
            },
            AgentState::Testing => match (self.step, event) {
                (AnalystStep::Begin, Event::Ack) => {
                    self.step = AnalystStep::AwaitProbe;
                    self.probe_or_finish(tasklist)
                },
                (AnalystStep::AwaitProbe, Event::Probed(o)) => self.record_probe(tasklist, o),
                _ => self.abort(AgentError::UnexpectedEvent),
            },
        }
    }
}

} // verus!
