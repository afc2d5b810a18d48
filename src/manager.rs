//! The orchestrator: owns the task context and runs its agents one after
//! another, with a fixed pause between them.
use vstd::prelude::*;
use crate::agent::BasicAgent;
use crate::analyst::{analyst_next, AgentAnalyst, AnalystView};
use crate::backend::{backend_next, AgentBackend, BackendView};
use crate::context::{TaskList, TaskListView};
use crate::protocol::{Action, ActionView, AgentError, Event, EventView};

verus! {

/// Seconds the orchestrator pauses after each agent.
pub const AGENT_PAUSE_SECONDS: u64 = 20;

/// Read access to the identity and lifecycle state of an agent.
pub trait GeneralAgent {
    fn get_attributes(&self) -> (r: &BasicAgent);
}

impl GeneralAgent for AgentAnalyst {
    fn get_attributes(&self) -> (r: &BasicAgent)
        ensures
            r == &self.attributes,
    {
        &self.attributes
    }
}

impl GeneralAgent for AgentBackend {
    fn get_attributes(&self) -> (r: &BasicAgent)
        ensures
            r == &self.attributes,
    {
        &self.attributes
    }
}

/// The agents the pipeline knows, one variant per kind.
#[derive(Debug)]
pub enum Agent {
    Analyst(AgentAnalyst),
    Backend(AgentBackend),
}

pub enum AgentView {
    Analyst(AnalystView),
    Backend(BackendView),
}

impl View for Agent {
    type V = AgentView;

    open spec fn view(&self) -> AgentView {
        match self {
            Agent::Analyst(a) => AgentView::Analyst(a@),
            Agent::Backend(b) => AgentView::Backend(b@),
        }
    }
}

/// One step of whichever agent this is.
pub open spec fn agent_next(a: AgentView, ctx: TaskListView, e: EventView) -> (AgentView, TaskListView, ActionView) {
    match a {
        AgentView::Analyst(x) => {
            let r = analyst_next(x, ctx, e);
            (AgentView::Analyst(r.0), r.1, r.2)
        },
        AgentView::Backend(x) => {
            let r = backend_next(x, ctx, e);
            (AgentView::Backend(r.0), r.1, r.2)
        },
    }
}

impl GeneralAgent for Agent {
    fn get_attributes(&self) -> (r: &BasicAgent)
        ensures
            r == match self {
                Agent::Analyst(a) => &a.attributes,
                Agent::Backend(b) => &b.attributes,
            },
    {
        match self {
            Agent::Analyst(a) => &a.attributes,
            Agent::Backend(b) => &b.attributes,
        }
    }
}

impl Agent {
    /// One step of the agent.
    pub fn execute(&mut self, tasklist: &mut TaskList, event: Event) -> (r: Action)
        ensures
            (final(self)@, final(tasklist)@, r@) == agent_next(old(self)@, old(tasklist)@, event@),
    {
        match self {
            Agent::Analyst(a) => a.execute(tasklist, event),
            Agent::Backend(b) => b.execute(tasklist, event),
        }
    }
}

/// The orchestrator.
#[derive(Debug)]
pub struct Manager {
    pub tasklist: TaskList,
    pub agents: Vec<Agent>,
    /// The position of the agent that runs now.
    pub current: usize,
    /// Whether the current agent has finished and the pause after it runs.
    pub pausing: bool,
    /// The fatal condition that stopped the pipeline, if any.
    pub halted: Option<AgentError>,
    /// Whether the first step, which lines up the agents, has run.
    pub started: bool,
}

pub struct ManagerView {
    pub tasklist: TaskListView,
    pub agents: Seq<AgentView>,
    pub current: nat,
    pub pausing: bool,
    pub halted: Option<AgentError>,
    pub started: bool,
}

impl View for Manager {
    type V = ManagerView;

    open spec fn view(&self) -> ManagerView {
        ManagerView {
            tasklist: self.tasklist@,
            agents: self.agents@.map_values(|a: Agent| a@),
            current: self.current as nat,
            pausing: self.pausing,
            halted: self.halted,
            started: self.started,
        }
    }
}

/// A finished agent starts the pause; a fatal action halts the pipeline;
/// any other action goes to the driver as it is.
pub open spec fn forward(m: ManagerView, a: ActionView) -> (ManagerView, ActionView) {
    match a {
        ActionView::Finished => (ManagerView { pausing: true, ..m }, ActionView::Wait(AGENT_PAUSE_SECONDS)),
        ActionView::Abort(e) => (ManagerView { halted: Some(e), ..m }, a),
        _ => (m, a),
    }
}

/// The current agent takes one step.
pub open spec fn run_current(m: ManagerView, e: EventView) -> (ManagerView, ActionView) {
    let r = agent_next(m.agents[m.current as int], m.tasklist, e);
    forward(ManagerView { agents: m.agents.update(m.current as int, r.0), tasklist: r.1, ..m }, r.2)
}

/// The scoping agent, then the build agent, each fresh.
pub open spec fn pipeline_agents() -> Seq<AgentView> {
    seq![AgentView::Analyst(AgentAnalyst::new_view()), AgentView::Backend(AgentBackend::new_view())]
}

/// One step of the orchestrator. The first step lines up the scoping agent
/// and the build agent after any agents already added, and starts the first
/// agent in line.
pub open spec fn manager_next(m: ManagerView, e: EventView) -> (ManagerView, ActionView) {
    match m.halted {
        Some(err) => (m, ActionView::Abort(err)),
        None => if !m.started {
            let m2 = ManagerView { started: true, agents: m.agents + pipeline_agents(), ..m };
            if m2.current < m2.agents.len() {
                run_current(m2, EventView::Ack)
            } else {
                (m2, ActionView::Finished)
            }
        } else if m.current >= m.agents.len() {
            (m, ActionView::Finished)
        } else if m.pausing {
            let m2 = ManagerView { pausing: false, current: m.current + 1, ..m };
            if m2.current < m2.agents.len() {
                run_current(m2, EventView::Ack)
            } else {
                (m2, ActionView::Finished)
            }
        } else {
            run_current(m, e)
        },
    }
}

impl Manager {
    /// An orchestrator for a project description, with no agents yet.
    pub fn new(description: String) -> (r: Manager)
        ensures
            r@ == (ManagerView {
                tasklist: TaskListView {
                    description: description@,
                    project_scope: None,
                    external_urls: None,
                    backend_code: None,
                    api_endpoint_schema: None,
                },
                agents: seq![],
                current: 0,
                pausing: false,
                halted: None,
                started: false,
            }),
    {
        let r = Manager {
            tasklist: TaskList::new(description),
            agents: Vec::new(),
            current: 0,
            pausing: false,
            halted: None,
            started: false,
        };
        assert(r@.agents =~= seq![]);
        r
    }

    /// Appends an agent to the end of the line.
    pub fn add_agent(&mut self, agent: Agent)
        ensures
            final(self)@ == (ManagerView { agents: old(self)@.agents.push(agent@), ..old(self)@ }),
    {
        let ghost before = self@;
        self.agents.push(agent);
        assert(self@.agents =~= before.agents.push(agent@));
    }

    /// Lines up the scoping agent, then the build agent.
    pub fn create_agents(&mut self)
        ensures
            final(self)@ == (ManagerView {
                agents: old(self)@.agents + pipeline_agents(),
                ..old(self)@
            }),
    {
        let ghost before = self@;
        self.add_agent(Agent::Analyst(AgentAnalyst::new()));
        self.add_agent(Agent::Backend(AgentBackend::new()));
        assert(self@.agents =~= before.agents + pipeline_agents());
    }

    fn forward(&mut self, action: Action) -> (r: Action)
        ensures
            (final(self)@, r@) == forward(old(self)@, action@),
    {
        match action {
            Action::Finished => {
                self.pausing = true;
                Action::Wait(AGENT_PAUSE_SECONDS)
            },
            Action::Abort(e) => {
                self.halted = Some(e);
                Action::Abort(e)
            },
            other => other,
        }
    }

    fn run_current(&mut self, event: Event) -> (r: Action)
        requires
            old(self).current < old(self).agents.len(),
        ensures
            (final(self)@, r@) == run_current(old(self)@, event@),
    {
        let ghost before = self@;
        let i: usize = self.current;
        let action = self.agents[i].execute(&mut self.tasklist, event);
        assert(self@.agents =~= before.agents.update(i as int, self.agents@[i as int]@));
        self.forward(action)
    }

    /// One step of the pipeline. The first step lines up the agents and
    /// starts the first one; after that the current agent handles the outcome of
    /// the last action; a finished agent is followed by a pause and then by
    /// the next agent; a fatal action halts everything.
    pub fn execute(&mut self, event: Event) -> (r: Action)
        ensures
            (final(self)@, r@) == manager_next(old(self)@, event@),
    {
        match self.halted {
            Some(err) => Action::Abort(err),
            None => {
                if !self.started {
                    self.started = true;
                    self.create_agents();
                    if self.current < self.agents.len() {
                        self.run_current(Event::Ack)
                    } else {
                        Action::Finished
                    }
                } else if self.current >= self.agents.len() {
                    Action::Finished
                } else if self.pausing {
                    self.pausing = false;
                    self.current = self.current + 1;
                    if self.current < self.agents.len() {
                        self.run_current(Event::Ack)
                    } else {
                        Action::Finished
                    }
                } else {
                    self.run_current(event)
                }
            },
        }
    }
}

} // verus!
