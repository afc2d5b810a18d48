//! The lifecycle shared by all agents, and the console vocabulary they use.
use vstd::prelude::*;

verus! {

/// The four lifecycle states every agent moves through.
#[derive(Debug, Clone, Copy, PartialEq, Eq, Structural)]
pub enum AgentState {
    Planning,
    Working,
    Testing,
    Done,
}

/// The kind of a status line an agent reports.
#[derive(Debug, Clone, Copy, PartialEq, Eq, Structural)]
pub enum AgentCommand {
    Info,
    Test,
    Issue,
}

/// The console colours used for status lines.
#[derive(Debug, Clone, Copy, PartialEq, Eq, Structural)]
pub enum CommandColor {
    Blue,
    Yellow,
    Red,
}

pub open spec fn spec_rgb(c: CommandColor) -> (u8, u8, u8) {
    match c {
        CommandColor::Blue => (105, 149, 210),
        CommandColor::Yellow => (243, 185, 96),
        CommandColor::Red => (208, 71, 72),
    }
}

impl CommandColor {
    /// The red, green and blue components of the colour.
    pub fn rgb(&self) -> (r: (u8, u8, u8))
        ensures
            r == spec_rgb(*self),
    {
        match self {
            CommandColor::Blue => (105, 149, 210),
            CommandColor::Yellow => (243, 185, 96),
            CommandColor::Red => (208, 71, 72),
        }
    }
}

pub open spec fn spec_command_color(k: AgentCommand) -> CommandColor {
    match k {
        AgentCommand::Info => CommandColor::Blue,
        AgentCommand::Test => CommandColor::Yellow,
        AgentCommand::Issue => CommandColor::Red,
    }
}

pub open spec fn spec_agent_label(position: Seq<char>) -> Seq<char> {
    "Agent::"@ + position + ":"@
}

impl AgentCommand {
    /// The colour a status line of this kind is printed in.
    pub fn color(&self) -> (r: CommandColor)
        ensures
            r == spec_command_color(*self),
    {
        match self {
            AgentCommand::Info => CommandColor::Blue,
            AgentCommand::Test => CommandColor::Yellow,
            AgentCommand::Issue => CommandColor::Red,
        }
    }

    /// The prefix `Agent::<position>:` that opens every status line.
    pub fn agent_label(position: &str) -> (r: String)
        ensures
            r@ == spec_agent_label(position@),
    {
        let label = String::from_str("Agent::");
        let label = label.concat(position);
        label.concat(":")
    }
}

/// Who is speaking in a message to the text generation service.
#[derive(Debug, Clone, Copy, PartialEq, Eq, Structural)]
pub enum Role {
    System,
    User,
    Assistant,
}

/// One message of a conversation with the text generation service.
#[derive(Debug, Clone, PartialEq, Eq)]
pub struct ChatMessage {
    pub role: Role,
    pub content: String,
}

/// The identity and lifecycle state of one agent.
#[derive(Debug, Clone, PartialEq, Eq)]
pub struct BasicAgent {
    pub objective: String,
    pub position: String,
    pub state: AgentState,
    pub memory: Vec<ChatMessage>,
}

/// Construction and state change, shared by every agent.
pub trait BasicTrait: Sized {
    spec fn spec_objective(&self) -> Seq<char>;

    spec fn spec_position(&self) -> Seq<char>;

    spec fn spec_state(&self) -> AgentState;

    spec fn spec_memory(&self) -> Seq<ChatMessage>;

    fn new(objective: String, position: String) -> (r: Self)
        ensures
            r.spec_objective() == objective@,
            r.spec_position() == position@,
            r.spec_state() == AgentState::Planning,
            r.spec_memory() == Seq::<ChatMessage>::empty(),
    ;

    fn update_state(&mut self, new_state: AgentState)
        ensures
            final(self).spec_state() == new_state,
            final(self).spec_objective() == old(self).spec_objective(),
            final(self).spec_position() == old(self).spec_position(),
            final(self).spec_memory() == old(self).spec_memory(),
    ;
}

impl BasicTrait for BasicAgent {
    open spec fn spec_objective(&self) -> Seq<char> {
        self.objective@
    }

    open spec fn spec_position(&self) -> Seq<char> {
        self.position@
    }

    open spec fn spec_state(&self) -> AgentState {
        self.state
    }

    open spec fn spec_memory(&self) -> Seq<ChatMessage> {
        self.memory@
    }

    fn new(objective: String, position: String) -> (r: Self) {
        BasicAgent { objective, position, state: AgentState::Planning, memory: Vec::new() }
    }

    fn update_state(&mut self, new_state: AgentState) {
        self.state = new_state;
    }
}

} // verus!
