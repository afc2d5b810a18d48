use agent_pipeline::agent::AgentState;
use agent_pipeline::analyst::AgentAnalyst;
use agent_pipeline::context::ProjectScope;
use agent_pipeline::manager::{Agent, GeneralAgent, Manager, AGENT_PAUSE_SECONDS};
use agent_pipeline::protocol::{Action, AgentError, Event, GenerationTask};

#[test]
fn agents_run_in_order_with_a_pause_between() {
    let mut manager = Manager::new(String::from("task tracker"));
    assert!(manager.agents.is_empty());
    // the first step lines up the scoping agent and the build agent
    assert_eq!(
        manager.execute(Event::Ack),
        Action::Generate { task: GenerationTask::ProjectScope, message: String::from("task tracker") }
    );
    assert_eq!(manager.agents.len(), 2);
    assert!(matches!(manager.agents[0], Agent::Analyst(_)));
    assert!(matches!(manager.agents[1], Agent::Backend(_)));
    assert_eq!(manager.execute(Event::Text(String::from("{}"))), Action::DecodeScope(String::from("{}")));
    let scope = ProjectScope { is_crud_required: true, is_user_login_and_logout: false, is_external_urls_required: false };
    assert_eq!(manager.execute(Event::Scope(Some(scope))), Action::Wait(AGENT_PAUSE_SECONDS));
    assert_eq!(manager.tasklist.project_scope, Some(scope));
    assert_eq!(manager.agents[0].get_attributes().state, AgentState::Done);
    // after the pause the build agent starts, seeing the scope
    assert_eq!(manager.execute(Event::Ack), Action::ReadTemplate);
    assert_eq!(manager.current, 1);
    assert_eq!(manager.agents.len(), 2);
}

#[test]
fn a_fatal_action_halts_the_pipeline() {
    let mut manager = Manager::new(String::from("task tracker"));
    manager.execute(Event::Ack);
    manager.execute(Event::Text(String::from("garbage")));
    assert_eq!(manager.execute(Event::Scope(None)), Action::Abort(AgentError::MalformedScope));
    assert_eq!(manager.execute(Event::Ack), Action::Abort(AgentError::MalformedScope));
    assert_eq!(manager.current, 0);
}

#[test]
fn agents_added_before_the_start_run_first() {
    let mut manager = Manager::new(String::from("x"));
    manager.add_agent(Agent::Analyst(AgentAnalyst::new()));
    manager.execute(Event::Ack);
    assert_eq!(manager.agents.len(), 3);
    manager.execute(Event::Text(String::from("{}")));
    let scope = ProjectScope { is_crud_required: false, is_user_login_and_logout: false, is_external_urls_required: false };
    assert_eq!(manager.execute(Event::Scope(Some(scope))), Action::Wait(AGENT_PAUSE_SECONDS));
    assert_eq!(
        manager.execute(Event::Ack),
        Action::Generate { task: GenerationTask::ProjectScope, message: String::from("x") }
    );
    assert_eq!(manager.current, 1);
}
