use agent_pipeline::agent::{AgentCommand, AgentState, BasicAgent, BasicTrait, ChatMessage, CommandColor, Role};
use agent_pipeline::analyst::AgentAnalyst;
use agent_pipeline::backend::AgentBackend;
use agent_pipeline::console::{confirmation_choice, read_confirmation, user_answer};
use agent_pipeline::manager::GeneralAgent;
use agent_pipeline::prompt::extend_message_to_agent;
use crossterm::style::Stylize;

#[test]
fn test_init_basic_agent() {
    let basic_agent = BasicAgent {
        position: String::from("Analyst"),
        objective: String::from("Gather information and design solution for website development"),
        state: AgentState::Planning,
        memory: vec![],
    };
    println!("{:?}", basic_agent);
    assert_eq!(basic_agent.state, AgentState::Planning);
    assert!(basic_agent.memory.is_empty());
}

#[test]
fn basic_agent_new_and_update_state() {
    let mut agent = BasicAgent::new(String::from("Write code"), String::from("Coder"));
    assert_eq!(agent.objective, "Write code");
    assert_eq!(agent.position, "Coder");
    assert_eq!(agent.state, AgentState::Planning);
    agent.update_state(AgentState::Testing);
    assert_eq!(agent.state, AgentState::Testing);
    assert_eq!(agent.position, "Coder");
    assert!(agent.memory.is_empty());
}

#[test]
fn test_init_agent_analyst() {
    let agent_analyst = AgentAnalyst::new();
    println!("{:#?}", agent_analyst);
    assert_eq!(agent_analyst.get_attributes().position, "Analyst");
    assert_eq!(agent_analyst.get_attributes().state, AgentState::Planning);
    assert!(agent_analyst.get_attributes().memory.is_empty());
}

#[test]
fn test_init_agent_backend() {
    let agent_backend = AgentBackend::new();
    println!("{:#?}", agent_backend);
    assert_eq!(agent_backend.attributes.position, "Backend Developer");
    assert_eq!(agent_backend.attributes.state, AgentState::Planning);
    assert_eq!(agent_backend.bug_count, 0);
    assert_eq!(agent_backend.bug_errors, None);
    assert!(agent_backend.attributes.memory.is_empty());
}

#[test]
fn test_print_agent_message() {
    let info_command = AgentCommand::Info;
    let test_command = AgentCommand::Test;
    let issue_command = AgentCommand::Issue;

    assert_eq!(info_command.color(), CommandColor::Blue);
    assert_eq!(test_command.color(), CommandColor::Yellow);
    assert_eq!(issue_command.color(), CommandColor::Red);
    assert_eq!(AgentCommand::agent_label("Analyst"), "Agent::Analyst:");
    assert_eq!(AgentCommand::agent_label("Tetster"), "Agent::Tetster:");
    assert_eq!(AgentCommand::agent_label("Debugger"), "Agent::Debugger:");
    println!("{} {}", AgentCommand::agent_label("Analyst"), "Convert user input to goal");
    println!("{} {}", AgentCommand::agent_label("Tetster"), "Implement request in code");
    println!("{} {}", AgentCommand::agent_label("Debugger"), "Fix every bug in code");
}

#[test]
fn command_colors_have_fixed_components() {
    assert_eq!(CommandColor::Blue.rgb(), (105, 149, 210));
    assert_eq!(CommandColor::Yellow.rgb(), (243, 185, 96));
    assert_eq!(CommandColor::Red.rgb(), (208, 71, 72));
}

#[test]
fn test_print_out() {
    println!("{} ❌", format!("FAIL::{}", 404).red().bold());
    println!("{} ❌", format!("FAIL::{}", 404).red().bold());
    println!("{} ✅", format!("PASS::{}", 200).green().bold());
    println!("{} ✅", format!("PASS::{}", 200).green().bold());
}

#[test]
fn framed_request_embeds_function_text() {
    let function_text = "fn this_is_test(_param: &str) { /// Comment in this test\n println!(\"{}\", OUTPUT); }";
    let message: ChatMessage = extend_message_to_agent(function_text, "Blah blah blah...");
    println!("{:#?}", message);
    assert_eq!(message.role, Role::System);
    assert!(message.content.starts_with(&format!("FUNCTION: {}\nINSTRUCTION:", function_text)));
    assert!(message.content.contains("Here is the input to the function: Blah blah blah....\n"));
}

#[test]
fn test_extend_message_to_agent() {
    let task = "Converts a user request into a short goal for a website build";
    let chat_message: ChatMessage =
        extend_message_to_agent(task, "make website to tracking price crypto");
    println!("{:#?}", chat_message);
    let expected = format!(
        "FUNCTION: {}\nINSTRUCTION: You are a function printer. You ONLY print the results of functions. Nothing else. No commentary. Here is the input to the function: {}.\nPrint out what the function will return.",
        task, "make website to tracking price crypto"
    );
    assert_eq!(chat_message.content, expected);
}

#[test]
fn confirmation_answers() {
    assert_eq!(confirmation_choice("1"), Some(true));
    assert_eq!(confirmation_choice("2"), Some(false));
    assert_eq!(confirmation_choice("3"), None);
    assert_eq!(confirmation_choice(" 1"), None);
    assert_eq!(read_confirmation("1\n"), Some(true));
    assert_eq!(read_confirmation("  2 \r\n"), Some(false));
    assert_eq!(read_confirmation("yes\n"), None);
    assert_eq!(read_confirmation("\n"), None);
}

#[test]
fn user_answer_drops_surrounding_whitespace() {
    assert_eq!(user_answer("  build a task tracker \n"), "build a task tracker");
    assert_eq!(user_answer(""), "");
}
