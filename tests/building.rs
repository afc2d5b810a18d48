use agent_pipeline::agent::{AgentCommand, AgentState};
use agent_pipeline::backend::{
    endpoints_code_message, fix_code_message, improve_code_message, initial_code_message, route_url,
    AgentBackend, BackendStep, WARM_UP_SECONDS,
};
use agent_pipeline::context::{check_endpoints, RouteObject, TaskList};
use agent_pipeline::protocol::{Action, AgentError, BuildOutcome, Event, GenerationTask, ProbeOutcome};

fn route(path: &str, dynamic: &str, method: &str) -> RouteObject {
    RouteObject {
        is_route_dynamic: String::from(dynamic),
        method: String::from(method),
        request_body: String::from("\"None\""),
        response: String::from("{\"id\":\"number\"}"),
        route: String::from(path),
    }
}

fn test_line(message: &str) -> Action {
    Action::Report { kind: AgentCommand::Test, message: String::from(message) }
}

fn issue_line(message: &str) -> Action {
    Action::Report { kind: AgentCommand::Issue, message: String::from(message) }
}

/// From `Testing` at its start: the confirmation notice, the confirmation,
/// the build notice and the build.
fn confirm_and_build(agent: &mut AgentBackend, ctx: &mut TaskList) {
    assert_eq!(agent.attributes.state, AgentState::Testing);
    assert_eq!(agent.execute(ctx, Event::Ack), test_line("Confirm code is safe from user..."));
    assert_eq!(agent.execute(ctx, Event::Ack), Action::Confirm);
    assert_eq!(agent.execute(ctx, Event::Confirmed(true)), test_line("Building project..."));
    assert_eq!(agent.execute(ctx, Event::Ack), Action::Build);
}

/// Drives a fresh build agent up to its first build request.
fn to_first_build(agent: &mut AgentBackend, ctx: &mut TaskList) {
    assert_eq!(agent.execute(ctx, Event::Ack), Action::ReadTemplate);
    assert_eq!(
        agent.execute(ctx, Event::Text(String::from("TEMPLATE"))),
        Action::Generate {
            task: GenerationTask::BackendCode,
            message: String::from("CODE TEMPLATE: TEMPLATE \n PROJECT DESCRIPTION: task tracker \n"),
        }
    );
    assert_eq!(
        agent.execute(ctx, Event::Text(String::from("code v1"))),
        Action::SaveCode(String::from("code v1"))
    );
    assert_eq!(ctx.backend_code, Some(String::from("code v1")));
    assert_eq!(agent.attributes.state, AgentState::Working);
    assert_eq!(agent.execute(ctx, Event::Ack), test_line("Confirm code is safe from user..."));
    assert_eq!(agent.attributes.state, AgentState::Testing);
    assert_eq!(agent.execute(ctx, Event::Ack), Action::Confirm);
    assert_eq!(agent.execute(ctx, Event::Confirmed(true)), test_line("Building project..."));
    assert_eq!(agent.execute(ctx, Event::Ack), Action::Build);
}

/// After a failed build: the fix request, the saved fix, and the next build.
fn fix_cycle(agent: &mut AgentBackend, ctx: &mut TaskList, failed: Action, fixed: &str) {
    match failed {
        Action::Generate { task, .. } => assert_eq!(task, GenerationTask::FixedCode),
        other => panic!("expected a fix request, got {:?}", other),
    }
    assert_eq!(agent.attributes.state, AgentState::Working);
    assert_eq!(
        agent.execute(ctx, Event::Text(String::from(fixed))),
        Action::SaveCode(String::from(fixed))
    );
    confirm_and_build(agent, ctx);
}

#[test]
fn three_failed_builds_escalate_once() {
    let mut ctx = TaskList::new(String::from("task tracker"));
    let mut agent = AgentBackend::new();
    to_first_build(&mut agent, &mut ctx);
    let mut builds = 1;
    let mut escalations = 0;

    let a = agent.execute(&mut ctx, Event::Built(BuildOutcome::Failure(String::from("e1"))));
    assert_eq!(
        a,
        Action::Generate {
            task: GenerationTask::FixedCode,
            message: String::from(
                "BROKEN CODE: \"code v1\" \n ERROR BUGS: Some(\"e1\") \n\n            THIS FUNCTION ONLY OUTPUTS CODE. JUST OUTPUT THE CODE."
            ),
        }
    );
    assert_eq!(agent.bug_count, 1);
    fix_cycle(&mut agent, &mut ctx, a, "code v2");
    builds += 1;

    let a = agent.execute(&mut ctx, Event::Built(BuildOutcome::Failure(String::from("e2"))));
    assert_eq!(agent.bug_count, 2);
    assert_eq!(agent.bug_errors, Some(String::from("e2")));
    fix_cycle(&mut agent, &mut ctx, a, "code v3");
    builds += 1;

    let a = agent.execute(&mut ctx, Event::Built(BuildOutcome::Failure(String::from("e3"))));
    assert_eq!(a, issue_line("Too many bugs found in code..."));
    assert_eq!(agent.bug_count, 3);
    let a = agent.execute(&mut ctx, Event::Ack);
    if a == Action::Abort(AgentError::TooManyBugs) {
        escalations += 1;
    }
    assert_eq!(agent.bug_count, 3);
    assert_eq!(agent.attributes.state, AgentState::Done);
    for event in [Event::Text(String::from("code v4")), Event::Ack, Event::Confirmed(true), Event::Ack] {
        let a = agent.execute(&mut ctx, event);
        assert_eq!(a, Action::Finished);
        if a == Action::Build {
            builds += 1;
        }
    }
    assert_eq!(builds, 3);
    assert_eq!(escalations, 1);
}

#[test]
fn one_failure_then_success_resets_the_count() {
    let mut ctx = TaskList::new(String::from("task tracker"));
    let mut agent = AgentBackend::new();
    to_first_build(&mut agent, &mut ctx);
    let a = agent.execute(&mut ctx, Event::Built(BuildOutcome::Failure(String::from("missing ;"))));
    fix_cycle(&mut agent, &mut ctx, a, "code v2");
    assert_eq!(
        agent.execute(&mut ctx, Event::Built(BuildOutcome::Success)),
        test_line("Server is built successful")
    );
    assert_eq!(agent.bug_count, 0);
    assert_eq!(
        agent.execute(&mut ctx, Event::Ack),
        Action::Generate {
            task: GenerationTask::RestEndpoints,
            message: String::from("CODE INPUT: code v2")
        }
    );
}

#[test]
fn two_failures_then_success_take_two_fix_cycles() {
    let mut ctx = TaskList::new(String::from("task tracker"));
    let mut agent = AgentBackend::new();
    to_first_build(&mut agent, &mut ctx);
    let mut fixes = 0;
    for (err, fixed) in [("e1", "code v2"), ("e2", "code v3")] {
        let a = agent.execute(&mut ctx, Event::Built(BuildOutcome::Failure(String::from(err))));
        fix_cycle(&mut agent, &mut ctx, a, fixed);
        fixes += 1;
    }
    assert_eq!(agent.bug_count, 2);
    agent.execute(&mut ctx, Event::Built(BuildOutcome::Success));
    assert_eq!(fixes, 2);
    assert_eq!(agent.bug_count, 0);
    assert_eq!(
        agent.execute(&mut ctx, Event::Ack),
        Action::Generate { task: GenerationTask::RestEndpoints, message: String::from("CODE INPUT: code v3") }
    );
}

#[test]
fn declined_confirmation_is_fatal() {
    let mut ctx = TaskList::new(String::from("task tracker"));
    let mut agent = AgentBackend::new();
    agent.execute(&mut ctx, Event::Ack);
    agent.execute(&mut ctx, Event::Text(String::from("T")));
    agent.execute(&mut ctx, Event::Text(String::from("code")));
    assert_eq!(agent.execute(&mut ctx, Event::Ack), test_line("Confirm code is safe from user..."));
    assert_eq!(agent.execute(&mut ctx, Event::Ack), Action::Confirm);
    assert_eq!(
        agent.execute(&mut ctx, Event::Confirmed(false)),
        Action::Abort(AgentError::UnsafeCodeDeclined)
    );
    assert_eq!(agent.attributes.state, AgentState::Done);
}

/// Drives the agent through a successful build up to the decoded routes.
fn to_routes(agent: &mut AgentBackend, ctx: &mut TaskList, schema: &str) {
    to_first_build(agent, ctx);
    agent.execute(ctx, Event::Built(BuildOutcome::Success));
    agent.execute(ctx, Event::Ack);
    assert_eq!(
        agent.execute(ctx, Event::Text(String::from(schema))),
        Action::DecodeRoutes(String::from(schema))
    );
}

/// From the decoded routes to the first endpoint notice or the schema save.
fn start_server(agent: &mut AgentBackend, ctx: &mut TaskList, routes: Vec<RouteObject>) {
    assert_eq!(agent.execute(ctx, Event::Routes(Some(routes))), test_line("Starting web server..."));
    assert!(!agent.server_running);
    assert_eq!(agent.execute(ctx, Event::Ack), Action::StartServer);
    assert!(agent.server_running);
    assert_eq!(agent.execute(ctx, Event::Ack), test_line("Launching test endpoints in 5 seconds..."));
    assert_eq!(agent.execute(ctx, Event::Ack), Action::Wait(WARM_UP_SECONDS));
}

#[test]
fn malformed_schema_is_fatal() {
    let mut ctx = TaskList::new(String::from("task tracker"));
    let mut agent = AgentBackend::new();
    to_routes(&mut agent, &mut ctx, "oops");
    assert_eq!(agent.execute(&mut ctx, Event::Routes(None)), Action::Abort(AgentError::MalformedSchema));
    assert_eq!(ctx.api_endpoint_schema, None);
}

#[test]
fn probing_warns_kills_once_and_saves_the_schema() {
    let mut ctx = TaskList::new(String::from("task tracker"));
    let mut agent = AgentBackend::new();
    to_routes(&mut agent, &mut ctx, "[schema]");
    let routes = vec![
        route("/task", "false", "get"),
        route("/task", "false", "post"),
        route("/task/{id}", "true", "get"),
        route("/users", "false", "get"),
        route("health", "false", "get"),
    ];
    start_server(&mut agent, &mut ctx, routes);
    assert_eq!(
        ctx.api_endpoint_schema,
        Some(vec![route("/task", "false", "get"), route("/users", "false", "get"), route("health", "false", "get")])
    );
    assert_eq!(agent.execute(&mut ctx, Event::Ack), test_line("Testing endpoint /task..."));
    assert_eq!(agent.execute(&mut ctx, Event::Ack), Action::Probe(String::from("http://127.0.0.1:8080/task")));
    // a non-200 status is a warning
    assert_eq!(
        agent.execute(&mut ctx, Event::Probed(ProbeOutcome::Status(404))),
        issue_line("WARNING: Failed to call web server with endpoint /task")
    );
    assert_eq!(agent.execute(&mut ctx, Event::Ack), test_line("Testing endpoint /users..."));
    assert_eq!(agent.execute(&mut ctx, Event::Ack), Action::Probe(String::from("http://127.0.0.1:8080/users")));
    // a transport error kills the server, then is reported; probing goes on
    assert_eq!(
        agent.execute(&mut ctx, Event::Probed(ProbeOutcome::Failed(String::from("connection refused")))),
        Action::StopServer
    );
    assert_eq!(agent.execute(&mut ctx, Event::Ack), issue_line("Error checking: connection refused"));
    assert_eq!(agent.execute(&mut ctx, Event::Ack), test_line("Testing endpoint health..."));
    assert_eq!(agent.execute(&mut ctx, Event::Ack), Action::Probe(String::from("http://127.0.0.1:8080/health")));
    // a second transport error is reported without a second kill
    assert_eq!(
        agent.execute(&mut ctx, Event::Probed(ProbeOutcome::Failed(String::from("refused")))),
        issue_line("Error checking: refused")
    );
    assert_eq!(agent.execute(&mut ctx, Event::Ack), Action::SaveSchema(String::from("[schema]")));
    assert_eq!(agent.execute(&mut ctx, Event::Ack), test_line("Backend testing complete..."));
    // the server is already down: no final kill
    assert_eq!(agent.execute(&mut ctx, Event::Ack), Action::Finished);
    assert_eq!(agent.attributes.state, AgentState::Done);
}

#[test]
fn clean_probing_stops_the_server_at_the_end() {
    let mut ctx = TaskList::new(String::from("task tracker"));
    let mut agent = AgentBackend::new();
    to_routes(&mut agent, &mut ctx, "[s]");
    start_server(&mut agent, &mut ctx, vec![route("/a", "false", "get")]);
    assert_eq!(agent.execute(&mut ctx, Event::Ack), test_line("Testing endpoint /a..."));
    assert_eq!(agent.execute(&mut ctx, Event::Ack), Action::Probe(String::from("http://127.0.0.1:8080/a")));
    assert_eq!(
        agent.execute(&mut ctx, Event::Probed(ProbeOutcome::Status(200))),
        Action::SaveSchema(String::from("[s]"))
    );
    assert_eq!(agent.execute(&mut ctx, Event::Ack), test_line("Backend testing complete..."));
    assert_eq!(agent.execute(&mut ctx, Event::Ack), Action::StopServer);
    assert_eq!(agent.execute(&mut ctx, Event::Ack), Action::Finished);
    assert_eq!(agent.attributes.state, AgentState::Done);
}

#[test]
fn no_eligible_routes_still_saves_and_stops() {
    let mut ctx = TaskList::new(String::from("task tracker"));
    let mut agent = AgentBackend::new();
    to_routes(&mut agent, &mut ctx, "[]");
    start_server(&mut agent, &mut ctx, vec![]);
    assert_eq!(agent.execute(&mut ctx, Event::Ack), Action::SaveSchema(String::from("[]")));
    assert_eq!(agent.execute(&mut ctx, Event::Ack), test_line("Backend testing complete..."));
    assert_eq!(agent.execute(&mut ctx, Event::Ack), Action::StopServer);
    assert_eq!(ctx.api_endpoint_schema, Some(vec![]));
}

#[test]
fn unexpected_event_while_serving_stops_the_server_first() {
    let mut ctx = TaskList::new(String::from("task tracker"));
    let mut agent = AgentBackend::new();
    to_routes(&mut agent, &mut ctx, "[s]");
    start_server(&mut agent, &mut ctx, vec![route("/a", "false", "get")]);
    assert_eq!(agent.execute(&mut ctx, Event::Confirmed(true)), Action::StopServer);
    assert!(!agent.server_running);
    assert_eq!(agent.execute(&mut ctx, Event::Ack), Action::Abort(AgentError::UnexpectedEvent));
    assert_eq!(agent.attributes.state, AgentState::Done);
}

#[test]
fn filtering_keeps_static_get_routes_and_is_idempotent() {
    let routes = vec![
        route("/a", "false", "get"),
        route("/b", "true", "get"),
        route("/c", "false", "GET"),
        route("/d", "false", "post"),
        route("/e", "False", "get"),
        route("/f", "false", "get"),
    ];
    let once = check_endpoints(&routes);
    assert_eq!(once, vec![route("/a", "false", "get"), route("/f", "false", "get")]);
    assert_eq!(check_endpoints(&once), once);
    assert_eq!(check_endpoints(&vec![]), vec![]);
}

#[test]
fn message_texts() {
    assert_eq!(initial_code_message("T", "D"), "CODE TEMPLATE: T \n PROJECT DESCRIPTION: D \n");
    assert_eq!(
        fix_code_message("C", &Some(String::from("E"))),
        "BROKEN CODE: \"C\" \n ERROR BUGS: Some(\"E\") \n\n            THIS FUNCTION ONLY OUTPUTS CODE. JUST OUTPUT THE CODE."
    );
    assert_eq!(
        fix_code_message("say \"hi\"\n", &None),
        "BROKEN CODE: \"say \\\"hi\\\"\\n\" \n ERROR BUGS: None \n\n            THIS FUNCTION ONLY OUTPUTS CODE. JUST OUTPUT THE CODE."
    );
    assert_eq!(improve_code_message("C", "D"), "CODE TEMPLATE: \"C\" \n PROJECT DESCRIPTION: \"D\" \n");
    assert_eq!(endpoints_code_message("X"), "CODE INPUT: X");
    assert_eq!(route_url("/task"), "http://127.0.0.1:8080/task");
    assert_eq!(route_url("task"), "http://127.0.0.1:8080/task");
    assert_eq!(route_url(""), "http://127.0.0.1:8080/");
}

#[test]
fn fix_without_source_is_fatal() {
    let mut ctx = TaskList::new(String::from("task tracker"));
    let mut agent = AgentBackend::new();
    agent.attributes.state = AgentState::Working;
    agent.step = BackendStep::Begin;
    agent.bug_count = 1;
    assert_eq!(agent.execute(&mut ctx, Event::Ack), Action::Abort(AgentError::MissingSource));
    assert_eq!(agent.attributes.state, AgentState::Done);
}

#[test]
fn improve_backend_code_asks_for_improved_code_and_stores_it() {
    let mut ctx = TaskList::new(String::from("task tracker"));
    ctx.backend_code = Some(String::from("fn main() {}"));
    let mut agent = AgentBackend::new();
    let a = agent.improve_backend_code(&ctx);
    assert_eq!(
        a,
        Action::Generate {
            task: GenerationTask::ImprovedCode,
            message: String::from("CODE TEMPLATE: \"fn main() {}\" \n PROJECT DESCRIPTION: \"task tracker\" \n"),
        }
    );
    assert_eq!(agent.attributes.state, AgentState::Working);
    assert_eq!(
        agent.execute(&mut ctx, Event::Text(String::from("fn main() { better() }"))),
        Action::SaveCode(String::from("fn main() { better() }"))
    );
    assert_eq!(ctx.backend_code, Some(String::from("fn main() { better() }")));
    assert_eq!(agent.bug_count, 0);
    confirm_and_build(&mut agent, &mut ctx);
}

#[test]
fn improve_without_source_is_fatal() {
    let ctx = TaskList::new(String::from("task tracker"));
    let mut agent = AgentBackend::new();
    assert_eq!(agent.improve_backend_code(&ctx), Action::Abort(AgentError::MissingSource));
}
