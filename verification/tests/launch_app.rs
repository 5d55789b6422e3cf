use octos_makepad::launch_app::{
    default_app_id, launch_failure, launch_harness, launch_message, launch_summary, parse_input,
    Exchange, ExchangeAction, ExchangeEvent, ExchangePhase, ExecuteAction, ExecuteEvent,
    LaunchAppTool, LaunchRun,
    ProcessAction, ToolResult, DEFAULT_HARNESS_BIN,
};

fn json(text: &str) -> serde_json::Value {
    serde_json::from_str(text).unwrap()
}

fn begun() -> LaunchRun {
    LaunchAppTool::new().execute(&json(r#"{"splash_body":"B","app_id":"I"}"#)).unwrap()
}

fn finished(run: &LaunchRun) -> ToolResult {
    match run.action() {
        ExecuteAction::Finish(result) => result,
        other => panic!("expected the end, got {other:?}"),
    }
}

#[test]
fn should_have_correct_name() {
    let tool = LaunchAppTool::new();
    assert_eq!(tool.name(), "launch_app");
}

#[test]
fn should_have_valid_input_schema() {
    let tool = LaunchAppTool::new();
    let schema = tool.input_schema();
    assert_eq!(schema["type"], "object");
    assert!(schema["required"].as_array().unwrap().contains(&"splash_body".into()));
}

#[test]
fn the_tool_describes_itself() {
    let tool = LaunchAppTool::new();
    assert_eq!(
        tool.description(),
        "Launch a Splash DSL mini-app on the Makepad native UI host."
    );
    assert_eq!(tool.tags(), vec!["gateway", "makepad"]);
    assert_eq!(
        tool.input_schema().to_string(),
        r#"{"type":"object","properties":{"splash_body":{"type":"string","description":"The Splash DSL body (Makepad widget syntax)."},"app_id":{"type":"string","description":"Optional app identifier (default: splash-app)"}},"required":["splash_body"]}"#
    );
}

#[test]
fn input_is_read_by_name() {
    let input = parse_input(&json(r#"{"splash_body":"B"}"#)).unwrap();
    assert_eq!(input.splash_body, "B");
    assert_eq!(input.app_id, "splash-app");
    assert_eq!(default_app_id(), "splash-app");
    let input = parse_input(&json(r#"{"app_id":"I","more":1,"splash_body":"B"}"#)).unwrap();
    assert_eq!(input.app_id, "I");
}

#[test]
fn input_is_read_by_position() {
    let input = parse_input(&json(r#"["B"]"#)).unwrap();
    assert_eq!((input.splash_body.as_str(), input.app_id.as_str()), ("B", "splash-app"));
    let input = parse_input(&json(r#"["B","I"]"#)).unwrap();
    assert_eq!((input.splash_body.as_str(), input.app_id.as_str()), ("B", "I"));
}

#[test]
fn input_of_another_shape_is_refused() {
    for text in [
        "{}", r#"{"splash_body":1}"#, r#"{"splash_body":"B","app_id":null}"#, "[]", "[1]",
        r#"["B",2]"#, r#"["B","I","X"]"#, "\"B\"", "null",
    ] {
        assert_eq!(parse_input(&json(text)).unwrap_err(), "Invalid launch_app input");
        let refused = LaunchAppTool::new().execute(&json(text));
        assert_eq!(refused.unwrap_err(), "Invalid launch_app input");
    }
}

#[test]
fn the_launch_message_is_exact() {
    assert_eq!(
        launch_message("B\"", "I"),
        r#"{"type":"launch","app_id":"I","splash_body":"B\""}"#
    );
}

#[test]
fn a_running_harness_is_sent_the_app() {
    let mut run = begun();
    assert!(matches!(run.action(), ExecuteAction::Probe));
    run.step(ExecuteEvent::Probed(true));
    match run.action() {
        ExecuteAction::Send { url, message } => {
            assert_eq!(url, "ws://127.0.0.1:2341");
            assert_eq!(message, r#"{"type":"launch","app_id":"I","splash_body":"B"}"#);
        }
        other => panic!("expected to send, got {other:?}"),
    }
    run.step(ExecuteEvent::Sent(vec!["hello".into(), "{\"status\":1}".into()]));
    let result = finished(&run);
    assert!(result.success);
    assert_eq!(result.output, "App launched. hello; {\"status\":1}");
}

#[test]
fn a_harness_is_started_and_awaited() {
    let mut run = begun();
    run.step(ExecuteEvent::Probed(false));
    assert!(matches!(run.action(), ExecuteAction::LaunchHarness));
    run.step(ExecuteEvent::Launched);
    for _ in 0..29 {
        assert!(matches!(run.action(), ExecuteAction::PauseThenProbe { milliseconds: 500 }));
        run.step(ExecuteEvent::Probed(false));
    }
    run.step(ExecuteEvent::Probed(true));
    assert!(matches!(run.action(), ExecuteAction::Send { .. }));
}

#[test]
fn waiting_ends_after_thirty_probes() {
    let mut run = begun();
    run.step(ExecuteEvent::Probed(false));
    run.step(ExecuteEvent::Launched);
    for _ in 0..30 {
        assert!(matches!(run.action(), ExecuteAction::PauseThenProbe { milliseconds: 500 }));
        run.step(ExecuteEvent::Probed(false));
    }
    let result = finished(&run);
    assert!(!result.success);
    assert_eq!(result.output, "Harness did not become ready within 15 seconds");
    run.step(ExecuteEvent::Probed(true));
    assert!(!finished(&run).success);
}

#[test]
fn failures_are_told() {
    let mut run = begun();
    run.step(ExecuteEvent::Probed(false));
    run.step(ExecuteEvent::LaunchFailed("no such file".into()));
    assert_eq!(finished(&run).output, "Failed to start harness: no such file");
    let mut run = begun();
    run.step(ExecuteEvent::Probed(true));
    run.step(ExecuteEvent::SendFailed("refused".into()));
    let result = finished(&run);
    assert_eq!(result.output, "Failed to launch app: refused");
    assert!(!result.success);
    assert_eq!(launch_failure("/x"), "Failed to launch harness at /x");
}

#[test]
fn unexpected_events_change_nothing() {
    let mut run = begun();
    run.step(ExecuteEvent::Sent(vec![]));
    run.step(ExecuteEvent::Launched);
    assert!(matches!(run.action(), ExecuteAction::Probe));
}

#[test]
fn a_silent_launch_is_a_success() {
    let result = launch_summary(&vec![]);
    assert!(result.success);
    assert_eq!(result.output, "App launched successfully");
    assert_eq!(launch_summary(&vec!["one".into()]).output, "App launched. one");
}

#[test]
fn the_harness_is_started_after_a_sweep() {
    let actions = launch_harness(Some("/opt/harness".into()));
    assert_eq!(actions.len(), 4);
    assert!(matches!(&actions[0], ProcessAction::KillMatching("harness")));
    assert!(matches!(&actions[1], ProcessAction::KillMatching("makepad-host")));
    assert!(matches!(&actions[2], ProcessAction::Pause { milliseconds: 500 }));
    assert!(matches!(&actions[3], ProcessAction::Spawn(p) if p == "/opt/harness"));
    let actions = launch_harness(None);
    assert!(matches!(&actions[3], ProcessAction::Spawn(p) if p == DEFAULT_HARNESS_BIN));
}

#[test]
fn the_tool_kills_its_own_harness() {
    let mut tool = LaunchAppTool::new();
    assert_eq!(tool.shut_down().len(), 2);
    let mut run = begun();
    tool.advance(&mut run, ExecuteEvent::Probed(false));
    assert_eq!(tool.shut_down().len(), 2);
    tool.advance(&mut run, ExecuteEvent::Launched);
    assert!(matches!(run.action(), ExecuteAction::PauseThenProbe { .. }));
    let actions = tool.shut_down();
    assert_eq!(actions.len(), 3);
    assert!(matches!(&actions[0], ProcessAction::KillOwn));
    assert!(matches!(&actions[1], ProcessAction::KillMatching("harness")));
    assert_eq!(tool.shut_down().len(), 2);
}

#[test]
fn an_exchange_keeps_every_text() {
    let mut exchange = Exchange::new();
    assert_eq!(exchange.phase(), ExchangePhase::Connected);
    assert_eq!(exchange.action(), ExchangeAction::Pause { milliseconds: 200 });
    exchange.step(ExchangeEvent::Paused);
    assert_eq!(exchange.action(), ExchangeAction::Listen { milliseconds: 200 });
    exchange.step(ExchangeEvent::Text("{\"status\":\"hello\"}".into()));
    assert_eq!(exchange.phase(), ExchangePhase::Greeting);
    exchange.step(ExchangeEvent::Silence);
    assert_eq!(exchange.action(), ExchangeAction::Send);
    exchange.step(ExchangeEvent::Delivered);
    assert_eq!(exchange.action(), ExchangeAction::Pause { milliseconds: 500 });
    exchange.step(ExchangeEvent::Paused);
    assert_eq!(exchange.action(), ExchangeAction::Listen { milliseconds: 1000 });
    exchange.step(ExchangeEvent::Text("status without quotes".into()));
    assert_eq!(exchange.phase(), ExchangePhase::Answering);
    exchange.step(ExchangeEvent::Text("{\"type\":\"status\"}".into()));
    assert_eq!(exchange.action(), ExchangeAction::Finish);
    exchange.step(ExchangeEvent::Text("late".into()));
    assert_eq!(
        exchange.into_responses(),
        vec!["{\"status\":\"hello\"}", "status without quotes", "{\"type\":\"status\"}"]
    );
}

#[test]
fn an_exchange_ends_with_a_response_a_close_or_silence() {
    let answering = || {
        let mut exchange = Exchange::new();
        exchange.step(ExchangeEvent::Paused);
        exchange.step(ExchangeEvent::Other);
        exchange.step(ExchangeEvent::Delivered);
        exchange.step(ExchangeEvent::Paused);
        exchange
    };
    let mut exchange = answering();
    exchange.step(ExchangeEvent::Text("{\"type\":\"user_response\"}".into()));
    assert_eq!(exchange.phase(), ExchangePhase::Over);
    let mut exchange = answering();
    exchange.step(ExchangeEvent::Other);
    assert_eq!(exchange.phase(), ExchangePhase::Over);
    let mut exchange = answering();
    exchange.step(ExchangeEvent::Silence);
    assert_eq!(exchange.phase(), ExchangePhase::Over);
    assert!(exchange.into_responses().is_empty());
}

#[test]
fn an_exchange_sends_the_app_once() {
    let mut exchange = Exchange::new();
    let mut sent = 0;
    for _ in 0..20 {
        let event = match exchange.action() {
            ExchangeAction::Pause { .. } => ExchangeEvent::Paused,
            ExchangeAction::Listen { .. } => ExchangeEvent::Silence,
            ExchangeAction::Send => {
                sent += 1;
                ExchangeEvent::Delivered
            }
            ExchangeAction::Finish => ExchangeEvent::Delivered,
        };
        exchange.step(event);
    }
    assert_eq!(sent, 1);
    assert_eq!(exchange.phase(), ExchangePhase::Over);
}

#[test]
fn a_result_holds_words_alone() {
    let result = launch_summary(&vec![]);
    assert!(result.file_modified.is_none());
    assert!(result.files_to_send.is_empty());
    assert!(result.tokens_used.is_none());
    assert!(result.structured_metadata.is_none());
    assert!(result.named_outputs.is_none());
    let mut run = begun();
    run.step(ExecuteEvent::Probed(true));
    run.step(ExecuteEvent::SendFailed("refused".into()));
    assert!(finished(&run).files_to_send.is_empty());
}
