use octos_makepad::chat::{Message, MessageRole, StopReason, ToolCall, ToolSpec};
use octos_makepad::registry::scenario::{
    create, end_turn_response, entry, latest_finished_tool, latest_tool_output,
    latest_user_request, tool_use_response, ScenarioProvider, CANNED_APP, HOST_LAUNCH_TOOL,
    SEND_MESSAGE_TOOL,
};
use octos_makepad::registry::CreateParams;

fn json(text: &str) -> serde_json::Value {
    serde_json::from_str(text).unwrap()
}

fn user_message(text: &str) -> Message {
    Message {
        role: MessageRole::User,
        content: text.to_string(),
        tool_calls: None,
        tool_call_id: None,
    }
}

fn assistant_message(text: &str) -> Message {
    Message {
        role: MessageRole::Assistant,
        content: text.to_string(),
        tool_calls: None,
        tool_call_id: None,
    }
}

fn tool_result_message(text: &str, id: &str) -> Message {
    Message {
        role: MessageRole::Tool,
        content: text.to_string(),
        tool_calls: None,
        tool_call_id: Some(id.to_string()),
    }
}

fn call(name: &str, id: &str) -> ToolCall {
    ToolCall {
        id: id.to_string(),
        name: name.to_string(),
        arguments: json("{}"),
        metadata: None,
    }
}

fn assistant_tool_message(name: &str, id: &str) -> Message {
    Message {
        role: MessageRole::Assistant,
        content: String::new(),
        tool_calls: Some(vec![call(name, id)]),
        tool_call_id: None,
    }
}

fn spec(name: &str) -> ToolSpec {
    ToolSpec {
        name: name.to_string(),
        description: String::new(),
        input_schema: json("{\"type\": \"object\"}"),
    }
}

fn provider() -> ScenarioProvider {
    create(CreateParams { model: Some("scenario".into()) }).unwrap()
}

#[test]
fn host_tool_role_calls_launch_splash_app_with_the_user_request() {
    let mut p = provider();
    let tools = vec![spec(HOST_LAUNCH_TOOL), spec("send_room_message")];
    let messages = vec![user_message("make a counter app")];
    let resp = p.chat(&messages, &tools).unwrap();
    assert_eq!(resp.stop_reason, StopReason::ToolUse);
    let call = &resp.tool_calls[0];
    assert_eq!(call.name, HOST_LAUNCH_TOOL);
    assert_eq!(call.arguments["description"], "make a counter app");

    // After the tool ran, the same session ends the turn with a summary.
    let messages = vec![
        user_message("make a counter app"),
        assistant_tool_message(HOST_LAUNCH_TOOL, "call-scenario-0"),
        tool_result_message("{\"status\":\"installed_and_running\"}", "call-scenario-0"),
    ];
    let resp = p.chat(&messages, &tools).unwrap();
    assert_eq!(resp.stop_reason, StopReason::EndTurn);
    let text = resp.content.unwrap_or_default();
    assert!(text.contains("installed_and_running"), "summary echoes the tool result: {text}");
}

#[test]
fn ai_room_pong_then_launch_then_always_pong() {
    let mut p = provider();
    let tools = vec![spec(HOST_LAUNCH_TOOL), spec(SEND_MESSAGE_TOOL)];
    let mut history: Vec<Message> = vec![];

    // Prompt 0: whatever the user wrote, answer "pong" via send_message.
    history.push(user_message("hello"));
    let resp = p.chat(&history, &tools).unwrap();
    assert_eq!(resp.stop_reason, StopReason::ToolUse);
    let call = &resp.tool_calls[0];
    let pong_id = call.id.clone();
    assert_eq!(call.name, SEND_MESSAGE_TOOL);
    assert_eq!(call.arguments["text"], "pong");

    // The agent ran the tool; the next answer ends the turn, not with nothing.
    history.push(assistant_tool_message(SEND_MESSAGE_TOOL, &pong_id));
    history.push(tool_result_message("posted", &pong_id));
    let resp = p.chat(&history, &tools).unwrap();
    assert_eq!(resp.stop_reason, StopReason::EndTurn);
    assert_eq!(resp.content.as_deref(), Some("pong"));

    // Prompt 1: launch_splash_app with the request.
    history.push(user_message("make a counter app"));
    let resp = p.chat(&history, &tools).unwrap();
    assert_eq!(resp.stop_reason, StopReason::ToolUse);
    let call = &resp.tool_calls[0];
    let launch_id = call.id.clone();
    assert_eq!(call.name, HOST_LAUNCH_TOOL);
    assert_eq!(call.arguments["description"], "make a counter app");

    // The generation ran; the next answer ends the turn with a summary.
    history.push(assistant_tool_message(HOST_LAUNCH_TOOL, &launch_id));
    history.push(tool_result_message("{\"status\":\"installed_and_running\"}", &launch_id));
    let resp = p.chat(&history, &tools).unwrap();
    assert_eq!(resp.stop_reason, StopReason::EndTurn);
    let text = resp.content.unwrap_or_default();
    assert!(text.contains("installed_and_running"), "summary echoes the tool result: {text}");

    // Prompt 2 and beyond: "pong" again, always, via send_message.
    history.push(user_message("again"));
    let resp = p.chat(&history, &tools).unwrap();
    assert_eq!(resp.stop_reason, StopReason::ToolUse);
    let call = &resp.tool_calls[0];
    let pong2_id = call.id.clone();
    assert_eq!(call.name, SEND_MESSAGE_TOOL);
    assert_eq!(call.arguments["text"], "pong");
    history.push(assistant_tool_message(SEND_MESSAGE_TOOL, &pong2_id));
    history.push(tool_result_message("posted", &pong2_id));
    let resp = p.chat(&history, &tools).unwrap();
    assert_eq!(resp.stop_reason, StopReason::EndTurn);
    assert_eq!(resp.content.as_deref(), Some("pong"));
}

#[test]
fn writer_role_emits_a_fenced_splash_app() {
    let mut p = provider();
    let tools = vec![spec("write_file"), spec("read_file")];
    let messages = vec![user_message("build a counter app")];
    let resp = p.chat(&messages, &tools).unwrap();
    assert_eq!(resp.stop_reason, StopReason::EndTurn);
    let text = resp.content.unwrap_or_default();
    assert!(text.contains("```splash"), "writer emits a fenced splash block");
    assert!(text.contains("this is a mini-app"));
    assert!(text.contains("name: Mini App"));
}

#[test]
fn call_identifiers_count_up() {
    let mut p = provider();
    let tools = vec![spec(HOST_LAUNCH_TOOL), spec(SEND_MESSAGE_TOOL)];
    for i in 0..12 {
        let resp = p.chat(&vec![user_message("hi")], &tools).unwrap();
        assert_eq!(resp.tool_calls[0].id, format!("call-scenario-{i}"));
        let expected = if i == 1 { HOST_LAUNCH_TOOL } else { SEND_MESSAGE_TOOL };
        assert_eq!(resp.tool_calls[0].name, expected);
    }
}

#[test]
fn turns_that_end_do_not_count_as_prompts() {
    let mut p = provider();
    let tools = vec![spec(HOST_LAUNCH_TOOL), spec(SEND_MESSAGE_TOOL)];
    p.chat(&vec![user_message("one")], &tools).unwrap();
    // A call that follows a tool result, and one of the writer.
    p.chat(&vec![user_message("one"), tool_result_message("x", "y")], &tools).unwrap();
    p.chat(&vec![user_message("write")], &vec![spec("write_file")]).unwrap();
    let resp = p.chat(&vec![user_message("two")], &tools).unwrap();
    assert_eq!(resp.tool_calls[0].name, HOST_LAUNCH_TOOL);
    assert_eq!(resp.tool_calls[0].id, "call-scenario-1");
}

#[test]
fn without_the_message_tool_every_prompt_launches() {
    let mut p = provider();
    let tools = vec![spec(HOST_LAUNCH_TOOL)];
    for _ in 0..3 {
        let resp = p.chat(&vec![user_message("  a clock ")], &tools).unwrap();
        assert_eq!(resp.tool_calls[0].name, HOST_LAUNCH_TOOL);
        assert_eq!(resp.tool_calls[0].arguments, json("{\"description\":\"a clock\"}"));
    }
}

#[test]
fn a_prompt_without_words_asks_for_a_counter() {
    let mut p = provider();
    let tools = vec![spec(HOST_LAUNCH_TOOL)];
    let resp = p.chat(&vec![user_message(" \n\t ")], &tools).unwrap();
    assert_eq!(resp.tool_calls[0].arguments["description"], "make a counter app");
    let resp = p.chat(&Vec::new(), &tools).unwrap();
    assert_eq!(resp.tool_calls[0].arguments["description"], "make a counter app");
}

#[test]
fn the_summary_echoes_the_trimmed_tool_output() {
    let mut p = provider();
    let tools = vec![spec(HOST_LAUNCH_TOOL)];
    let messages = vec![
        assistant_tool_message(HOST_LAUNCH_TOOL, "a"),
        tool_result_message("  done\n", "a"),
    ];
    let resp = p.chat(&messages, &tools).unwrap();
    assert_eq!(
        resp.content.as_deref(),
        Some("The app was built and launched.\n\nTool result: done")
    );
    assert!(resp.tool_calls.is_empty());
}

#[test]
fn the_fenced_app_is_exact() {
    let mut p = provider();
    let resp = p.chat(&Vec::new(), &Vec::new()).unwrap();
    assert_eq!(resp.content.unwrap(), format!("```splash\n{CANNED_APP}\n```"));
    assert!(CANNED_APP.starts_with(
        "// name: Mini App\n// icon: 💬\n// tint: #4466ee\nView{\nwidth: Fill, height: Fit\n"
    ));
    assert!(CANNED_APP.ends_with("}\n}\n}"));
}

#[test]
fn the_request_follows_the_last_marker() {
    let ask = |text: &str| latest_user_request(&vec![user_message(text)]);
    assert_eq!(ask("Intro.\nUser request: a clock \n"), "a clock");
    assert_eq!(ask("User request: one\nUser request: two"), "two");
    assert_eq!(ask("User's change request: blue\nUser request: a clock"), "blue\nUser request: a clock");
    assert_eq!(ask("User request: a clock\nUser's change request: blue"), "blue");
    assert_eq!(ask("  just words\u{3000}"), "just words");
    assert_eq!(ask("User request:"), "");
    assert_eq!(ask("é User request: ünd 💬 "), "ünd 💬");
}

#[test]
fn the_request_is_the_newest_of_the_user() {
    let messages = vec![
        user_message("first"),
        user_message("second"),
        assistant_message("no"),
        tool_result_message("x", "y"),
    ];
    assert_eq!(latest_user_request(&messages), "second");
    assert_eq!(latest_user_request(&vec![assistant_message("no")]), "");
}

#[test]
fn white_space_is_that_of_unicode() {
    let ask = |text: &str| latest_user_request(&vec![user_message(text)]);
    let spaces = "\u{9}\u{a}\u{b}\u{c}\u{d} \u{85}\u{a0}\u{1680}\u{2000}\u{2005}\u{200a}\u{2028}\u{2029}\u{202f}\u{205f}\u{3000}";
    assert_eq!(ask(&format!("{spaces}word{spaces}")), "word");
    for c in ['\u{8}', '\u{e}', '\u{1f}', '\u{180e}', '\u{200b}', '\u{2060}', '\u{feff}'] {
        let text = format!("{c}word{c}");
        assert_eq!(ask(&text), text);
    }
}

#[test]
fn the_tool_output_is_the_newest() {
    let messages = vec![
        tool_result_message("old", "a"),
        tool_result_message("\tnew ", "b"),
        user_message("words"),
    ];
    assert_eq!(latest_tool_output(&messages).as_deref(), Some("new"));
    assert!(latest_tool_output(&vec![user_message("words")]).is_none());
}

#[test]
fn a_finished_tool_needs_a_result_at_the_end() {
    assert!(latest_finished_tool(&Vec::new()).is_none());
    let messages = vec![
        assistant_tool_message(SEND_MESSAGE_TOOL, "a"),
        tool_result_message("posted", "a"),
        user_message("next"),
    ];
    assert!(latest_finished_tool(&messages).is_none());
}

#[test]
fn a_finished_tool_is_the_last_of_the_newest_calls() {
    let two_calls = Message {
        role: MessageRole::Assistant,
        content: String::new(),
        tool_calls: Some(vec![call("one", "a"), call("two", "b")]),
        tool_call_id: None,
    };
    let messages = vec![
        assistant_tool_message("older", "z"),
        two_calls,
        tool_result_message("posted", "b"),
    ];
    assert_eq!(latest_finished_tool(&messages).as_deref(), Some("two"));
}

#[test]
fn a_message_without_a_call_is_passed_over() {
    let messages = vec![
        assistant_tool_message(SEND_MESSAGE_TOOL, "a"),
        assistant_message("thinking"),
        Message { tool_calls: Some(Vec::new()), ..assistant_message("still") },
        tool_result_message("posted", "a"),
    ];
    assert_eq!(latest_finished_tool(&messages).as_deref(), Some(SEND_MESSAGE_TOOL));
}

#[test]
fn a_result_without_a_call_in_sight_is_a_launch() {
    let messages = vec![user_message("hello"), tool_result_message("posted", "a")];
    assert_eq!(latest_finished_tool(&messages).as_deref(), Some(HOST_LAUNCH_TOOL));
}

#[test]
fn answers_are_built_as_asked() {
    let resp = tool_use_response("t", json("{\"a\":1}"), "id-1".to_string());
    assert!(resp.content.is_none());
    assert_eq!(resp.tool_calls[0].id, "id-1");
    assert_eq!(resp.tool_calls[0].name, "t");
    assert_eq!(resp.tool_calls[0].arguments, json("{\"a\":1}"));
    assert_eq!(resp.stop_reason, StopReason::ToolUse);
    let resp = end_turn_response("bye".to_string());
    assert_eq!(resp.content.as_deref(), Some("bye"));
    assert!(resp.tool_calls.is_empty());
    assert_eq!(resp.stop_reason, StopReason::EndTurn);
}

#[test]
fn the_scenario_provider_is_known_by_name_alone() {
    let entry = entry();
    assert_eq!(entry.name, "scenario");
    assert!(entry.aliases.is_empty());
    assert_eq!(entry.default_model, Some("scenario"));
    assert!(entry.detect_patterns.is_empty());
    assert!(!entry.requires_api_key);
    let p = create(CreateParams { model: None }).unwrap();
    assert_eq!(p.model_id(), "scenario");
    assert_eq!(p.provider_name(), "scenario");
    assert_eq!(p.context_window(), 128_000);
    let p = create(CreateParams { model: Some("other".to_string()) }).unwrap();
    assert_eq!(p.model_id(), "other");
}
