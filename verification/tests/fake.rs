use octos_makepad::chat::{
    stream, ChatResponse, Message, MessageRole, StopReason, StreamEvent, TokenUsage, ToolCall,
    ToolSpec,
};
use octos_makepad::fake::{
    FakeProvider, RUNNING_TEXT, SPLASH_COUNTER_APP, SPLASH_COUNTER_TEXT,
};
use octos_makepad::launch_app::parse_input;
use octos_makepad::registry;
use octos_makepad::registry::CreateParams;

fn message(role: MessageRole, content: &str) -> Message {
    Message { role, content: content.to_string(), tool_calls: None, tool_call_id: None }
}

fn tool_result(content: &str, id: &str) -> Message {
    Message {
        role: MessageRole::Tool,
        content: content.to_string(),
        tool_calls: None,
        tool_call_id: Some(id.to_string()),
    }
}

fn no_tools() -> Vec<ToolSpec> {
    Vec::new()
}

#[test]
fn should_call_launch_app_on_first_turn() {
    let provider = FakeProvider::new(None);
    let response = provider.chat(&Vec::new(), &no_tools()).unwrap();
    assert_eq!(response.tool_calls.len(), 1);
    assert_eq!(response.tool_calls[0].name, "launch_app");
}

#[test]
fn should_end_turn_after_tool_executed() {
    let provider = FakeProvider::new(None);
    let messages = vec![
        message(MessageRole::Assistant, "I'll launch the counter app"),
        tool_result("App launched successfully", "tc-1"),
    ];
    let response = provider.chat(&messages, &no_tools()).unwrap();
    assert_eq!(response.tool_calls.len(), 0, "should not call tool again");
    assert_eq!(response.stop_reason, StopReason::EndTurn);
}

#[test]
fn should_include_splash_in_tool_call_arguments() {
    let provider = FakeProvider::new(None);
    let response = provider.chat(&Vec::new(), &no_tools()).unwrap();
    let tc = &response.tool_calls[0];
    let splash = tc.arguments["splash_body"].as_str().unwrap();
    assert!(splash.contains("let count"));
    assert!(splash.contains("ButtonFlat{"));
    assert!(splash.contains("__pi_response.set_text"));
}

#[test]
fn should_stream_launch_app_then_end() {
    let provider = FakeProvider::new(Some("test-model".into()));
    let events = provider.chat_stream(&Vec::new(), &no_tools()).unwrap();
    let mut seen_tool = false;
    let mut seen_done = false;
    for event in &events {
        match event {
            StreamEvent::ToolCallDelta { name, .. } => {
                if name.as_deref() == Some("launch_app") {
                    seen_tool = true;
                }
            }
            StreamEvent::Done(_) => seen_done = true,
            _ => {}
        }
    }
    assert!(seen_tool, "should have tool call in stream");
    assert!(seen_done, "should have done event");
}

#[test]
fn should_expose_model_metadata() {
    let provider = FakeProvider::new(Some("splash-v1".into()));
    assert_eq!(provider.model_id(), "splash-v1");
    assert_eq!(provider.provider_name(), "fake");
    assert_eq!(provider.context_window(), 4096);
    assert_eq!(provider.max_output_tokens(), 2048);
}

#[test]
fn should_use_default_model_id_when_none_given() {
    let provider = FakeProvider::new(None);
    assert_eq!(provider.model_id(), "splash-counter");
}

#[test]
fn the_first_answer_is_whole() {
    let provider = FakeProvider::new(None);
    let messages = vec![message(MessageRole::User, "make me something")];
    let response = provider.build_response(&messages).unwrap();
    assert_eq!(response.content.as_deref(), Some(SPLASH_COUNTER_TEXT));
    assert!(response.reasoning_content.is_none());
    assert_eq!(response.stop_reason, StopReason::EndTurn);
    assert_eq!(response.usage, TokenUsage::default());
    assert!(response.provider_index.is_none());
    assert_eq!(response.tool_calls[0].id, "fake-tc-1");
    assert_eq!(response.tool_calls[0].arguments["app_id"], "counter-1");
    assert!(response.tool_calls[0].metadata.is_none());
}

#[test]
fn the_last_answer_is_whole() {
    let provider = FakeProvider::new(None);
    let response = provider.build_response(&vec![tool_result("ok", "fake-tc-1")]).unwrap();
    assert_eq!(response.content.as_deref(), Some(RUNNING_TEXT));
    assert_eq!(
        response.content.as_deref(),
        Some(
            "The counter app is now running in the Makepad host window! You can interact with it using the buttons."
        )
    );
}

#[test]
fn a_tool_result_anywhere_ends_the_turn() {
    let provider = FakeProvider::new(None);
    let messages = vec![
        message(MessageRole::User, "hello"),
        tool_result("ok", "fake-tc-1"),
        message(MessageRole::User, "once more"),
    ];
    let response = provider.chat(&messages, &no_tools()).unwrap();
    assert_eq!(response.stop_reason, StopReason::EndTurn);
    assert!(response.tool_calls.is_empty());
}

#[test]
fn the_counter_app_is_the_launch_tools_input() {
    let provider = FakeProvider::new(None);
    let response = provider.chat(&Vec::new(), &no_tools()).unwrap();
    let input = parse_input(&response.tool_calls[0].arguments).unwrap();
    assert_eq!(input.splash_body, SPLASH_COUNTER_APP);
    assert_eq!(input.app_id, "counter-1");
    assert!(SPLASH_COUNTER_APP.starts_with("let count = 0\ndisplay := Label{"));
    assert_eq!(SPLASH_COUNTER_APP.lines().count(), 6);
}

#[test]
fn a_stream_tells_text_calls_usage_and_end() {
    let provider = FakeProvider::new(None);
    let events = provider.chat_stream(&Vec::new(), &no_tools()).unwrap();
    assert_eq!(events.len(), 4);
    assert!(matches!(&events[0], StreamEvent::TextDelta(text) if text == SPLASH_COUNTER_TEXT));
    match &events[1] {
        StreamEvent::ToolCallDelta { index, id, name, arguments_delta } => {
            assert_eq!(*index, 0);
            assert_eq!(id.as_deref(), Some("fake-tc-1"));
            assert_eq!(name.as_deref(), Some("launch_app"));
            let parsed: serde_json::Value = serde_json::from_str(arguments_delta).unwrap();
            assert_eq!(parsed["splash_body"], SPLASH_COUNTER_APP);
            assert!(arguments_delta.ends_with(",\"app_id\":\"counter-1\"}"));
        }
        _ => panic!("expected a tool call"),
    }
    assert!(matches!(&events[2], StreamEvent::Usage(usage) if usage.input_tokens == 0));
    assert!(matches!(&events[3], StreamEvent::Done(StopReason::EndTurn)));
}

#[test]
fn an_answer_without_text_streams_its_calls_in_order() {
    let call = |id: &str, text: &str| ToolCall {
        id: id.to_string(),
        name: "send".to_string(),
        arguments: serde_json::from_str(text).unwrap(),
        metadata: None,
    };
    let usage = TokenUsage {
        input_tokens: 1,
        output_tokens: 2,
        reasoning_tokens: 3,
        cache_read_tokens: 4,
        cache_write_tokens: 5,
    };
    let response = ChatResponse {
        content: None,
        reasoning_content: None,
        tool_calls: vec![call("a", "{ \"n\" : 1 }"), call("b", "[true, null]")],
        stop_reason: StopReason::EndTurn,
        usage,
        provider_index: None,
    };
    let events = stream(&response);
    assert_eq!(events.len(), 4);
    match &events[0] {
        StreamEvent::ToolCallDelta { index, id, arguments_delta, .. } => {
            assert_eq!(*index, 0);
            assert_eq!(id.as_deref(), Some("a"));
            assert_eq!(arguments_delta, "{\"n\":1}");
        }
        _ => panic!("expected a tool call"),
    }
    match &events[1] {
        StreamEvent::ToolCallDelta { index, id, arguments_delta, .. } => {
            assert_eq!(*index, 1);
            assert_eq!(id.as_deref(), Some("b"));
            assert_eq!(arguments_delta, "[true,null]");
        }
        _ => panic!("expected a tool call"),
    }
    assert!(matches!(&events[2], StreamEvent::Usage(u) if *u == usage));
    assert!(matches!(&events[3], StreamEvent::Done(StopReason::EndTurn)));
}

#[test]
fn the_fake_entry_needs_no_key() {
    let entry = registry::fake::entry();
    assert_eq!(entry.name, "fake");
    assert_eq!(entry.aliases, vec!["splash", "mock", "counter"]);
    assert_eq!(entry.default_model, Some("splash-counter"));
    assert_eq!(entry.detect_patterns, vec!["splash-counter"]);
    assert!(entry.api_key_env.is_none());
    assert!(entry.key_env_aliases.is_empty());
    assert!(entry.default_base_url.is_none());
    assert!(!entry.requires_api_key && !entry.requires_base_url && !entry.requires_model);
}

#[test]
fn the_fake_provider_is_created_with_its_model() {
    let given = registry::fake::create(CreateParams { model: Some("m".to_string()) });
    assert_eq!(given.unwrap().model_id(), "m");
    let default = registry::fake::create(CreateParams { model: None });
    assert_eq!(default.unwrap().model_id(), "splash-counter");
}

#[test]
fn fake_provider_returns_splash_counter_app() {
    let provider = FakeProvider::new(None);
    let response = provider
        .chat(&Vec::new(), &no_tools())
        .expect("fake provider should return response");

    let content = response.content.expect("response should have content");

    // Must contain valid Splash DSL structures
    assert!(content.contains("App {"), "should start with App block");
    assert!(content.contains("Window {"), "should have a Window");
    assert!(content.contains("Body {"), "should have a Body");
    assert!(content.contains("VStack {"), "should have VStack layout");
    assert!(content.contains("HStack {"), "should have HStack layout");

    // Must have counter functionality
    assert!(content.contains("increment"), "should have increment action");
    assert!(content.contains("decrement"), "should have decrement action");
    assert!(content.contains("reset"), "should have reset action");
    assert!(content.contains("count_display"), "should have count display widget");

    // Must have agent communication
    assert!(content.contains("__pi_response.set_text"), "should support pi response");
}

#[test]
fn fake_provider_streams_splash_counter_app() {
    let provider = FakeProvider::new(Some("splash-counter".into()));
    let stream = provider
        .chat_stream(&Vec::new(), &no_tools())
        .expect("fake provider should return stream");

    let mut full_text = String::new();
    for event in stream {
        match event {
            StreamEvent::TextDelta(delta) => {
                full_text.push_str(&delta);
            }
            StreamEvent::Done(reason) => {
                assert_eq!(reason, StopReason::EndTurn);
            }
            StreamEvent::Usage(usage) => {
                assert_eq!(usage.input_tokens, 0);
                assert_eq!(usage.output_tokens, 0);
            }
            _ => {}
        }
    }

    assert!(full_text.contains("Window"), "streamed text should contain Window");
    assert!(full_text.contains("increment"), "streamed text should contain increment");
}
