use octos_makepad::adapters::makepad::register;
use octos_makepad::adapters::{ChannelEntry, ChannelManager};
use octos_makepad::inbound::{
    handle_harness_text, handle_harness_value_at, handle_incoming, handle_incoming_at,
    HarnessNews, InboundMessage, Incoming, MessageOrigin,
};
use octos_makepad::clock::Timestamp;
use octos_makepad::makepad_channel::{
    harness_link_step, socket_step, ChannelHealth, Connections, HarnessSession, HarnessStep,
    LinkAction, LinkEvent, MakepadChannel, SocketEvent, SocketStep, StartAction, StartEvent,
};
use octos_makepad::protocol::{
    build_launch_message, build_response_message, build_stream_delta, MakepadInboundMessage,
    MakepadOutboundMessage,
};

const NOON: Timestamp = Timestamp { seconds: 43_200, nanoseconds: 7 };

fn json(text: &str) -> serde_json::Value {
    serde_json::from_str(text).unwrap()
}

fn delivered(incoming: Incoming) -> InboundMessage {
    match incoming {
        Incoming::Deliver(message) => message,
        other => panic!("expected a delivery, got {other:?}"),
    }
}

fn reply(incoming: Incoming) -> String {
    match incoming {
        Incoming::Reply(text) => text,
        other => panic!("expected a reply, got {other:?}"),
    }
}

#[test]
fn should_serialize_launch_message() {
    let body = r#"App { Window { Body { Text { text: "Hello" } } } }"#;
    let json = build_launch_message(body, Some("app-1".into()));
    let parsed: serde_json::Value = serde_json::from_str(&json).unwrap();
    assert_eq!(parsed["type"], "launch");
    assert_eq!(parsed["splash_body"], body);
    assert_eq!(parsed["app_id"], "app-1");
}

#[test]
fn should_serialize_stream_delta() {
    let json = build_stream_delta("Hello ", Some(1));
    let parsed: serde_json::Value = serde_json::from_str(&json).unwrap();
    assert_eq!(parsed["type"], "stream_delta");
    assert_eq!(parsed["delta"], "Hello ");
    assert_eq!(parsed["sequence"], 1);
}

#[test]
fn should_serialize_response() {
    let json = build_response_message("Done!", Some(true));
    let parsed: serde_json::Value = serde_json::from_str(&json).unwrap();
    assert_eq!(parsed["type"], "response");
    assert_eq!(parsed["content"], "Done!");
    assert_eq!(parsed["stream_final"], true);
}

#[test]
fn should_serialize_pong() {
    let pong = MakepadOutboundMessage::Pong { ts: serde_json::Number::from_f64(123.0) }.to_json();
    let parsed: serde_json::Value = serde_json::from_str(&pong).unwrap();
    assert_eq!(parsed["type"], "pong");
    assert_eq!(parsed["ts"], 123.0);
}

#[test]
fn should_serialize_error_message() {
    let err = MakepadOutboundMessage::Error { message: "something broke".into() }.to_json();
    let parsed: serde_json::Value = serde_json::from_str(&err).unwrap();
    assert_eq!(parsed["type"], "error");
    assert_eq!(parsed["message"], "something broke");
}

#[test]
fn should_serialize_widget_snapshot_reply() {
    let tree = json(r#"{"widgets": [{"id": "btn1", "type": "Button"}]}"#);
    let reply = MakepadOutboundMessage::WidgetSnapshotReply { tree: tree.clone() }.to_json();
    let parsed: serde_json::Value = serde_json::from_str(&reply).unwrap();
    assert_eq!(parsed["type"], "widget_snapshot_reply");
    assert_eq!(parsed["tree"], tree);
}

#[test]
fn should_handle_incoming_user_input() {
    let message = MakepadInboundMessage::UserInput {
        content: "hello from makepad".into(),
        chat_id: None,
    };
    let msg = delivered(handle_incoming(Ok(message), "makepad"));
    assert_eq!(msg.content, "hello from makepad");
    assert_eq!(msg.channel, "makepad");
    assert_eq!(msg.chat_id, "makepad");
}

#[test]
fn should_handle_widget_event_as_inbound_message() {
    let message = MakepadInboundMessage::WidgetEvent {
        widget: "increment".into(),
        value: Some("1".into()),
        chat_id: None,
    };
    let msg = delivered(handle_incoming(Ok(message), "makepad"));
    assert!(msg.content.contains("increment"));
    assert_eq!(msg.metadata["widget"], "increment");
}

#[test]
fn should_handle_ping_with_pong_reply() {
    let message = MakepadInboundMessage::Ping { ts: serde_json::Number::from_f64(42.0) };
    let response = reply(handle_incoming(Ok(message), "makepad"));
    let parsed: serde_json::Value = serde_json::from_str(&response).unwrap();
    assert_eq!(parsed["type"], "pong");
    assert_eq!(parsed["ts"], 42.0);
}

#[test]
fn test_makepad_channel_name() {
    let channel = MakepadChannel::new(9001);
    assert_eq!(channel.name(), "makepad");
}

#[test]
fn test_makepad_channel_max_message_length() {
    let channel = MakepadChannel::new(9001);
    assert_eq!(channel.max_message_length(), 100_000);
}

#[test]
fn test_makepad_channel_supports_edit() {
    let channel = MakepadChannel::new(9001);
    assert!(channel.supports_edit());
}

#[test]
fn test_makepad_channel_builder() {
    let mut channel = MakepadChannel::new(9001)
        .with_host("0.0.0.0")
        .with_default_chat_id("test-ui")
        .with_allow_multiple(false)
        .with_host_binary("makepad-host");
    assert_eq!(channel.name(), "makepad");
    assert_eq!(channel.default_chat_id, "test-ui");
    assert!(!channel.allow_multiple);
    assert_eq!(channel.host_binary, Some("makepad-host".into()));

    channel.stop();
    assert!(channel.shutdown);
}

#[test]
fn messages_are_written_in_order_and_without_missing_members() {
    assert_eq!(
        build_launch_message("Label{text:\"a\"}", None),
        r#"{"type":"launch","splash_body":"Label{text:\"a\"}"}"#
    );
    assert_eq!(
        build_launch_message("b", Some("i".into())),
        r#"{"type":"launch","splash_body":"b","app_id":"i"}"#
    );
    assert_eq!(build_stream_delta("x\n", None), r#"{"type":"stream_delta","delta":"x\n"}"#);
    assert_eq!(
        build_stream_delta("x", Some(u64::MAX)),
        r#"{"type":"stream_delta","delta":"x","sequence":18446744073709551615}"#
    );
    assert_eq!(build_response_message("r", None), r#"{"type":"response","content":"r"}"#);
    assert_eq!(
        build_response_message("r", Some(false)),
        r#"{"type":"response","content":"r","stream_final":false}"#
    );
    assert_eq!(
        MakepadOutboundMessage::StreamComplete { stop_reason: None }.to_json(),
        r#"{"type":"stream_complete"}"#
    );
    assert_eq!(
        MakepadOutboundMessage::StreamComplete { stop_reason: Some("end".into()) }.to_json(),
        r#"{"type":"stream_complete","stop_reason":"end"}"#
    );
    assert_eq!(MakepadOutboundMessage::Pong { ts: None }.to_json(), r#"{"type":"pong"}"#);
    assert_eq!(
        MakepadOutboundMessage::Pong { ts: serde_json::Number::from_f64(0.5) }.to_json(),
        r#"{"type":"pong","ts":0.5}"#
    );
}

#[test]
fn an_unreadable_text_is_answered_with_an_error() {
    let text = reply(handle_incoming(Err("expected value".into()), "makepad"));
    assert_eq!(text, r#"{"type":"error","message":"invalid message format: expected value"}"#);
}

#[test]
fn user_input_names_its_chat() {
    let message = MakepadInboundMessage::UserInput {
        content: "hi".into(),
        chat_id: Some("room".into()),
    };
    let msg = delivered(handle_incoming_at(Ok(message), "makepad", NOON));
    assert_eq!(msg.chat_id, "room");
    assert_eq!(msg.sender_id, "user");
    assert_eq!(msg.timestamp, NOON);
    assert!(msg.media.is_empty());
    assert_eq!(msg.metadata, json("{}"));
    assert!(msg.message_id.is_none());
    assert_eq!(msg.origin, MessageOrigin::ExternalUser);
}

#[test]
fn a_response_of_the_app_is_user_input() {
    let message = MakepadInboundMessage::PiResponse {
        content: "ai:ask:what is a CRDT?".into(),
        chat_id: None,
    };
    let msg = delivered(handle_incoming_at(Ok(message), "den", NOON));
    assert_eq!(msg.content, "ai:ask:what is a CRDT?");
    assert_eq!(msg.chat_id, "den");
    assert_eq!(msg.metadata, json("{}"));
}

#[test]
fn widget_events_are_told_in_words() {
    let with_value = MakepadInboundMessage::WidgetEvent {
        widget: "text_input".into(),
        value: Some("hello".into()),
        chat_id: Some("room".into()),
    };
    let msg = delivered(handle_incoming_at(Ok(with_value), "makepad", NOON));
    assert_eq!(msg.content, "Widget 'text_input' event with value: hello");
    assert_eq!(msg.metadata, json(r#"{"widget":"text_input","value":"hello"}"#));
    assert_eq!(msg.chat_id, "room");
    let without = MakepadInboundMessage::WidgetEvent {
        widget: "increment".into(),
        value: None,
        chat_id: None,
    };
    let msg = delivered(handle_incoming_at(Ok(without), "makepad", NOON));
    assert_eq!(msg.content, "Widget 'increment' event");
    assert_eq!(msg.metadata, json(r#"{"widget":"increment","value":null}"#));
}

#[test]
fn launch_requests_reach_the_agent() {
    let message = MakepadInboundMessage::LaunchRequest {
        splash_body: Some("ignored".into()),
        chat_id: None,
    };
    let msg = delivered(handle_incoming_at(Ok(message), "makepad", NOON));
    assert_eq!(msg.content, "Request to launch a Splash app");
    assert_eq!(msg.metadata, json(r#"{"type":"launch_request"}"#));
}

#[test]
fn debug_information_is_noted() {
    let bare = MakepadInboundMessage::DebugInfo { widget_tree: None, message: None };
    match handle_incoming(Ok(bare), "makepad") {
        Incoming::Note { message, has_widget_tree } => {
            assert_eq!(message, "debug info received");
            assert!(!has_widget_tree);
        }
        other => panic!("expected a note, got {other:?}"),
    }
    let full = MakepadInboundMessage::DebugInfo {
        widget_tree: Some(json("[]")),
        message: Some("widget tree synced".into()),
    };
    match handle_incoming(Ok(full), "makepad") {
        Incoming::Note { message, has_widget_tree } => {
            assert_eq!(message, "widget tree synced");
            assert!(has_widget_tree);
        }
        other => panic!("expected a note, got {other:?}"),
    }
}

#[test]
fn messages_bear_the_time_of_their_arrival() {
    let before = chrono::Utc::now().timestamp();
    let message = MakepadInboundMessage::UserInput { content: "hi".into(), chat_id: None };
    let msg = delivered(handle_incoming(Ok(message), "makepad"));
    let after = chrono::Utc::now().timestamp();
    assert!(before <= msg.timestamp.seconds && msg.timestamp.seconds <= after);
    assert!(msg.timestamp.nanoseconds < 2_000_000_000);
}

#[test]
fn a_response_of_the_harness_reaches_the_agent() {
    match handle_harness_text(r#"{"type":"user_response","response":"yes"}"#, "test-ui") {
        HarnessNews::Deliver(msg) => {
            assert_eq!(msg.content, "yes");
            assert_eq!(msg.channel, "makepad");
            assert_eq!(msg.chat_id, "test-ui");
            assert_eq!(msg.sender_id, "user");
            assert_eq!(msg.metadata, json(r#"{"source":"pi_response"}"#));
        }
        other => panic!("expected a delivery, got {other:?}"),
    }
}

#[test]
fn other_news_of_the_harness() {
    let news = |text: &str| handle_harness_text(text, "makepad");
    assert!(matches!(news(r#"{"type":"error","message":"bad"}"#), HarnessNews::Warning(m) if m == "bad"));
    assert!(matches!(news(r#"{"type":"error"}"#), HarnessNews::Nothing));
    assert!(matches!(news(r#"{"type":"user_response","response":3}"#), HarnessNews::Nothing));
    for kind in ["status", "debug_response", "doc_state"] {
        assert!(matches!(news(&format!("{{\"type\":\"{kind}\"}}")), HarnessNews::Report));
    }
    assert!(matches!(news(r#"{"type":"welcome"}"#), HarnessNews::Unknown(k) if k == "welcome"));
    assert!(matches!(news(r#"{"type":5}"#), HarnessNews::Unknown(k) if k == "?"));
    assert!(matches!(news("no json"), HarnessNews::Unknown(k) if k == "?"));
    assert!(matches!(news("[1]"), HarnessNews::Unknown(k) if k == "?"));
    let value = json(r#"{"type":"user_response","response":"yes"}"#);
    match handle_harness_value_at(&value, "makepad", NOON) {
        HarnessNews::Deliver(msg) => assert_eq!(msg.timestamp, NOON),
        other => panic!("expected a delivery, got {other:?}"),
    }
}

#[test]
fn a_new_channel_has_its_defaults() {
    let channel = MakepadChannel::new(2341);
    assert_eq!(channel.port, 2341);
    assert_eq!(channel.host, "127.0.0.1");
    assert_eq!(channel.default_chat_id, "makepad");
    assert!(channel.allow_multiple);
    assert!(!channel.shutdown);
    assert!(channel.host_binary.is_none() && channel.harness_binary.is_none());
    assert!(channel.bound_address().is_none());
    assert_eq!(channel.address(), "127.0.0.1:2341");
}

#[test]
fn a_channel_without_a_harness_binds_at_once() {
    let mut channel = MakepadChannel::new(0).with_host("::1");
    assert!(matches!(channel.start(), StartAction::Bind(a) if a == "::1:0"));
    assert!(matches!(channel.health_check(), ChannelHealth::Degraded(r) if r == "not yet bound"));
    let next = channel.start_step(StartEvent::Bound("127.0.0.1:40000".into()));
    assert!(matches!(next, StartAction::Serve));
    assert_eq!(channel.bound_address().as_deref(), Some("127.0.0.1:40000"));
    assert!(matches!(channel.health_check(), ChannelHealth::Healthy));
    assert!(matches!(channel.start_step(StartEvent::Served), StartAction::Finished));
}

#[test]
fn a_channel_with_a_harness_launches_it_first() {
    let mut channel = MakepadChannel::new(65535).with_harness_binary("/bin/harness");
    assert!(matches!(channel.start(), StartAction::LaunchHarness(p) if p == "/bin/harness"));
    let next = channel.start_step(StartEvent::HarnessLaunched);
    assert!(matches!(next, StartAction::AwaitHarness { seconds: 4 }));
    let next = channel.start_step(StartEvent::HarnessAwaited);
    assert!(matches!(next, StartAction::Bind(a) if a == "127.0.0.1:65535"));
    let next = channel.start_step(StartEvent::HarnessFailed);
    assert!(matches!(next, StartAction::Bind(a) if a == "127.0.0.1:65535"));
}

#[test]
fn a_channel_that_cannot_run_says_why() {
    let mut channel = MakepadChannel::new(80).with_host("nowhere");
    let failed = |action: StartAction| match action {
        StartAction::Failed(reason) => reason,
        other => panic!("expected a failure, got {other:?}"),
    };
    assert_eq!(failed(channel.start_step(StartEvent::AddressInvalid)), "invalid address: nowhere:80");
    assert_eq!(
        failed(channel.start_step(StartEvent::BindFailed("127.0.0.1:80".into()))),
        "failed to bind to 127.0.0.1:80"
    );
    assert_eq!(failed(channel.start_step(StartEvent::AddressUnknown("gone".into()))), "gone");
    assert_eq!(failed(channel.start_step(StartEvent::ServeFailed)), "Makepad channel server failed");
    assert!(channel.bound_address().is_none());
}

#[test]
fn several_connections_are_numbered() {
    let mut connections = Connections::new();
    assert_eq!(connections.health(), "ok (no connections)");
    for i in 1..=11 {
        assert_eq!(connections.register(true), format!("conn-{i}"));
    }
    assert_eq!(connections.len(), 11);
    assert!(connections.knows("conn-11") && !connections.knows("conn-12"));
    connections.disconnect(true);
    assert_eq!(connections.len(), 11);
    assert_eq!(connections.health(), "ok");
}

#[test]
fn a_single_connection_replaces_the_one_before() {
    let mut connections = Connections::new();
    assert_eq!(connections.register(false), "conn-1");
    assert_eq!(connections.register(false), "conn-1");
    assert_eq!(connections.len(), 1);
    connections.disconnect(false);
    assert!(!connections.knows("conn-1"));
    assert_eq!(connections.len(), 0);
    assert_eq!(connections.health(), "ok (no connections)");
}

#[test]
fn sockets_are_read_until_their_end() {
    assert!(matches!(socket_step(SocketEvent::Text("t".into())), SocketStep::Handle(t) if t == "t"));
    for event in [SocketEvent::Binary, SocketEvent::Ping, SocketEvent::Other] {
        assert!(matches!(socket_step(event), SocketStep::Skip));
    }
    for event in [SocketEvent::Close, SocketEvent::Failed, SocketEvent::Ended] {
        assert!(matches!(socket_step(event), SocketStep::Stop));
    }
}

#[test]
fn the_harness_link_is_tried_again() {
    let retry = LinkAction::Retry { milliseconds: 2000 };
    assert_eq!(harness_link_step(LinkEvent::ConnectFailed), retry);
    assert_eq!(harness_link_step(LinkEvent::SessionEnded), retry);
}

#[test]
fn an_empty_configuration_gives_the_default_channel() {
    let mut manager = ChannelManager::new();
    assert!(register(&mut manager, &ChannelEntry { settings: json("{}") }).is_ok());
    let channel = &manager.into_channels()[0];
    assert_eq!(channel.address(), "127.0.0.1:2341");
    assert_eq!(channel.default_chat_id, "makepad");
    assert!(channel.allow_multiple);
    assert!(channel.host_binary.is_none() && channel.harness_binary.is_none());
}

#[test]
fn a_full_configuration_is_taken_over() {
    let mut manager = ChannelManager::new();
    let settings = json(
        r#"{"port":9001,"host":"0.0.0.0","default_chat_id":"ui","allow_multiple":false,
            "host_binary":"h","harness_binary":"k"}"#,
    );
    register(&mut manager, &ChannelEntry { settings }).unwrap();
    register(&mut manager, &ChannelEntry { settings: json("null") }).unwrap();
    let channels = manager.into_channels();
    assert_eq!(channels.len(), 2);
    let channel = &channels[0];
    assert_eq!(channel.address(), "0.0.0.0:9001");
    assert_eq!(channel.default_chat_id, "ui");
    assert!(!channel.allow_multiple);
    assert_eq!(channel.host_binary.as_deref(), Some("h"));
    assert_eq!(channel.harness_binary.as_deref(), Some("k"));
    assert_eq!(channels[1].port, 2341);
}

#[test]
fn settings_of_the_wrong_shape_are_passed_over() {
    let mut manager = ChannelManager::new();
    let settings = json(r#"{"port":-1,"host":7,"default_chat_id":null,"allow_multiple":"no","host_binary":[]}"#);
    register(&mut manager, &ChannelEntry { settings }).unwrap();
    register(&mut manager, &ChannelEntry { settings: json(r#"{"port":65537}"#) }).unwrap();
    register(&mut manager, &ChannelEntry { settings: json(r#"{"port":80.0}"#) }).unwrap();
    let channels = manager.into_channels();
    let channel = &channels[0];
    assert_eq!(channel.address(), "127.0.0.1:2341");
    assert!(channel.allow_multiple);
    assert!(channel.host_binary.is_none());
    assert_eq!(channels[1].port, 1);
    assert_eq!(channels[2].port, 2341);
}

#[test]
fn the_welcome_of_the_harness_goes_no_further() {
    let text = |t: &str| SocketEvent::Text(t.to_string());
    let mut session = HarnessSession::new();
    assert!(matches!(session.step(text("hello")), HarnessStep::Welcome(t) if t == "hello"));
    assert!(matches!(session.step(text("news")), HarnessStep::Handle(t) if t == "news"));
    assert!(matches!(session.step(SocketEvent::Ping), HarnessStep::Skip));
    assert!(matches!(session.step(SocketEvent::Ended), HarnessStep::Stop));
    let mut session = HarnessSession::new();
    assert!(matches!(session.step(SocketEvent::Close), HarnessStep::Skip));
    assert!(matches!(session.step(SocketEvent::Close), HarnessStep::Stop));
}

#[test]
fn a_response_is_sent_as_a_final_message() {
    let channel = MakepadChannel::new(9001);
    assert_eq!(channel.send("Done!"), r#"{"type":"response","content":"Done!","stream_final":true}"#);
}

#[test]
fn nested_snapshots_read_back() {
    let mut tree = json("[-3, {\"a\": [true, null, {\"b\": \"c\\n\"}]}]");
    for _ in 0..122 {
        tree = serde_json::Value::from(vec![tree]);
    }
    let text = MakepadOutboundMessage::WidgetSnapshotReply { tree: tree.clone() }.to_json();
    let parsed = json(&text);
    assert_eq!(parsed["tree"], tree);
    assert!(serde_json::from_str::<serde_json::Value>(&format!("[{text}]")).is_err());
}

#[test]
fn whole_time_stamps_read_back() {
    let message = MakepadOutboundMessage::Pong { ts: Some(serde_json::Number::from(-7)) };
    assert_eq!(json(&message.to_json())["ts"], -7);
}
