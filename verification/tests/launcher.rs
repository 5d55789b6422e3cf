use octos_makepad::fake::SPLASH_COUNTER_APP;
use octos_makepad::launcher::{clip, counter_launch, describe_response, describe_welcome};
use octos_makepad::text::{decimal_text, find, has, join, rfind, trim};

fn line(text: &str) -> String {
    describe_response(text).unwrap()
}

#[test]
fn messages_are_described_by_kind() {
    assert_eq!(line(r#"{"type":"status","status":"ready"}"#), "  ← Status: ready");
    assert_eq!(line(r#"{"type":"status"}"#), "  ← Status: ");
    assert_eq!(line(r#"{"type":"user_response","response":"yes"}"#), "  ← User response: yes");
    assert_eq!(line(r#"{"type":"error","message":"bad"}"#), "  ← ERROR: bad");
    assert_eq!(line(r#"{"type":"debug_response","result":"tree"}"#), "  ← Debug: tree...");
    assert_eq!(line(r#"{"type":"other"}"#), "  ← other: {\"type\":\"other\"}");
    assert_eq!(line("no json"), "  ← ?: no json");
}

#[test]
fn long_texts_are_cut() {
    let long = "x".repeat(200);
    assert_eq!(line(&long), format!("  ← ?: {}", "x".repeat(120)));
    let debug = format!("{{\"type\":\"debug_response\",\"result\":\"{long}\"}}");
    assert_eq!(line(&debug), format!("  ← Debug: {}...", "x".repeat(100)));
    assert_eq!(describe_welcome(&long).unwrap(), format!("  ← Welcome: {}", "x".repeat(80)));
    assert_eq!(describe_welcome("hi").unwrap(), "  ← Welcome: hi");
}

#[test]
fn no_cut_falls_inside_a_character() {
    assert_eq!(clip("aé", 2), None);
    assert_eq!(clip("aé", 3), Some("aé"));
    assert_eq!(clip("aéb", 3), Some("aé"));
    assert_eq!(clip("aé", 1), Some("a"));
    assert_eq!(clip("", 5), Some(""));
    let text = format!("{}é", "x".repeat(79));
    assert!(describe_welcome(&text).is_none());
    let text = format!("{}é", "x".repeat(119));
    assert!(describe_response(&text).is_none());
}

#[test]
fn the_launcher_launches_the_counter_app() {
    let parsed: serde_json::Value = serde_json::from_str(&counter_launch()).unwrap();
    assert_eq!(parsed["type"], "launch");
    assert_eq!(parsed["app_id"], "counter-1");
    assert_eq!(parsed["splash_body"], SPLASH_COUNTER_APP);
}

#[test]
fn places_are_counted_in_characters() {
    assert_eq!(find("éaba", "a"), Some(1));
    assert_eq!(rfind("éaba", "a"), Some(3));
    assert_eq!(find("abc", ""), Some(0));
    assert_eq!(rfind("abc", ""), Some(3));
    assert_eq!(rfind("aaa", "aa"), Some(1));
    assert_eq!(find("ab", "abc"), None);
    assert!(has("abc", "bc") && !has("abc", "cb"));
}

#[test]
fn texts_are_trimmed_joined_and_counted() {
    assert_eq!(trim(" \n "), "");
    assert_eq!(trim("\ta b\n"), "a b");
    assert_eq!(join(&vec![], ", "), "");
    assert_eq!(join(&vec!["a".into(), "".into(), "b".into()], ", "), "a, , b");
    assert_eq!(decimal_text(0), "0");
    assert_eq!(decimal_text(10), "10");
    assert_eq!(decimal_text(u64::MAX), u64::MAX.to_string());
}
