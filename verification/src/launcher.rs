//! What the launcher prints of its conversation with the harness.
use vstd::prelude::*;
use vstd::utf8::{decode_utf8, encode_utf8, encode_utf8_decode_utf8, is_char_boundary};

use crate::fake::SPLASH_COUNTER_APP;
use crate::inbound::{kind_of, parse_or_null, read_or_null};
use crate::json;
use crate::json::{json_of, json_text, parsed_json, text_member, Json};
use crate::launch_app::{launch_message, launch_wire};
use crate::makepad_host::seq_or;
use crate::text;
use crate::text::opt_view;

verus! {

/// The length in bytes at which a text is cut.
pub open spec fn cut_length(text: Seq<char>, limit: nat) -> int {
    let length = encode_utf8(text).len();
    if length <= limit {
        length as int
    } else {
        limit as int
    }
}

/// The text, cut after at most `limit` bytes. There is no cut inside a
/// character.
pub open spec fn clipped(text: Seq<char>, limit: nat) -> Option<Seq<char>> {
    let at = cut_length(text, limit);
    if is_char_boundary(encode_utf8(text), at) {
        Some(decode_utf8(encode_utf8(text).subrange(0, at)))
    } else {
        None
    }
}

/// Cuts a text after at most `limit` bytes. Where that would be inside a
/// character, there is no result.
pub fn clip(text: &str, limit: usize) -> (r: Option<&str>)
    ensures
        match r {
            Some(cut) => clipped(text@, limit as nat) == Some(cut@),
            None => clipped(text@, limit as nat) is None,
        },
{
    let length: usize = text.as_bytes().len();
    let at: usize = if length <= limit {
        length
    } else {
        limit
    };
    if text.is_char_boundary(at) {
        let parts = text.split_at(at);
        proof {
            encode_utf8_decode_utf8(parts.0@);
        }
        Some(parts.0)
    } else {
        None
    }
}

/// What is printed of a message of the harness. There is nothing where a cut
/// would be inside a character.
pub open spec fn response_line(text: Seq<char>, message: Json) -> Option<Seq<char>> {
    let kind = kind_of(message);
    if kind == "status"@ {
        Some("  ← Status: "@ + seq_or(text_member(message, "status"@), seq![]))
    } else if kind == "user_response"@ {
        Some("  ← User response: "@ + seq_or(text_member(message, "response"@), seq![]))
    } else if kind == "error"@ {
        Some("  ← ERROR: "@ + seq_or(text_member(message, "message"@), seq![]))
    } else if kind == "debug_response"@ {
        match clipped(seq_or(text_member(message, "result"@), seq![]), 100) {
            Some(start) => Some("  ← Debug: "@ + start + "..."@),
            None => None,
        }
    } else {
        match clipped(text, 120) {
            Some(start) => Some("  ← "@ + kind + ": "@ + start),
            None => None,
        }
    }
}

fn text_or_empty(value: &serde_json::Value, key: &str) -> (r: String)
    ensures
        r@ == seq_or(text_member(json_of(*value), key@), seq![]),
{
    match json::get_str(value, key) {
        Some(found) => found.to_string(),
        None => String::new(),
    }
}

/// The line to print of a message of the harness that has been read from its
/// text.
pub fn describe_value(text: &str, parsed: &serde_json::Value) -> (r: Option<String>)
    ensures
        opt_view(r) == response_line(text@, json_of(*parsed)),
{
    let kind = text::or_text(json::get_str(parsed, "type"), "?");
    let kind = kind.as_str();
    if text::same_text(kind, "status") {
        Some(text::concat("  ← Status: ", text_or_empty(parsed, "status").as_str()))
    } else if text::same_text(kind, "user_response") {
        Some(text::concat("  ← User response: ", text_or_empty(parsed, "response").as_str()))
    } else if text::same_text(kind, "error") {
        Some(text::concat("  ← ERROR: ", text_or_empty(parsed, "message").as_str()))
    } else if text::same_text(kind, "debug_response") {
        let result = text_or_empty(parsed, "result");
        match clip(result.as_str(), 100) {
            Some(start) => Some(text::concat3("  ← Debug: ", start, "...")),
            None => None,
        }
    } else {
        match clip(text, 120) {
            Some(start) => {
                let mut line = text::concat3("  ← ", kind, ": ");
                line.append(start);
                Some(line)
            },
            None => None,
        }
    }
}

/// The line to print of a text that the harness sends.
pub fn describe_response(text: &str) -> (r: Option<String>)
    ensures
        opt_view(r) == response_line(text@, read_or_null(text@)),
{
    let parsed = parse_or_null(text);
    describe_value(text, &parsed)
}

/// The line to print of the text that the harness greets with.
pub fn describe_welcome(text: &str) -> (r: Option<String>)
    ensures
        opt_view(r) == match clipped(text@, 80) {
            Some(start) => Some("  ← Welcome: "@ + start),
            None => None,
        },
{
    match clip(text, 80) {
        Some(start) => Some(text::concat("  ← Welcome: ", start)),
        None => None,
    }
}

/// The message that launches the counter app.
pub fn counter_launch() -> (r: String)
    ensures
        r@ == json_text(launch_wire(SPLASH_COUNTER_APP@, "counter-1"@)),
        parsed_json(r@) == Some(launch_wire(SPLASH_COUNTER_APP@, "counter-1"@)),
{
    launch_message(SPLASH_COUNTER_APP, "counter-1")
}

} // verus!
