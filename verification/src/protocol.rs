//! The JSON messages between the agent runtime and the Makepad host.
use vstd::prelude::*;

use crate::json;
use crate::json::{
    distinct_keys, exact, json_of, json_text, members_of, number_of, parsed_json, readable, reserved,
    Json, JsonNumber, READING_DEPTH,
};

verus! {

/// A message sent from the Makepad host to the runtime.
#[derive(Debug)]
pub enum MakepadInboundMessage {
    /// The user typed text or sent a chat message.
    UserInput { content: String, chat_id: Option<String> },
    /// A widget was clicked.
    WidgetEvent { widget: String, value: Option<String>, chat_id: Option<String> },
    /// The host requests a fresh app launch.
    LaunchRequest { splash_body: Option<String>, chat_id: Option<String> },
    /// The host sends structured user input, from the `__pi_response` widget.
    PiResponse { content: String, chat_id: Option<String> },
    /// The host sends a snapshot of its widget tree, or debug information.
    DebugInfo { widget_tree: Option<serde_json::Value>, message: Option<String> },
    /// Keepalive.
    Ping { ts: Option<serde_json::Number> },
}

/// A message sent from the runtime to the Makepad host.
#[derive(Debug)]
pub enum MakepadOutboundMessage {
    /// Launch a Splash app in the host window.
    Launch { splash_body: String, app_id: Option<String> },
    /// Text response from the agent, displayed in the `__ai_text` widget.
    Response { content: String, stream_final: Option<bool> },
    /// Streaming text: an incremental update of the `__ai_text` widget.
    StreamDelta { delta: String, sequence: Option<u64> },
    /// The stream is complete: what is shown is final.
    StreamComplete { stop_reason: Option<String> },
    /// Snapshot of the widget tree.
    WidgetSnapshotReply { tree: serde_json::Value },
    /// Answer to a ping.
    Pong { ts: Option<serde_json::Number> },
    /// Error message.
    Error { message: String },
}

/// The member that every message begins with: its kind.
pub open spec fn tag(kind: Seq<char>) -> Seq<(Seq<char>, Json)> {
    seq![("type"@, Json::Str(kind))]
}

/// A member that is left out where there is no value.
pub open spec fn optional(key: Seq<char>, value: Option<Json>) -> Seq<(Seq<char>, Json)> {
    match value {
        Some(json) => seq![(key, json)],
        None => seq![],
    }
}

pub open spec fn opt_str(text: Option<String>) -> Option<Json> {
    match text {
        Some(s) => Some(Json::Str(s@)),
        None => None,
    }
}

pub open spec fn opt_bool(b: Option<bool>) -> Option<Json> {
    match b {
        Some(b) => Some(Json::Bool(b)),
        None => None,
    }
}

pub open spec fn opt_count(n: Option<u64>) -> Option<Json> {
    match n {
        Some(n) => Some(Json::Number(JsonNumber::PosInt(n))),
        None => None,
    }
}

pub open spec fn opt_number(n: Option<serde_json::Number>) -> Option<Json> {
    match n {
        Some(n) => Some(Json::Number(number_of(n))),
        None => None,
    }
}

impl MakepadOutboundMessage {
    /// The members of the JSON object that stands for the message.
    pub open spec fn members(self) -> Seq<(Seq<char>, Json)> {
        match self {
            MakepadOutboundMessage::Launch { splash_body, app_id } => tag("launch"@) + seq![
                ("splash_body"@, Json::Str(splash_body@)),
            ] + optional("app_id"@, opt_str(app_id)),
            MakepadOutboundMessage::Response { content, stream_final } => tag("response"@) + seq![
                ("content"@, Json::Str(content@)),
            ] + optional("stream_final"@, opt_bool(stream_final)),
            MakepadOutboundMessage::StreamDelta { delta, sequence } => tag("stream_delta"@) + seq![
                ("delta"@, Json::Str(delta@)),
            ] + optional("sequence"@, opt_count(sequence)),
            MakepadOutboundMessage::StreamComplete { stop_reason } => tag("stream_complete"@)
                + optional("stop_reason"@, opt_str(stop_reason)),
            MakepadOutboundMessage::WidgetSnapshotReply { tree } => tag("widget_snapshot_reply"@)
                + seq![("tree"@, json_of(tree))],
            MakepadOutboundMessage::Pong { ts } => tag("pong"@) + optional("ts"@, opt_number(ts)),
            MakepadOutboundMessage::Error { message } => tag("error"@) + seq![
                ("message"@, Json::Str(message@)),
            ],
        }
    }

    /// The JSON object that stands for the message.
    pub open spec fn wire(self) -> Json {
        Json::Object(self.members())
    }

    /// The text that is sent for the message.
    pub fn to_json(self) -> (r: String)
        ensures
            r@ == json_text(self.wire()),
            readable(self.wire()) ==> parsed_json(r@) == Some(self.wire()),
    {
        let ghost msg = self;
        let mut members: Vec<(String, serde_json::Value)> = Vec::new();
        proof {
            message_keys();
        }
        match self {
            MakepadOutboundMessage::Launch { splash_body, app_id } => {
                members.push(json::with_key("type", json::string("launch")));
                members.push(json::with_key("splash_body", json::string(splash_body.as_str())));
                if let Some(id) = &app_id {
                    members.push(json::with_key("app_id", json::string(id.as_str())));
                }
            },
            MakepadOutboundMessage::Response { content, stream_final } => {
                members.push(json::with_key("type", json::string("response")));
                members.push(json::with_key("content", json::string(content.as_str())));
                if let Some(b) = stream_final {
                    members.push(json::with_key("stream_final", json::flag(b)));
                }
            },
            MakepadOutboundMessage::StreamDelta { delta, sequence } => {
                members.push(json::with_key("type", json::string("stream_delta")));
                members.push(json::with_key("delta", json::string(delta.as_str())));
                if let Some(n) = sequence {
                    members.push(json::with_key("sequence", json::count(n)));
                }
            },
            MakepadOutboundMessage::StreamComplete { stop_reason } => {
                members.push(json::with_key("type", json::string("stream_complete")));
                if let Some(reason) = &stop_reason {
                    members.push(json::with_key("stop_reason", json::string(reason.as_str())));
                }
            },
            MakepadOutboundMessage::WidgetSnapshotReply { tree } => {
                members.push(json::with_key("type", json::string("widget_snapshot_reply")));
                members.push(json::with_key("tree", tree));
            },
            MakepadOutboundMessage::Pong { ts } => {
                members.push(json::with_key("type", json::string("pong")));
                if let Some(n) = ts {
                    members.push(json::with_key("ts", json::number(n)));
                }
            },
            MakepadOutboundMessage::Error { message } => {
                members.push(json::with_key("type", json::string("error")));
                members.push(json::with_key("message", json::string(message.as_str())));
            },
        }
        assert(members_of(members@) =~= msg.members());
        proof {
            members_are_distinct(msg);
        }
        let value = json::object(members);
        json::to_text(&value)
    }
}

/// The keys of the messages differ where they stand together, and none is reserved.
proof fn message_keys()
    ensures
        "type"@ != "splash_body"@,
        "type"@ != "app_id"@,
        "splash_body"@ != "app_id"@,
        "type"@ != "content"@,
        "type"@ != "stream_final"@,
        "content"@ != "stream_final"@,
        "type"@ != "delta"@,
        "type"@ != "sequence"@,
        "delta"@ != "sequence"@,
        "type"@ != "stop_reason"@,
        "type"@ != "tree"@,
        "type"@ != "ts"@,
        "type"@ != "message"@,
        !reserved("type"@),
        !reserved("splash_body"@),
        !reserved("app_id"@),
        !reserved("content"@),
        !reserved("stream_final"@),
        !reserved("delta"@),
        !reserved("sequence"@),
        !reserved("stop_reason"@),
        !reserved("tree"@),
        !reserved("ts"@),
        !reserved("message"@),
{
    reveal_strlit("type");
    reveal_strlit("splash_body");
    reveal_strlit("app_id");
    reveal_strlit("content");
    reveal_strlit("stream_final");
    reveal_strlit("delta");
    reveal_strlit("sequence");
    reveal_strlit("stop_reason");
    reveal_strlit("tree");
    reveal_strlit("ts");
    reveal_strlit("message");
    assert("type"@[1] != "tree"@[1]);
    assert("splash_body"@.len() == 11 && "app_id"@.len() == 6);
    assert("content"@.len() == 7 && "stream_final"@.len() == 12);
    assert("delta"@.len() == 5 && "sequence"@.len() == 8);
}

proof fn members_are_distinct(message: MakepadOutboundMessage)
    ensures
        distinct_keys(message.members()),
{
    message_keys();
}

/// A launch, a response, a streaming delta, the end of a stream and an error
/// can be read back, whatever they hold.
pub proof fn text_messages_are_readable(message: MakepadOutboundMessage)
    requires
        !(message is WidgetSnapshotReply),
        !(message is Pong),
    ensures
        readable(message.wire()),
{
    reveal_with_fuel(exact, 2);
    message_keys();
    members_are_distinct(message);
}

/// A snapshot can be read back where its tree holds no fraction and no reserved
/// key and leaves room for one more object around it.
pub proof fn snapshots_are_readable(message: MakepadOutboundMessage)
    requires
        message matches MakepadOutboundMessage::WidgetSnapshotReply { tree } && exact(
            json_of(tree),
            (READING_DEPTH - 1) as nat,
        ),
    ensures
        readable(message.wire()),
{
    reveal_with_fuel(exact, 2);
    message_keys();
    members_are_distinct(message);
}

/// A pong can be read back where its time stamp is missing or has no fraction.
pub proof fn whole_pongs_are_readable(message: MakepadOutboundMessage)
    requires
        message matches MakepadOutboundMessage::Pong { ts } && match ts {
            Some(n) => exact(Json::Number(number_of(n)), 0),
            None => true,
        },
    ensures
        readable(message.wire()),
{
    reveal_with_fuel(exact, 2);
    message_keys();
    members_are_distinct(message);
}

/// The message that launches a Splash app.
pub fn build_launch_message(splash_body: &str, app_id: Option<String>) -> (r: String)
    ensures
        ({
            let wire = Json::Object(
                tag("launch"@) + seq![("splash_body"@, Json::Str(splash_body@))] + optional(
                    "app_id"@,
                    opt_str(app_id),
                ),
            );
            r@ == json_text(wire) && parsed_json(r@) == Some(wire)
        }),
{
    let message = MakepadOutboundMessage::Launch { splash_body: splash_body.to_string(), app_id };
    proof {
        text_messages_are_readable(message);
    }
    message.to_json()
}

/// The message that carries a piece of streamed text.
pub fn build_stream_delta(delta: &str, sequence: Option<u64>) -> (r: String)
    ensures
        ({
            let wire = Json::Object(
                tag("stream_delta"@) + seq![("delta"@, Json::Str(delta@))] + optional(
                    "sequence"@,
                    opt_count(sequence),
                ),
            );
            r@ == json_text(wire) && parsed_json(r@) == Some(wire)
        }),
{
    let message = MakepadOutboundMessage::StreamDelta { delta: delta.to_string(), sequence };
    proof {
        text_messages_are_readable(message);
    }
    message.to_json()
}

/// The message that carries a response of the agent.
pub fn build_response_message(content: &str, stream_final: Option<bool>) -> (r: String)
    ensures
        ({
            let wire = Json::Object(
                tag("response"@) + seq![("content"@, Json::Str(content@))] + optional(
                    "stream_final"@,
                    opt_bool(stream_final),
                ),
            );
            r@ == json_text(wire) && parsed_json(r@) == Some(wire)
        }),
{
    let message = MakepadOutboundMessage::Response { content: content.to_string(), stream_final };
    proof {
        text_messages_are_readable(message);
    }
    message.to_json()
}

} // verus!
