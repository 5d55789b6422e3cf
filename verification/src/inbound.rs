//! Messages that reach the agent through the Makepad channel.
use vstd::prelude::*;

use crate::clock;
use crate::clock::Timestamp;
use crate::json;
use crate::json::{
    distinct_keys, entry_found, json_of, json_text, member, members_of, parsed_json, readable,
    text_member, text_or_null, Json,
};
use crate::protocol::{
    opt_number, optional, tag, text_messages_are_readable, MakepadInboundMessage,
    MakepadOutboundMessage,
};
use crate::text;
use crate::text::{contains, occurs_at, opt_view, views};

verus! {

/// The name of the channel, and of the chat that it talks to by default.
pub const CHANNEL_NAME: &'static str = "makepad";

/// Where a message has its origin.
#[derive(Clone, Copy, Debug, PartialEq, Eq, Structural)]
pub enum MessageOrigin {
    ExternalUser,
}

/// A message for the agent.
#[derive(Debug)]
pub struct InboundMessage {
    pub channel: String,
    pub sender_id: String,
    pub chat_id: String,
    pub content: String,
    pub timestamp: Timestamp,
    pub media: Vec<String>,
    pub metadata: serde_json::Value,
    pub message_id: Option<String>,
    pub origin: MessageOrigin,
}

/// The model of a message for the agent.
#[verifier::ext_equal]
pub struct InboundView {
    pub channel: Seq<char>,
    pub sender_id: Seq<char>,
    pub chat_id: Seq<char>,
    pub content: Seq<char>,
    pub timestamp: Timestamp,
    pub media: Seq<Seq<char>>,
    pub metadata: Json,
    pub message_id: Option<Seq<char>>,
    pub origin: MessageOrigin,
}

impl View for InboundMessage {
    type V = InboundView;

    open spec fn view(&self) -> InboundView {
        InboundView {
            channel: self.channel@,
            sender_id: self.sender_id@,
            chat_id: self.chat_id@,
            content: self.content@,
            timestamp: self.timestamp,
            media: views(self.media@),
            metadata: json_of(self.metadata),
            message_id: opt_view(self.message_id),
            origin: self.origin,
        }
    }
}

/// What the user of the host says in a chat.
pub open spec fn from_user(
    chat_id: Seq<char>,
    content: Seq<char>,
    metadata: Json,
    timestamp: Timestamp,
) -> InboundView {
    InboundView {
        channel: CHANNEL_NAME@,
        sender_id: "user"@,
        chat_id,
        content,
        timestamp,
        media: seq![],
        metadata,
        message_id: None,
        origin: MessageOrigin::ExternalUser,
    }
}

fn user_message(
    chat_id: String,
    content: String,
    metadata: serde_json::Value,
    timestamp: Timestamp,
) -> (r: InboundMessage)
    ensures
        r@ == from_user(chat_id@, content@, json_of(metadata), timestamp),
{
    let r = InboundMessage {
        channel: CHANNEL_NAME.to_string(),
        sender_id: "user".to_string(),
        chat_id,
        content,
        timestamp,
        media: Vec::new(),
        metadata,
        message_id: None,
        origin: MessageOrigin::ExternalUser,
    };
    assert(r@ =~= from_user(chat_id@, content@, json_of(metadata), timestamp));
    r
}

/// What follows from a message of the host.
#[derive(Debug)]
pub enum Incoming {
    /// Send this text back to the host.
    Reply(String),
    /// Hand this message to the agent.
    Deliver(InboundMessage),
    /// Take note of debug information.
    Note { message: String, has_widget_tree: bool },
}

/// The model of what follows from a message of the host.
#[verifier::ext_equal]
pub enum IncomingView {
    Reply(Seq<char>),
    Deliver(InboundView),
    Note { message: Seq<char>, has_widget_tree: bool },
}

impl View for Incoming {
    type V = IncomingView;

    open spec fn view(&self) -> IncomingView {
        match self {
            Incoming::Reply(text) => IncomingView::Reply(text@),
            Incoming::Deliver(message) => IncomingView::Deliver(message@),
            Incoming::Note { message, has_widget_tree } => IncomingView::Note {
                message: message@,
                has_widget_tree: *has_widget_tree,
            },
        }
    }
}

/// A text, or another where there is none.
pub open spec fn text_or(text: Option<String>, fallback: Seq<char>) -> Seq<char> {
    match text {
        Some(s) => s@,
        None => fallback,
    }
}

/// How a widget event is told to the agent.
pub open spec fn widget_content(widget: Seq<char>, value: Option<String>) -> Seq<char> {
    match value {
        Some(v) => "Widget '"@ + widget + "' event with value: "@ + v@,
        None => "Widget '"@ + widget + "' event"@,
    }
}

/// The details of a widget event.
pub open spec fn widget_metadata(widget: Seq<char>, value: Option<String>) -> Json {
    Json::Object(
        seq![("widget"@, Json::Str(widget)), ("value"@, text_or_null(opt_view(value)))],
    )
}

/// The answer to a text that is no message of the protocol.
pub open spec fn error_wire(reason: Seq<char>) -> Json {
    Json::Object(tag("error"@) + seq![("message"@, Json::Str("invalid message format: "@ + reason))])
}

/// The answer to a ping: the time stamp comes back as it was.
pub open spec fn pong_wire(ts: Option<serde_json::Number>) -> Json {
    Json::Object(tag("pong"@) + optional("ts"@, opt_number(ts)))
}

/// What follows from a message of the host, or from a text that could not be
/// read as one (`Err`, with the reason).
pub open spec fn incoming(
    message: Result<MakepadInboundMessage, String>,
    default_chat_id: Seq<char>,
    timestamp: Timestamp,
) -> IncomingView {
    match message {
        Err(reason) => IncomingView::Reply(json_text(error_wire(reason@))),
        Ok(MakepadInboundMessage::Ping { ts }) => IncomingView::Reply(json_text(pong_wire(ts))),
        Ok(MakepadInboundMessage::UserInput { content, chat_id }) => IncomingView::Deliver(
            from_user(
                text_or(chat_id, default_chat_id),
                content@,
                Json::Object(seq![]),
                timestamp,
            ),
        ),
        Ok(MakepadInboundMessage::PiResponse { content, chat_id }) => IncomingView::Deliver(
            from_user(
                text_or(chat_id, default_chat_id),
                content@,
                Json::Object(seq![]),
                timestamp,
            ),
        ),
        Ok(MakepadInboundMessage::WidgetEvent { widget, value, chat_id }) => IncomingView::Deliver(
            from_user(
                text_or(chat_id, default_chat_id),
                widget_content(widget@, value),
                widget_metadata(widget@, value),
                timestamp,
            ),
        ),
        Ok(MakepadInboundMessage::LaunchRequest { splash_body: _, chat_id }) =>
            IncomingView::Deliver(
            from_user(
                text_or(chat_id, default_chat_id),
                "Request to launch a Splash app"@,
                Json::Object(tag("launch_request"@)),
                timestamp,
            ),
        ),
        Ok(MakepadInboundMessage::DebugInfo { widget_tree, message }) => IncomingView::Note {
            message: text_or(message, "debug info received"@),
            has_widget_tree: widget_tree is Some,
        },
    }
}

fn text_or_default(text: Option<String>, fallback: &str) -> (r: String)
    ensures
        r@ == text_or(text, fallback@),
{
    match text {
        Some(s) => s,
        None => fallback.to_string(),
    }
}

fn no_metadata() -> (r: serde_json::Value)
    ensures
        json_of(r) == Json::Object(seq![]),
{
    let members: Vec<(String, serde_json::Value)> = Vec::new();
    assert(members_of(members@) =~= seq![]);
    json::object(members)
}

fn text_metadata(key: &str, value: &str) -> (r: serde_json::Value)
    ensures
        json_of(r) == Json::Object(seq![(key@, Json::Str(value@))]),
{
    let members = vec![json::with_key(key, json::string(value))];
    assert(members_of(members@) =~= seq![(key@, Json::Str(value@))]);
    json::object(members)
}

fn describe_widget_event(widget: &str, value: &Option<String>) -> (r: String)
    ensures
        r@ == widget_content(widget@, *value),
{
    let mut out = text::concat("Widget '", widget);
    match value {
        Some(v) => {
            out.append("' event with value: ");
            out.append(v.as_str());
        },
        None => {
            out.append("' event");
        },
    }
    out
}

fn widget_event_metadata(widget: &str, value: &Option<String>) -> (r: serde_json::Value)
    ensures
        json_of(r) == widget_metadata(widget@, *value),
{
    let members = vec![
        json::with_key("widget", json::string(widget)),
        json::with_key("value", json::string_or_null(value)),
    ];
    proof {
        reveal_strlit("widget");
        reveal_strlit("value");
        assert("widget"@.len() != "value"@.len());
        assert(members_of(members@) =~= seq![
            ("widget"@, Json::Str(widget@)),
            ("value"@, text_or_null(opt_view(*value))),
        ]);
    }
    json::object(members)
}

/// Decides what follows from a message of the host that arrived at a given
/// time. A text that could not be read as a message comes as `Err`, with the
/// reason.
pub fn handle_incoming_at(
    message: Result<MakepadInboundMessage, String>,
    default_chat_id: &str,
    timestamp: Timestamp,
) -> (r: Incoming)
    ensures
        r@ == incoming(message, default_chat_id@, timestamp),
        message matches Err(reason) ==> (r matches Incoming::Reply(reply) && parsed_json(reply@)
            == Some(error_wire(reason@))),
        message matches Ok(MakepadInboundMessage::Ping { ts }) ==> (r matches Incoming::Reply(reply)
            && (readable(pong_wire(ts)) ==> parsed_json(reply@) == Some(pong_wire(ts)))),
{
    match message {
        Err(reason) => {
            let message = MakepadOutboundMessage::Error {
                message: text::concat("invalid message format: ", reason.as_str()),
            };
            assert(message.wire() == error_wire(reason@));
            proof {
                text_messages_are_readable(message);
            }
            Incoming::Reply(message.to_json())
        },
        Ok(MakepadInboundMessage::Ping { ts }) => {
            let message = MakepadOutboundMessage::Pong { ts };
            Incoming::Reply(message.to_json())
        },
        Ok(MakepadInboundMessage::UserInput { content, chat_id }) => {
            Incoming::Deliver(
                user_message(
                    text_or_default(chat_id, default_chat_id),
                    content,
                    no_metadata(),
                    timestamp,
                ),
            )
        },
        Ok(MakepadInboundMessage::PiResponse { content, chat_id }) => {
            Incoming::Deliver(
                user_message(
                    text_or_default(chat_id, default_chat_id),
                    content,
                    no_metadata(),
                    timestamp,
                ),
            )
        },
        Ok(MakepadInboundMessage::WidgetEvent { widget, value, chat_id }) => {
            Incoming::Deliver(
                user_message(
                    text_or_default(chat_id, default_chat_id),
                    describe_widget_event(widget.as_str(), &value),
                    widget_event_metadata(widget.as_str(), &value),
                    timestamp,
                ),
            )
        },
        Ok(MakepadInboundMessage::LaunchRequest { splash_body: _, chat_id }) => {
            Incoming::Deliver(
                user_message(
                    text_or_default(chat_id, default_chat_id),
                    "Request to launch a Splash app".to_string(),
                    text_metadata("type", "launch_request"),
                    timestamp,
                ),
            )
        },
        Ok(MakepadInboundMessage::DebugInfo { widget_tree, message }) => {
            Incoming::Note {
                message: text_or_default(message, "debug info received"),
                has_widget_tree: widget_tree.is_some(),
            }
        },
    }
}

/// Decides what follows from a message of the host that arrives now.
pub fn handle_incoming(
    message: Result<MakepadInboundMessage, String>,
    default_chat_id: &str,
) -> (r: Incoming)
    ensures
        exists|timestamp: Timestamp| r@ == #[trigger] incoming(
            message,
            default_chat_id@,
            timestamp,
        ),
        message matches Err(reason) ==> (r matches Incoming::Reply(reply) && parsed_json(reply@)
            == Some(error_wire(reason@))),
        message matches Ok(MakepadInboundMessage::Ping { ts }) ==> (r matches Incoming::Reply(reply)
            && (readable(pong_wire(ts)) ==> parsed_json(reply@) == Some(pong_wire(ts)))),
{
    let timestamp = clock::now();
    handle_incoming_at(message, default_chat_id, timestamp)
}

/// What follows from a message of the harness.
#[derive(Debug)]
pub enum HarnessNews {
    /// Hand this message to the agent.
    Deliver(InboundMessage),
    /// The harness reports an error.
    Warning(String),
    /// A status, a debug response or a state of the document.
    Report,
    /// A message of another kind.
    Unknown(String),
    /// A message of a known kind that lacks its content.
    Nothing,
}

/// The model of what follows from a message of the harness.
#[verifier::ext_equal]
pub enum HarnessNewsView {
    Deliver(InboundView),
    Warning(Seq<char>),
    Report,
    Unknown(Seq<char>),
    Nothing,
}

impl View for HarnessNews {
    type V = HarnessNewsView;

    open spec fn view(&self) -> HarnessNewsView {
        match self {
            HarnessNews::Deliver(message) => HarnessNewsView::Deliver(message@),
            HarnessNews::Warning(text) => HarnessNewsView::Warning(text@),
            HarnessNews::Report => HarnessNewsView::Report,
            HarnessNews::Unknown(kind) => HarnessNewsView::Unknown(kind@),
            HarnessNews::Nothing => HarnessNewsView::Nothing,
        }
    }
}

/// The kind of a message, or a question mark where it has none.
pub open spec fn kind_of(json: Json) -> Seq<char> {
    match text_member(json, "type"@) {
        Some(kind) => kind,
        None => "?"@,
    }
}

/// What follows from a message of the harness. A response of the user names no
/// chat, so it belongs to the default one.
pub open spec fn harness_news(
    json: Json,
    default_chat_id: Seq<char>,
    timestamp: Timestamp,
) -> HarnessNewsView {
    let kind = kind_of(json);
    if kind == "user_response"@ {
        match text_member(json, "response"@) {
            Some(response) => HarnessNewsView::Deliver(
                from_user(
                    default_chat_id,
                    response,
                    Json::Object(seq![("source"@, Json::Str("pi_response"@))]),
                    timestamp,
                ),
            ),
            None => HarnessNewsView::Nothing,
        }
    } else if kind == "error"@ {
        match text_member(json, "message"@) {
            Some(message) => HarnessNewsView::Warning(message),
            None => HarnessNewsView::Nothing,
        }
    } else if kind == "status"@ || kind == "debug_response"@ || kind == "doc_state"@ {
        HarnessNewsView::Report
    } else {
        HarnessNewsView::Unknown(kind)
    }
}

/// The value that a text holds, or null where it holds none.
pub open spec fn read_or_null(text: Seq<char>) -> Json {
    match parsed_json(text) {
        Some(json) => json,
        None => Json::Null,
    }
}

/// Reads a text as JSON; a text that is none counts as null.
pub(crate) fn parse_or_null(text: &str) -> (r: serde_json::Value)
    ensures
        json_of(r) == read_or_null(text@),
{
    match json::parse(text) {
        Ok(value) => value,
        Err(_) => json::null(),
    }
}

/// Decides what follows from a message of the harness, read from its text, that
/// arrived at a given time.
pub fn handle_harness_value_at(
    parsed: &serde_json::Value,
    default_chat_id: &str,
    timestamp: Timestamp,
) -> (r: HarnessNews)
    ensures
        r@ == harness_news(json_of(*parsed), default_chat_id@, timestamp),
{
    let kind = text::or_text(json::get_str(parsed, "type"), "?");
    let kind = kind.as_str();
    if text::same_text(kind, "user_response") {
        match json::get_str(parsed, "response") {
            Some(response) => HarnessNews::Deliver(
                user_message(
                    default_chat_id.to_string(),
                    response.to_string(),
                    text_metadata("source", "pi_response"),
                    timestamp,
                ),
            ),
            None => HarnessNews::Nothing,
        }
    } else if text::same_text(kind, "error") {
        match json::get_str(parsed, "message") {
            Some(message) => HarnessNews::Warning(message.to_string()),
            None => HarnessNews::Nothing,
        }
    } else if text::same_text(kind, "status") || text::same_text(kind, "debug_response")
        || text::same_text(kind, "doc_state") {
        HarnessNews::Report
    } else {
        HarnessNews::Unknown(kind.to_string())
    }
}

/// Decides what follows from a text that the harness sends now.
pub fn handle_harness_text(text: &str, default_chat_id: &str) -> (r: HarnessNews)
    ensures
        exists|timestamp: Timestamp| r@ == #[trigger] harness_news(
            read_or_null(text@),
            default_chat_id@,
            timestamp,
        ),
{
    let parsed = parse_or_null(text);
    let timestamp = clock::now();
    handle_harness_value_at(&parsed, default_chat_id, timestamp)
}

/// Whatever is handed to the agent comes from the user of this channel, bears
/// the time of its arrival, and belongs to the chat that it names or to the
/// default one.
pub proof fn deliveries_come_from_the_user(
    message: MakepadInboundMessage,
    default_chat_id: Seq<char>,
    timestamp: Timestamp,
)
    ensures
        incoming(Ok(message), default_chat_id, timestamp) matches IncomingView::Deliver(inbound)
            ==> {
            &&& inbound.channel == CHANNEL_NAME@
            &&& inbound.sender_id == "user"@
            &&& inbound.timestamp == timestamp
            &&& inbound.origin == MessageOrigin::ExternalUser
            &&& inbound.chat_id == text_or(named_chat(message), default_chat_id)
        },
{
}

/// The chat that a message names.
pub open spec fn named_chat(message: MakepadInboundMessage) -> Option<String> {
    match message {
        MakepadInboundMessage::UserInput { content: _, chat_id } => chat_id,
        MakepadInboundMessage::PiResponse { content: _, chat_id } => chat_id,
        MakepadInboundMessage::WidgetEvent { widget: _, value: _, chat_id } => chat_id,
        MakepadInboundMessage::LaunchRequest { splash_body: _, chat_id } => chat_id,
        _ => None,
    }
}

/// What the agent is told of a widget event names the widget and the value, in
/// words and in the details.
pub proof fn widget_events_name_the_widget(widget: Seq<char>, value: Option<String>)
    ensures
        contains(widget_content(widget, value), widget),
        value matches Some(v) ==> contains(widget_content(widget, value), v@),
        text_member(widget_metadata(widget, value), "widget"@) == Some(widget),
        member(widget_metadata(widget, value), "value"@) == Some(text_or_null(opt_view(value))),
{
    let content = widget_content(widget, value);
    let start = "Widget '"@.len() as int;
    assert(content.subrange(start, start + widget.len()) =~= widget);
    assert(occurs_at(content, widget, start));
    if let Some(v) = value {
        let at = content.len() - v@.len();
        assert(content.subrange(at, at + v@.len()) =~= v@);
        assert(occurs_at(content, v@, at));
    }
    let entries = widget_metadata(widget, value)->Object_0;
    reveal_strlit("widget");
    reveal_strlit("value");
    assert("widget"@.len() != "value"@.len());
    assert(distinct_keys(entries));
    entry_found(entries, 0);
    entry_found(entries, 1);
}

} // verus!
