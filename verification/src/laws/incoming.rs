//! What becomes of the messages of the host and of the harness.
use vstd::prelude::*;

use crate::clock::Timestamp;
use crate::inbound::{
    harness_news, incoming, read_or_null, HarnessNewsView, InboundView, IncomingView,
    MessageOrigin,
};
use crate::json::{json_text, number_of, parsed_json, text_member, Json};
use crate::protocol::MakepadInboundMessage;

verus! {

/// A message for the agent from the user of the channel, with nothing attached
/// but its details.
pub open spec fn says_user(
    message: InboundView,
    chat_id: Seq<char>,
    content: Seq<char>,
    metadata: Json,
    timestamp: Timestamp,
) -> bool {
    &&& message.channel == "makepad"@
    &&& message.sender_id == "user"@
    &&& message.chat_id == chat_id
    &&& message.content == content
    &&& message.timestamp == timestamp
    &&& message.media.len() == 0
    &&& message.metadata == metadata
    &&& message.message_id is None
    &&& message.origin == MessageOrigin::ExternalUser
}

/// The chat that a message names, or the default one.
pub open spec fn chat_of(named: Option<String>, default_chat_id: Seq<char>) -> Seq<char> {
    if named is Some {
        named->Some_0@
    } else {
        default_chat_id
    }
}

/// What the user writes, and what an app responds, reaches the agent character
/// for character, in the chat that it names or in the default one.
pub proof fn words_are_delivered_whole(
    content: String,
    chat_id: Option<String>,
    default_chat_id: Seq<char>,
    timestamp: Timestamp,
)
    ensures
        incoming(
            Ok(MakepadInboundMessage::UserInput { content, chat_id }),
            default_chat_id,
            timestamp,
        ) matches IncomingView::Deliver(m) && says_user(
            m,
            chat_of(chat_id, default_chat_id),
            content@,
            Json::Object(seq![]),
            timestamp,
        ),
        incoming(
            Ok(MakepadInboundMessage::PiResponse { content, chat_id }),
            default_chat_id,
            timestamp,
        ) matches IncomingView::Deliver(m) && says_user(
            m,
            chat_of(chat_id, default_chat_id),
            content@,
            Json::Object(seq![]),
            timestamp,
        ),
{
}

/// A widget event is told to the agent with the widget and the value as they
/// came, in words and in the details.
pub proof fn widget_events_are_delivered_whole(
    widget: String,
    value: Option<String>,
    chat_id: Option<String>,
    default_chat_id: Seq<char>,
    timestamp: Timestamp,
)
    ensures
        ({
            let words = if value is Some {
                "Widget '"@ + widget@ + "' event with value: "@ + value->Some_0@
            } else {
                "Widget '"@ + widget@ + "' event"@
            };
            let detail = if value is Some {
                Json::Str(value->Some_0@)
            } else {
                Json::Null
            };
            incoming(
                Ok(MakepadInboundMessage::WidgetEvent { widget, value, chat_id }),
                default_chat_id,
                timestamp,
            ) matches IncomingView::Deliver(m) && says_user(
                m,
                chat_of(chat_id, default_chat_id),
                words,
                Json::Object(seq![("widget"@, Json::Str(widget@)), ("value"@, detail)]),
                timestamp,
            )
        }),
{
}

/// A request for a launch is told to the agent, whatever body it holds.
pub proof fn launch_requests_are_delivered(
    splash_body: Option<String>,
    chat_id: Option<String>,
    default_chat_id: Seq<char>,
    timestamp: Timestamp,
)
    ensures
        incoming(
            Ok(MakepadInboundMessage::LaunchRequest { splash_body, chat_id }),
            default_chat_id,
            timestamp,
        ) matches IncomingView::Deliver(m) && says_user(
            m,
            chat_of(chat_id, default_chat_id),
            "Request to launch a Splash app"@,
            Json::Object(seq![("type"@, Json::Str("launch_request"@))]),
            timestamp,
        ),
{
}

/// A ping is answered with its time stamp as it came, a text that is no message
/// with the whole reason, and debug information is noted with its words.
pub proof fn the_host_is_answered(
    ts: Option<serde_json::Number>,
    reason: String,
    widget_tree: Option<serde_json::Value>,
    message: Option<String>,
    default_chat_id: Seq<char>,
    timestamp: Timestamp,
)
    ensures
        ({
            let pong = if ts is Some {
                seq![
                    ("type"@, Json::Str("pong"@)),
                    ("ts"@, Json::Number(number_of(ts->Some_0))),
                ]
            } else {
                seq![("type"@, Json::Str("pong"@))]
            };
            incoming(Ok(MakepadInboundMessage::Ping { ts }), default_chat_id, timestamp)
                == IncomingView::Reply(json_text(Json::Object(pong)))
        }),
        incoming(Err(reason), default_chat_id, timestamp) == IncomingView::Reply(
            json_text(
                Json::Object(
                    seq![
                        ("type"@, Json::Str("error"@)),
                        ("message"@, Json::Str("invalid message format: "@ + reason@)),
                    ],
                ),
            ),
        ),
        incoming(
            Ok(MakepadInboundMessage::DebugInfo { widget_tree, message }),
            default_chat_id,
            timestamp,
        ) == (IncomingView::Note {
            message: if message is Some {
                message->Some_0@
            } else {
                "debug info received"@
            },
            has_widget_tree: widget_tree is Some,
        }),
{
    let tag = seq![("type"@, Json::Str("pong"@))];
    if ts is Some {
        let number = ("ts"@, Json::Number(number_of(ts->Some_0)));
        assert(tag + seq![number] =~= seq![tag[0], number]);
    } else {
        assert(tag + Seq::<(Seq<char>, Json)>::empty() =~= tag);
    }
    let words = ("message"@, Json::Str("invalid message format: "@ + reason@));
    assert(seq![("type"@, Json::Str("error"@))] + seq![words] =~= seq![
        ("type"@, Json::Str("error"@)),
        words,
    ]);
}

/// The kinds of messages of the harness differ.
proof fn harness_kinds()
    ensures
        "user_response"@.len() == 13,
        "error"@.len() == 5,
        "status"@.len() == 6,
        "debug_response"@.len() == 14,
        "doc_state"@.len() == 9,
        "?"@.len() == 1,
{
    reveal_strlit("user_response");
    reveal_strlit("error");
    reveal_strlit("status");
    reveal_strlit("debug_response");
    reveal_strlit("doc_state");
    reveal_strlit("?");
}

/// A response of the user that the harness reports reaches the agent character
/// for character, in the default chat; without a response nothing comes of it.
pub proof fn harness_responses_are_delivered_whole(
    json: Json,
    default_chat_id: Seq<char>,
    timestamp: Timestamp,
)
    requires
        text_member(json, "type"@) == Some("user_response"@),
    ensures
        text_member(json, "response"@) matches Some(response) ==> (harness_news(
            json,
            default_chat_id,
            timestamp,
        ) matches HarnessNewsView::Deliver(m) && says_user(
            m,
            default_chat_id,
            response,
            Json::Object(seq![("source"@, Json::Str("pi_response"@))]),
            timestamp,
        )),
        text_member(json, "response"@) is None ==> harness_news(json, default_chat_id, timestamp)
            is Nothing,
{
}

/// An error of the harness is a warning with its whole text; a status, a debug
/// response and a state of the document are reports; all else is unknown, under
/// its kind. None of these reaches the agent.
pub proof fn other_harness_messages_stay_here(
    json: Json,
    default_chat_id: Seq<char>,
    timestamp: Timestamp,
)
    ensures
        ({
            let kind = text_member(json, "type"@);
            let news = harness_news(json, default_chat_id, timestamp);
            let warning = text_member(json, "message"@);
            &&& kind == Some("error"@) ==> news == if warning is Some {
                HarnessNewsView::Warning(warning->Some_0)
            } else {
                HarnessNewsView::Nothing
            }
            &&& kind == Some("status"@) ==> news is Report
            &&& kind == Some("debug_response"@) ==> news is Report
            &&& kind == Some("doc_state"@) ==> news is Report
            &&& kind is None ==> news == HarnessNewsView::Unknown("?"@)
            &&& kind is Some && kind != Some("user_response"@) && kind != Some("error"@) && kind
                != Some("status"@) && kind != Some("debug_response"@) && kind != Some("doc_state"@)
                ==> news == HarnessNewsView::Unknown(kind->Some_0)
        }),
{
    harness_kinds();
}

/// A text that is JSON is read as what it is, and any other as null.
pub proof fn unreadable_texts_are_null(text: Seq<char>)
    ensures
        parsed_json(text) is Some ==> parsed_json(text) == Some(read_or_null(text)),
        parsed_json(text) is None ==> read_or_null(text) is Null,
{
}

} // verus!
