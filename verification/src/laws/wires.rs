//! The messages on the wire, member by member.
use vstd::prelude::*;

use crate::inbound::{error_wire, pong_wire};
use crate::json::{json_of, number_of, Json, JsonNumber};
use crate::makepad_channel::final_response;
use crate::protocol::{opt_bool, opt_count, opt_number, opt_str, optional, tag, MakepadOutboundMessage};

verus! {

/// An object of one member.
pub open spec fn of_one(kind: Seq<char>) -> Json {
    Json::Object(seq![("type"@, Json::Str(kind))])
}

/// An object of two members.
pub open spec fn of_two(kind: Seq<char>, key: Seq<char>, value: Json) -> Json {
    Json::Object(seq![("type"@, Json::Str(kind)), (key, value)])
}

/// An object of three members.
pub open spec fn of_three(
    kind: Seq<char>,
    key: Seq<char>,
    value: Json,
    key2: Seq<char>,
    value2: Json,
) -> Json {
    Json::Object(seq![("type"@, Json::Str(kind)), (key, value), (key2, value2)])
}

/// A launch holds its whole body, and the identifier where there is one.
pub proof fn launches_hold_their_body(splash_body: String, app_id: Option<String>)
    ensures
        ({
            let body = Json::Str(splash_body@);
            (MakepadOutboundMessage::Launch { splash_body, app_id }).wire() == if app_id is Some {
                of_three("launch"@, "splash_body"@, body, "app_id"@, Json::Str(app_id->Some_0@))
            } else {
                of_two("launch"@, "splash_body"@, body)
            }
        }),
{
    shapes("launch"@, "splash_body"@, Json::Str(splash_body@), "app_id"@, opt_str(app_id));
}

/// A response holds its whole content, and whether it is final where that is
/// said.
pub proof fn responses_hold_their_content(content: String, stream_final: Option<bool>)
    ensures
        ({
            let text = Json::Str(content@);
            (MakepadOutboundMessage::Response { content, stream_final }).wire() == if stream_final
                is Some {
                of_three(
                    "response"@,
                    "content"@,
                    text,
                    "stream_final"@,
                    Json::Bool(stream_final->Some_0),
                )
            } else {
                of_two("response"@, "content"@, text)
            }
        }),
{
    shapes(
        "response"@,
        "content"@,
        Json::Str(content@),
        "stream_final"@,
        opt_bool(stream_final),
    );
}

/// A piece of streamed text holds the whole piece, and its number where there is
/// one.
pub proof fn deltas_hold_their_text(delta: String, sequence: Option<u64>)
    ensures
        ({
            let text = Json::Str(delta@);
            (MakepadOutboundMessage::StreamDelta { delta, sequence }).wire() == if sequence
                is Some {
                of_three(
                    "stream_delta"@,
                    "delta"@,
                    text,
                    "sequence"@,
                    Json::Number(JsonNumber::PosInt(sequence->Some_0)),
                )
            } else {
                of_two("stream_delta"@, "delta"@, text)
            }
        }),
{
    shapes("stream_delta"@, "delta"@, Json::Str(delta@), "sequence"@, opt_count(sequence));
}

/// The end of a stream holds its reason, a snapshot its tree, a pong its time
/// stamp and an error its message.
pub proof fn other_messages_hold_what_they_say(
    stop_reason: Option<String>,
    tree: serde_json::Value,
    ts: Option<serde_json::Number>,
    message: String,
)
    ensures
        (MakepadOutboundMessage::StreamComplete { stop_reason }).wire() == if stop_reason
            is Some {
            of_two("stream_complete"@, "stop_reason"@, Json::Str(stop_reason->Some_0@))
        } else {
            of_one("stream_complete"@)
        },
        (MakepadOutboundMessage::WidgetSnapshotReply { tree }).wire() == of_two(
            "widget_snapshot_reply"@,
            "tree"@,
            json_of(tree),
        ),
        (MakepadOutboundMessage::Pong { ts }).wire() == if ts is Some {
            of_two("pong"@, "ts"@, Json::Number(number_of(ts->Some_0)))
        } else {
            of_one("pong"@)
        },
        (MakepadOutboundMessage::Error { message }).wire() == of_two(
            "error"@,
            "message"@,
            Json::Str(message@),
        ),
{
    shapes("stream_complete"@, "stop_reason"@, Json::Null, "stop_reason"@, opt_str(stop_reason));
    shapes("widget_snapshot_reply"@, "tree"@, json_of(tree), "tree"@, None);
    shapes("pong"@, "ts"@, Json::Null, "ts"@, opt_number(ts));
    shapes("error"@, "message"@, Json::Str(message@), "message"@, None);
}

/// A whole response of the agent is marked as final; what the host is answered
/// holds its time stamp or the reason.
pub proof fn answers_hold_what_they_say(
    content: Seq<char>,
    reason: Seq<char>,
    ts: Option<serde_json::Number>,
)
    ensures
        final_response(content) == of_three(
            "response"@,
            "content"@,
            Json::Str(content),
            "stream_final"@,
            Json::Bool(true),
        ),
        error_wire(reason) == of_two(
            "error"@,
            "message"@,
            Json::Str("invalid message format: "@ + reason),
        ),
        pong_wire(ts) == if ts is Some {
            of_two("pong"@, "ts"@, Json::Number(number_of(ts->Some_0)))
        } else {
            of_one("pong"@)
        },
{
    shapes(
        "response"@,
        "content"@,
        Json::Str(content),
        "stream_final"@,
        Some(Json::Bool(true)),
    );
    let text = Json::Str("invalid message format: "@ + reason);
    shapes("error"@, "message"@, text, "message"@, None);
    shapes("pong"@, "ts"@, Json::Null, "ts"@, opt_number(ts));
}

/// The forms that messages are put together in.
proof fn shapes(
    kind: Seq<char>,
    key: Seq<char>,
    value: Json,
    key2: Seq<char>,
    value2: Option<Json>,
)
    ensures
        Json::Object(tag(kind) + seq![(key, value)]) == of_two(kind, key, value),
        value2 matches Some(v) ==> Json::Object(
            tag(kind) + seq![(key, value)] + optional(key2, value2),
        ) == of_three(kind, key, value, key2, v),
        value2 is None ==> Json::Object(tag(kind) + seq![(key, value)] + optional(key2, value2))
            == of_two(kind, key, value),
        value2 matches Some(v) ==> Json::Object(tag(kind) + optional(key2, value2)) == of_two(
            kind,
            key2,
            v,
        ),
        value2 is None ==> Json::Object(tag(kind) + optional(key2, value2)) == of_one(kind),
{
    let two = seq![("type"@, Json::Str(kind)), (key, value)];
    assert(tag(kind) + seq![(key, value)] =~= two);
    assert(tag(kind) + seq![(key, value)] + optional(key2, None) =~= two);
    assert(tag(kind) + optional(key2, None) =~= seq![("type"@, Json::Str(kind))]);
    if value2 is Some {
        let v = value2->Some_0;
        assert(tag(kind) + seq![(key, value)] + optional(key2, value2) =~= seq![
            ("type"@, Json::Str(kind)),
            (key, value),
            (key2, v),
        ]);
        assert(tag(kind) + optional(key2, value2) =~= seq![
            ("type"@, Json::Str(kind)),
            (key2, v),
        ]);
    }
}

} // verus!
