//! What the parts of the library promise one another.
use vstd::prelude::*;

use crate::chat::{
    has_tool_result, streamed, ChatResponseView, Message, MessageRole, StopReason, StreamEventView,
};
use crate::fake::{counter_arguments, fake_answer, SPLASH_COUNTER_APP};
use crate::json::{distinct_keys, entry_absent, entry_found, member, text_member, Json};
use crate::launch_app::{input_of, launch_wire};
use crate::makepad_channel::final_response;
use crate::makepad_host::app::{
    drawn, screen_agrees, screen_follows_state, synced, AppView, Screen,
};
use crate::makepad_host::agent_splash::{deltas_add_up, stream_text};
use crate::makepad_host::{
    host_after, host_notice, kinds_differ, launched, streamed_to, HostNoticeView, HostView,
    StreamPieceView,
};
use crate::protocol::MakepadOutboundMessage;

pub mod channel;
pub mod configuration;
pub mod console;
pub mod host;
pub mod incoming;
pub mod launching;
pub mod providers;
pub mod splash;
pub mod texts;
pub mod transport;
pub mod values;
pub mod window;
pub mod wires;

verus! {

/// The member at a position of an object without repeated keys.
proof fn member_at(entries: Seq<(Seq<char>, Json)>, i: int)
    requires
        distinct_keys(entries),
        0 <= i < entries.len(),
    ensures
        member(Json::Object(entries), entries[i].0) == Some(entries[i].1),
{
    entry_found(entries, i);
}

/// A launch message takes effect in the host: the host then has the body that
/// was sent, the identifier that was sent or "app", and no error, and its user
/// interface is told.
pub proof fn launch_reaches_the_host(state: HostView, splash_body: String, app_id: Option<String>)
    ensures
        ({
            let wire = MakepadOutboundMessage::Launch { splash_body, app_id }.wire();
            let id = match app_id {
                Some(id) => id@,
                None => "app"@,
            };
            &&& host_after(state, wire) == launched(state, splash_body@, id)
            &&& host_notice(wire) == HostNoticeView::Signal
        }),
{
    let entries = MakepadOutboundMessage::Launch { splash_body, app_id }.members();
    reveal_strlit("type");
    reveal_strlit("splash_body");
    reveal_strlit("app_id");
    assert("type"@.len() == 4 && "splash_body"@.len() == 11 && "app_id"@.len() == 6);
    assert(distinct_keys(entries));
    member_at(entries, 0);
    member_at(entries, 1);
    match app_id {
        Some(_) => {
            member_at(entries, 2);
        },
        None => {
            entry_absent(entries, "app_id"@);
        },
    }
}

/// The message that the launch tool sends takes effect in the host in the same
/// way.
pub proof fn tool_launch_reaches_the_host(state: HostView, body: Seq<char>, id: Seq<char>)
    ensures
        host_after(state, launch_wire(body, id)) == launched(state, body, id),
        host_notice(launch_wire(body, id)) == HostNoticeView::Signal,
{
    let entries = launch_wire(body, id)->Object_0;
    reveal_strlit("type");
    reveal_strlit("splash_body");
    reveal_strlit("app_id");
    assert("type"@.len() == 4 && "splash_body"@.len() == 11 && "app_id"@.len() == 6);
    assert(distinct_keys(entries));
    member_at(entries, 0);
    member_at(entries, 1);
    member_at(entries, 2);
}

/// Streamed text reaches the host in the order in which it is sent; nothing
/// else of the host changes.
pub proof fn delta_reaches_the_host(state: HostView, delta: String, sequence: Option<u64>)
    ensures
        ({
            let wire = MakepadOutboundMessage::StreamDelta { delta, sequence }.wire();
            &&& host_after(state, wire) == streamed_to(state, StreamPieceView::Delta(delta@))
            &&& host_notice(wire) == HostNoticeView::Signal
        }),
{
    let entries = MakepadOutboundMessage::StreamDelta { delta, sequence }.members();
    reveal_strlit("type");
    reveal_strlit("delta");
    reveal_strlit("sequence");
    reveal_strlit("stream_delta");
    reveal_strlit("launch");
    reveal_strlit("clear");
    reveal_strlit("exit");
    assert("type"@.len() == 4 && "delta"@.len() == 5 && "sequence"@.len() == 8);
    assert("stream_delta"@.len() == 12 && "launch"@.len() == 6 && "clear"@.len() == 5
        && "exit"@.len() == 4);
    assert(distinct_keys(entries));
    member_at(entries, 0);
    member_at(entries, 1);
}

/// A response of the agent reaches the host, to be shown in the `__ai_text`
/// widget; nothing else of the host changes.
pub proof fn response_reaches_the_host(
    state: HostView,
    content: String,
    stream_final: Option<bool>,
)
    ensures
        ({
            let wire = MakepadOutboundMessage::Response { content, stream_final }.wire();
            &&& host_after(state, wire) == streamed_to(state, StreamPieceView::Response(content@))
            &&& host_notice(wire) == HostNoticeView::Signal
        }),
{
    let entries = MakepadOutboundMessage::Response { content, stream_final }.members();
    reveal_strlit("type");
    reveal_strlit("content");
    reveal_strlit("stream_final");
    assert("type"@.len() == 4 && "content"@.len() == 7 && "stream_final"@.len() == 12);
    kinds_differ();
    assert(distinct_keys(entries));
    member_at(entries, 0);
    member_at(entries, 1);
}

/// A response that the channel sends reaches the host in the same way.
pub proof fn sent_response_reaches_the_host(state: HostView, content: Seq<char>)
    ensures
        host_after(state, final_response(content)) == streamed_to(
            state,
            StreamPieceView::Response(content),
        ),
        host_notice(final_response(content)) == HostNoticeView::Signal,
{
    let entries = final_response(content)->Object_0;
    reveal_strlit("type");
    reveal_strlit("content");
    reveal_strlit("stream_final");
    assert("type"@.len() == 4 && "content"@.len() == 7 && "stream_final"@.len() == 12);
    kinds_differ();
    assert(distinct_keys(entries));
    member_at(entries, 0);
    member_at(entries, 1);
}

/// The end of a stream reaches the host.
pub proof fn completion_reaches_the_host(state: HostView, stop_reason: Option<String>)
    ensures
        ({
            let wire = MakepadOutboundMessage::StreamComplete { stop_reason }.wire();
            &&& host_after(state, wire) == streamed_to(state, StreamPieceView::Complete)
            &&& host_notice(wire) == HostNoticeView::Signal
        }),
{
    let entries = MakepadOutboundMessage::StreamComplete { stop_reason }.members();
    reveal_strlit("type");
    reveal_strlit("stop_reason");
    assert("type"@.len() == 4 && "stop_reason"@.len() == 11);
    kinds_differ();
    assert(distinct_keys(entries));
    member_at(entries, 0);
}

/// Text that is streamed in two messages is shown whole, as one text.
pub proof fn streamed_text_is_shown_whole(
    state: HostView,
    text: Seq<char>,
    first: String,
    second: String,
    numbers: (Option<u64>, Option<u64>),
)
    ensures
        ({
            let one = MakepadOutboundMessage::StreamDelta {
                delta: first,
                sequence: numbers.0,
            }.wire();
            let two = MakepadOutboundMessage::StreamDelta {
                delta: second,
                sequence: numbers.1,
            }.wire();
            let after = host_after(host_after(state, one), two);
            stream_text(text, after.stream) == stream_text(text, state.stream) + first@ + second@
        }),
{
    delta_reaches_the_host(state, first, numbers.0);
    let once = streamed_to(state, StreamPieceView::Delta(first@));
    delta_reaches_the_host(once, second, numbers.1);
    deltas_add_up(text, state.stream, first@);
    deltas_add_up(text, once.stream, second@);
}

/// The call that the fake provider asks for is one that the launch tool takes:
/// the counter app under the name that the provider gives it.
pub proof fn fake_call_is_valid(messages: Seq<Message>)
    requires
        !has_tool_result(messages),
    ensures
        fake_answer(messages).tool_calls.len() == 1,
        fake_answer(messages).tool_calls[0].name == "launch_app"@,
        input_of(fake_answer(messages).tool_calls[0].arguments) == Some(
            (SPLASH_COUNTER_APP@, "counter-1"@),
        ),
{
    let entries = counter_arguments()->Object_0;
    reveal_strlit("splash_body");
    reveal_strlit("app_id");
    assert("splash_body"@.len() != "app_id"@.len());
    assert(distinct_keys(entries));
    entry_found(entries, 0);
    entry_found(entries, 1);
}

/// Once a tool has run, the fake provider asks for none, however the
/// conversation goes on.
pub proof fn fake_calls_no_tool_again(messages: Seq<Message>, more: Seq<Message>)
    requires
        has_tool_result(messages),
    ensures
        fake_answer(messages + more).stop_reason == StopReason::EndTurn,
        fake_answer(messages + more).tool_calls.len() == 0,
{
    let i = choose|i: int|
        0 <= i < messages.len() && (#[trigger] messages[i]).role == MessageRole::Tool;
    assert((messages + more)[i] == messages[i]);
}

/// A streamed answer ends with its usage and its stop reason, and these are
/// told once.
pub proof fn streams_end_with_the_stop_reason(response: ChatResponseView)
    ensures
        ({
            let steps = streamed(response);
            let n = steps.len() as int;
            &&& n >= 2
            &&& steps[n - 2] == StreamEventView::Usage(response.usage)
            &&& steps[n - 1] == StreamEventView::Done(response.stop_reason)
            &&& forall|i: int|
                0 <= i < n - 2 ==> !((#[trigger] steps[i]) is Usage) && !(steps[i] is Done)
        }),
{
}

/// A launch is seen: once the host has taken in the message and its window has
/// looked at the state and drawn, the window shows the body that was sent, and
/// no error.
pub proof fn a_launch_is_shown(
    screen: Screen,
    app: AppView,
    state: HostView,
    body: Seq<char>,
    id: Seq<char>,
)
    requires
        screen_agrees(drawn(screen, app), app),
    ensures
        ({
            let after = synced(app, host_after(state, launch_wire(body, id)));
            let screen2 = drawn(screen, after);
            &&& screen2.splash == body
            &&& screen2.source == body
            &&& screen2.error_line.len() == 0
            &&& body.len() > 0 || id.len() > 0 ==> screen2.status_line == "App: "@ + id
        }),
{
    tool_launch_reaches_the_host(state, body, id);
    screen_follows_state(screen, app, host_after(state, launch_wire(body, id)));
}

/// The counter app of the fake provider comes to the screen through the launch
/// tool and the host.
pub proof fn the_counter_app_is_shown(
    messages: Seq<Message>,
    screen: Screen,
    app: AppView,
    state: HostView,
)
    requires
        !has_tool_result(messages),
        screen_agrees(drawn(screen, app), app),
    ensures
        ({
            let input = input_of(fake_answer(messages).tool_calls[0].arguments);
            &&& input is Some
            &&& ({
                let wire = launch_wire(input->Some_0.0, input->Some_0.1);
                drawn(screen, synced(app, host_after(state, wire))).splash == SPLASH_COUNTER_APP@
            })
        }),
{
    fake_call_is_valid(messages);
    a_launch_is_shown(screen, app, state, SPLASH_COUNTER_APP@, "counter-1"@);
}

/// A message that clears the display takes the app off the screen.
pub proof fn clearing_empties_the_screen(
    screen: Screen,
    app: AppView,
    state: HostView,
    message: Json,
)
    requires
        text_member(message, "type"@) == Some("clear"@),
        screen_agrees(drawn(screen, app), app),
    ensures
        drawn(screen, synced(app, host_after(state, message))).splash.len() == 0,
        host_notice(message) == HostNoticeView::Signal,
{
    reveal_strlit("clear");
    reveal_strlit("launch");
    assert("clear"@.len() != "launch"@.len());
    screen_follows_state(screen, app, host_after(state, message));
}

} // verus!
