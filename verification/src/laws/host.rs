//! What the messages of the runtime do to the host.
use vstd::prelude::*;

use crate::json::{text_member, Json};
use crate::makepad_host::{
    host_after, host_notice, kinds_differ, pieces_view, HostNoticeView, HostState, HostView,
    StreamPiece, StreamPieceView,
};
use crate::text::opt_view;

verus! {

/// Beside what is shown as an app, nothing differs.
pub open spec fn same_but_app(a: HostView, b: HostView) -> bool {
    &&& a.should_exit == b.should_exit
    &&& a.stream == b.stream
    &&& a.pi_data == b.pi_data
}

/// Beside the stream, nothing differs.
pub open spec fn same_but_stream(a: HostView, b: HostView) -> bool {
    &&& a.splash_body == b.splash_body
    &&& a.app_id == b.app_id
    &&& a.error_msg == b.error_msg
    &&& a.should_exit == b.should_exit
    &&& a.pi_data == b.pi_data
}

/// A launch shows the whole body under its identifier, and the old error goes;
/// what is missing is taken for no body and for the identifier `app`.
pub proof fn launches_are_shown_whole(state: HostView, message: Json)
    requires
        text_member(message, "type"@) == Some("launch"@),
    ensures
        ({
            let after = host_after(state, message);
            let body = text_member(message, "splash_body"@);
            let id = text_member(message, "app_id"@);
            &&& body is Some ==> after.splash_body == body
            &&& body is None ==> (after.splash_body matches Some(shown) && shown.len() == 0)
            &&& id is Some ==> after.app_id == id
            &&& id is None ==> after.app_id == Some("app"@)
            &&& after.error_msg is None
            &&& same_but_app(after, state)
        }),
        host_notice(message) == HostNoticeView::Signal,
{
}

/// A clearing takes the app away and leaves everything else, the error too.
pub proof fn clearings_take_the_app_away(state: HostView, message: Json)
    requires
        text_member(message, "type"@) == Some("clear"@),
    ensures
        ({
            let after = host_after(state, message);
            &&& after.splash_body is None
            &&& after.app_id is None
            &&& after.error_msg == state.error_msg
            &&& same_but_app(after, state)
        }),
        host_notice(message) == HostNoticeView::Signal,
{
    reveal_strlit("launch");
    reveal_strlit("clear");
    assert("launch"@.len() != "clear"@.len());
}

/// An exit asks the host to end, and changes nothing else.
pub proof fn exits_end_the_host(state: HostView, message: Json)
    requires
        text_member(message, "type"@) == Some("exit"@),
    ensures
        ({
            let after = host_after(state, message);
            &&& after.should_exit
            &&& after.splash_body == state.splash_body
            &&& after.app_id == state.app_id
            &&& after.error_msg == state.error_msg
            &&& after.stream == state.stream
            &&& after.pi_data == state.pi_data
        }),
        host_notice(message) == HostNoticeView::Signal,
{
    reveal_strlit("launch");
    reveal_strlit("clear");
    reveal_strlit("exit");
    assert("launch"@.len() == 6 && "clear"@.len() == 5 && "exit"@.len() == 4);
}

/// A piece of streamed text is put behind the others, whole; without a text
/// nothing happens.
pub proof fn deltas_are_queued_whole(state: HostView, message: Json)
    requires
        text_member(message, "type"@) == Some("stream_delta"@),
    ensures
        text_member(message, "delta"@) matches Some(delta) ==> host_after(state, message).stream
            == state.stream.push(StreamPieceView::Delta(delta)) && same_but_stream(
            host_after(state, message),
            state,
        ) && host_notice(message) == HostNoticeView::Signal,
        text_member(message, "delta"@) is None ==> host_after(state, message) == state
            && host_notice(message) == HostNoticeView::Quiet,
{
    kinds_differ();
}

/// A response is put behind what has come, whole; without a content nothing
/// happens.
pub proof fn responses_are_queued_whole(state: HostView, message: Json)
    requires
        text_member(message, "type"@) == Some("response"@),
    ensures
        text_member(message, "content"@) matches Some(content) ==> host_after(state, message).stream
            == state.stream.push(StreamPieceView::Response(content)) && same_but_stream(
            host_after(state, message),
            state,
        ) && host_notice(message) == HostNoticeView::Signal,
        text_member(message, "content"@) is None ==> host_after(state, message) == state
            && host_notice(message) == HostNoticeView::Quiet,
{
    kinds_differ();
}

/// The end of a stream is put behind what has come.
pub proof fn ends_are_queued(state: HostView, message: Json)
    requires
        text_member(message, "type"@) == Some("stream_complete"@),
    ensures
        host_after(state, message).stream == state.stream.push(StreamPieceView::Complete),
        same_but_stream(host_after(state, message), state),
        host_notice(message) == HostNoticeView::Signal,
{
    kinds_differ();
}

/// Data for the app takes the place of data that waits, whole; without data
/// nothing changes.
pub proof fn data_waits_for_the_app(state: HostView, message: Json)
    requires
        text_member(message, "type"@) == Some("send_pi_response"@),
    ensures
        ({
            let after = host_after(state, message);
            let data = text_member(message, "data"@);
            &&& data is Some ==> after.pi_data == data
            &&& data is None ==> after.pi_data == state.pi_data
            &&& after.splash_body == state.splash_body
            &&& after.app_id == state.app_id
            &&& after.error_msg == state.error_msg
            &&& after.should_exit == state.should_exit
            &&& after.stream == state.stream
        }),
        host_notice(message) == HostNoticeView::Signal,
{
    kinds_differ();
}

/// A message of another kind, or of none, changes nothing and is called unknown.
pub proof fn unknown_messages_change_nothing(state: HostView, message: Json)
    requires
        ({
            let kind = text_member(message, "type"@);
            &&& kind != Some("launch"@)
            &&& kind != Some("clear"@)
            &&& kind != Some("exit"@)
            &&& kind != Some("stream_delta"@)
            &&& kind != Some("stream_complete"@)
            &&& kind != Some("response"@)
            &&& kind != Some("send_pi_response"@)
        }),
    ensures
        host_after(state, message) == state,
        host_notice(message) == HostNoticeView::Unknown(text_member(message, "type"@)),
{
}

/// The state of the host is seen as it is, field by field, and the stream piece
/// by piece.
pub proof fn hosts_are_seen_whole(state: HostState, pieces: Seq<StreamPiece>, i: int)
    ensures
        state@.splash_body == opt_view(state.splash_body),
        state@.app_id == opt_view(state.app_id),
        state@.error_msg == opt_view(state.error_msg),
        state@.should_exit == state.should_exit,
        state@.stream == pieces_view(state.stream@),
        state@.pi_data == opt_view(state.pi_data),
        pieces_view(pieces).len() == pieces.len(),
        0 <= i < pieces.len() ==> pieces_view(pieces)[i] == match pieces[i] {
            StreamPiece::Delta(text) => StreamPieceView::Delta(text@),
            StreamPiece::Complete => StreamPieceView::Complete,
            StreamPiece::Response(text) => StreamPieceView::Response(text@),
        },
{
}

} // verus!
