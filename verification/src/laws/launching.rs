//! How a call of the launch tool goes.
use vstd::prelude::*;

use super::texts::containing_is_splitting;
use super::values::members_are_entries;
use crate::json::{json_text, Json};
use crate::launch_app::{
    action_of, after_vain_probes, exchange_action, harness_path, input_of, input_shape, is_final,
    launch_wire, next_exchange_phase, next_phase, next_responses, sweep,
    waiting_ends_after_fifteen_seconds, ExchangeAction, ExchangeEvent, ExchangePhase,
    ExecuteActionView, ExecuteEvent, PhaseView, ProcessActionView, ToolResult, ToolResultView,
};
use crate::text::{joined, opt_view, views};

verus! {

/// A result with an outcome and a text, and nothing else.
pub open spec fn tells(result: ToolResultView, output: Seq<char>, success: bool) -> bool {
    &&& result.output == output
    &&& result.success == success
    &&& result.file_modified is None
    &&& result.files_to_send.len() == 0
    &&& result.tokens_used is None
    &&& result.structured_metadata is None
    &&& result.named_outputs is None
}

/// How far a call has come after events.
pub open spec fn call_after(events: Seq<ExecuteEvent>) -> PhaseView
    decreases events.len(),
{
    if events.len() == 0 {
        PhaseView::Probing
    } else {
        next_phase(call_after(events.drop_last()), events.last())
    }
}

/// A harness that runs is used, whether it has run before or answers after any
/// number of vain probes: the app is sent to it.
pub proof fn a_harness_that_answers_gets_the_app(n: nat, waited: u32)
    ensures
        next_phase(PhaseView::Probing, ExecuteEvent::Probed(true)) == PhaseView::Sending,
        next_phase(PhaseView::Waiting(waited), ExecuteEvent::Probed(true)) == PhaseView::Sending,
        n < 30 ==> next_phase(after_vain_probes(n), ExecuteEvent::Probed(true))
            == PhaseView::Sending,
{
    waiting_ends_after_fifteen_seconds(n);
}

/// A harness that does not run is started, once, and then probed up to thirty
/// times; only the thirtieth vain probe ends the call.
pub proof fn a_harness_that_is_away_is_started_and_awaited(n: u32)
    ensures
        next_phase(PhaseView::Probing, ExecuteEvent::Probed(false)) == PhaseView::Launching,
        next_phase(PhaseView::Launching, ExecuteEvent::Launched) == PhaseView::Waiting(0),
        n < 29 ==> next_phase(PhaseView::Waiting(n), ExecuteEvent::Probed(false))
            == PhaseView::Waiting((n + 1) as u32),
        n >= 29 ==> (next_phase(PhaseView::Waiting(n), ExecuteEvent::Probed(false)) matches
            PhaseView::Done(result) && tells(
            result,
            "Harness did not become ready within 15 seconds"@,
            false,
        )),
{
}

/// Every way to success: the first probe finds the harness, or it is started and
/// some probe of the thirty finds it. What then comes back is told.
pub proof fn calls_succeed_when_the_harness_answers(
    before: Seq<ExecuteEvent>,
    vain: Seq<ExecuteEvent>,
    responses: Vec<String>,
)
    requires
        before.len() == 0 || before =~= seq![ExecuteEvent::Probed(false), ExecuteEvent::Launched],
        before.len() == 0 ==> vain.len() == 0,
        vain.len() < 30,
        forall|i: int| 0 <= i < vain.len() ==> #[trigger] vain[i] == ExecuteEvent::Probed(false),
    ensures
        ({
            let found = (before + vain).push(ExecuteEvent::Probed(true));
            &&& call_after(found) == PhaseView::Sending
            &&& call_after(found.push(ExecuteEvent::Sent(responses))) matches PhaseView::Done(
                result,
            ) && tells(
                result,
                if responses@.len() == 0 {
                    "App launched successfully"@
                } else {
                    "App launched. "@ + joined(views(responses@), "; "@)
                },
                true,
            )
        }),
{
    let found = (before + vain).push(ExecuteEvent::Probed(true));
    assert(found.drop_last() =~= before + vain);
    if before.len() == 0 {
        assert(before + vain =~= Seq::<ExecuteEvent>::empty());
        assert(call_after(found.drop_last()) == PhaseView::Probing);
    } else {
        still_waiting(before, vain);
        assert(call_after(found.drop_last()) == PhaseView::Waiting(vain.len() as u32));
    }
    assert(found.last() == ExecuteEvent::Probed(true));
    assert(call_after(found) == next_phase(call_after(found.drop_last()), found.last()));
    let sent = found.push(ExecuteEvent::Sent(responses));
    assert(sent.drop_last() =~= found);
    assert(sent.last() == ExecuteEvent::Sent(responses));
    assert(call_after(sent) == next_phase(PhaseView::Sending, sent.last()));
    answers_are_told(responses);
}

proof fn still_waiting(before: Seq<ExecuteEvent>, vain: Seq<ExecuteEvent>)
    requires
        before =~= seq![ExecuteEvent::Probed(false), ExecuteEvent::Launched],
        vain.len() < 30,
        forall|i: int| 0 <= i < vain.len() ==> #[trigger] vain[i] == ExecuteEvent::Probed(false),
    ensures
        call_after(before + vain) == PhaseView::Waiting(vain.len() as u32),
    decreases vain.len(),
{
    let all = before + vain;
    if vain.len() == 0 {
        assert(all.drop_last() =~= seq![ExecuteEvent::Probed(false)]);
        assert(all.drop_last().drop_last() =~= Seq::<ExecuteEvent>::empty());
        assert(call_after(all.drop_last().drop_last()) == PhaseView::Probing);
        assert(call_after(all.drop_last()) == PhaseView::Launching);
    } else {
        assert(all.drop_last() =~= before + vain.drop_last());
        still_waiting(before, vain.drop_last());
        assert(all.last() == vain[vain.len() - 1]);
    }
}

/// A call fails with the reason, and says which step it was that failed.
pub proof fn failures_tell_the_reason(reason: String)
    ensures
        next_phase(PhaseView::Launching, ExecuteEvent::LaunchFailed(reason)) matches
            PhaseView::Done(result) && tells(result, "Failed to start harness: "@ + reason@, false),
        next_phase(PhaseView::Sending, ExecuteEvent::SendFailed(reason)) matches PhaseView::Done(
            result,
        ) && tells(result, "Failed to launch app: "@ + reason@, false),
{
}

/// What came back is told in its order, all of it.
pub proof fn answers_are_told(responses: Vec<String>)
    ensures
        next_phase(PhaseView::Sending, ExecuteEvent::Sent(responses)) matches PhaseView::Done(
            result,
        ) && tells(
            result,
            if responses@.len() == 0 {
                "App launched successfully"@
            } else {
                "App launched. "@ + joined(views(responses@), "; "@)
            },
            true,
        ),
{
}

/// An event that a phase does not wait for leaves it as it is.
pub proof fn other_events_change_nothing(phase: PhaseView, event: ExecuteEvent)
    ensures
        match phase {
            PhaseView::Probing => event is Probed,
            PhaseView::Launching => event is Launched || event is LaunchFailed,
            PhaseView::Waiting(_) => event is Probed,
            PhaseView::Sending => event is Sent || event is SendFailed,
            PhaseView::Done(_) => false,
        } || next_phase(phase, event) == phase,
{
}

/// Each phase has its action: probing, starting, probing after half a second,
/// sending the whole app to the harness, and giving the result back.
pub proof fn phases_have_their_actions(
    n: u32,
    result: ToolResultView,
    body: Seq<char>,
    id: Seq<char>,
)
    ensures
        action_of(PhaseView::Probing, body, id) == ExecuteActionView::Probe,
        action_of(PhaseView::Launching, body, id) == ExecuteActionView::LaunchHarness,
        action_of(PhaseView::Waiting(n), body, id) == (ExecuteActionView::PauseThenProbe {
            milliseconds: 500,
        }),
        action_of(PhaseView::Sending, body, id) == (ExecuteActionView::Send {
            url: "ws://127.0.0.1:2341"@,
            message: json_text(
                Json::Object(
                    seq![
                        ("type"@, Json::Str("launch"@)),
                        ("app_id"@, Json::Str(id)),
                        ("splash_body"@, Json::Str(body)),
                    ],
                ),
            ),
        }),
        action_of(PhaseView::Done(result), body, id) == ExecuteActionView::Finish(result),
{
    launch_messages_hold_the_app(body, id);
}

/// The message that launches an app holds its kind, its identifier and its whole
/// body.
pub proof fn launch_messages_hold_the_app(body: Seq<char>, id: Seq<char>)
    ensures
        launch_wire(body, id) == Json::Object(
            seq![
                ("type"@, Json::Str("launch"@)),
                ("app_id"@, Json::Str(id)),
                ("splash_body"@, Json::Str(body)),
            ],
        ),
{
    assert(launch_wire(body, id)->Object_0 =~= seq![
        ("type"@, Json::Str("launch"@)),
        ("app_id"@, Json::Str(id)),
        ("splash_body"@, Json::Str(body)),
    ]);
}

/// The first entry with a key.
pub open spec fn holds_first(
    entries: Seq<(Seq<char>, Json)>,
    i: int,
    key: Seq<char>,
    value: Json,
) -> bool {
    &&& 0 <= i < entries.len()
    &&& entries[i] == (key, value)
    &&& forall|j: int| 0 <= j < i ==> (#[trigger] entries[j]).0 != key
}

/// No entry has a key.
pub open spec fn lacks(entries: Seq<(Seq<char>, Json)>, key: Seq<char>) -> bool {
    forall|j: int| 0 <= j < entries.len() ==> (#[trigger] entries[j]).0 != key
}

/// An object gives the whole body that it holds, and the identifier that it
/// holds or `splash-app`, wherever they stand in it and whatever stands beside
/// them.
pub proof fn named_inputs_are_taken_whole(
    entries: Seq<(Seq<char>, Json)>,
    i: int,
    j: int,
    body: Seq<char>,
    id: Seq<char>,
)
    requires
        holds_first(entries, i, "splash_body"@, Json::Str(body)),
    ensures
        holds_first(entries, j, "app_id"@, Json::Str(id)) ==> input_of(Json::Object(entries))
            == Some((body, id)),
        lacks(entries, "app_id"@) ==> input_of(Json::Object(entries)) == Some((body, "splash-app"@)),
{
    members_are_entries(entries, i, "splash_body"@, Json::Null);
    members_are_entries(entries, j, "app_id"@, Json::Null);
}

/// An input without a body, or with a body or an identifier that is no text, is
/// refused.
pub proof fn other_named_inputs_are_refused(
    entries: Seq<(Seq<char>, Json)>,
    i: int,
    value: Json,
)
    requires
        !(value is Str),
    ensures
        lacks(entries, "splash_body"@) ==> input_of(Json::Object(entries)) is None,
        holds_first(entries, i, "splash_body"@, value) ==> input_of(Json::Object(entries)) is None,
        holds_first(entries, i, "app_id"@, value) ==> input_of(Json::Object(entries)) is None,
{
    members_are_entries(entries, i, "splash_body"@, Json::Null);
    members_are_entries(entries, i, "app_id"@, Json::Null);
}

/// An array gives its one text as the body, or its two texts as body and
/// identifier; any other array, and any other value, is refused.
pub proof fn listed_inputs_are_taken_in_order(
    body: Seq<char>,
    id: Seq<char>,
    items: Seq<Json>,
    json: Json,
)
    ensures
        input_of(Json::Array(seq![Json::Str(body)])) == Some((body, "splash-app"@)),
        input_of(Json::Array(seq![Json::Str(body), Json::Str(id)])) == Some((body, id)),
        items.len() == 0 || items.len() > 2 ==> input_of(Json::Array(items)) is None,
        (exists|i: int| 0 <= i < items.len() && !(#[trigger] items[i] is Str)) ==> input_of(
            Json::Array(items),
        ) is None,
        !(json is Object) && !(json is Array) ==> input_of(json) is None,
{
}

/// The tool asks for an object with the text `splash_body`, and takes the text
/// `app_id`.
pub proof fn the_tool_says_what_it_takes()
    ensures
        input_shape() matches Json::Object(shape) && {
            &&& shape.len() == 3
            &&& shape[0] == ("type"@, Json::Str("object"@))
            &&& shape[1].0 == "properties"@
            &&& shape[1].1 matches Json::Object(properties) && {
                &&& properties.len() == 2
                &&& properties[0].0 == "splash_body"@
                &&& properties[0].1 == Json::Object(
                    seq![
                        ("type"@, Json::Str("string"@)),
                        (
                            "description"@,
                            Json::Str("The Splash DSL body (Makepad widget syntax)."@),
                        ),
                    ],
                )
                &&& properties[1].0 == "app_id"@
                &&& properties[1].1 == Json::Object(
                    seq![
                        ("type"@, Json::Str("string"@)),
                        (
                            "description"@,
                            Json::Str("Optional app identifier (default: splash-app)"@),
                        ),
                    ],
                )
            }
            &&& shape[2] == ("required"@, Json::Array(seq![Json::Str("splash_body"@)]))
        },
{
}

/// What is left over of an earlier run is killed by these two names, and a
/// harness is started where it was configured to be.
pub proof fn harnesses_are_swept_and_found(path: String)
    ensures
        sweep() == seq![
            ProcessActionView::KillMatching("harness"@),
            ProcessActionView::KillMatching("makepad-host"@),
        ],
        harness_path(Some(path)) == path@,
        harness_path(None) == "/Users/Gregory/Projects/a2app_harness/target/debug/harness"@,
{
}

/// A text completes the answer if and only if the word `"status"` or the word
/// `"user_response"` stands somewhere in it, quotes included.
pub proof fn final_texts_speak_of_a_status(text: Seq<char>)
    ensures
        is_final(text) <==> {
            ||| exists|before: Seq<char>, after: Seq<char>|
                #![trigger before + "\"status\""@ + after]
                text == before + "\"status\""@ + after
            ||| exists|before: Seq<char>, after: Seq<char>|
                #![trigger before + "\"user_response\""@ + after]
                text == before + "\"user_response\""@ + after
        },
{
    containing_is_splitting(text, "\"status\""@);
    containing_is_splitting(text, "\"user_response\""@);
}

/// The conversation pauses, listens to the greeting until it falls silent, sends
/// the app, pauses, and listens until the answer is complete or falls silent.
pub proof fn conversations_go_in_order(text: String)
    ensures
        exchange_action(ExchangePhase::Connected) == (ExchangeAction::Pause { milliseconds: 200 }),
        next_exchange_phase(ExchangePhase::Connected, ExchangeEvent::Paused)
            == ExchangePhase::Greeting,
        exchange_action(ExchangePhase::Greeting) == (ExchangeAction::Listen { milliseconds: 200 }),
        next_exchange_phase(ExchangePhase::Greeting, ExchangeEvent::Text(text))
            == ExchangePhase::Greeting,
        next_exchange_phase(ExchangePhase::Greeting, ExchangeEvent::Silence)
            == ExchangePhase::Sending,
        next_exchange_phase(ExchangePhase::Greeting, ExchangeEvent::Other)
            == ExchangePhase::Sending,
        exchange_action(ExchangePhase::Sending) == ExchangeAction::Send,
        next_exchange_phase(ExchangePhase::Sending, ExchangeEvent::Delivered)
            == ExchangePhase::Sent,
        exchange_action(ExchangePhase::Sent) == (ExchangeAction::Pause { milliseconds: 500 }),
        next_exchange_phase(ExchangePhase::Sent, ExchangeEvent::Paused)
            == ExchangePhase::Answering,
        exchange_action(ExchangePhase::Answering) == (ExchangeAction::Listen {
            milliseconds: 1000,
        }),
        next_exchange_phase(ExchangePhase::Answering, ExchangeEvent::Text(text)) == if is_final(
            text@,
        ) {
            ExchangePhase::Over
        } else {
            ExchangePhase::Answering
        },
        next_exchange_phase(ExchangePhase::Answering, ExchangeEvent::Silence)
            == ExchangePhase::Over,
        next_exchange_phase(ExchangePhase::Answering, ExchangeEvent::Other)
            == ExchangePhase::Over,
        exchange_action(ExchangePhase::Over) == ExchangeAction::Finish,
{
}

/// An event that a conversation does not wait for leaves it where it is.
pub proof fn other_moments_change_nothing(phase: ExchangePhase, event: ExchangeEvent)
    ensures
        match phase {
            ExchangePhase::Connected => event is Paused,
            ExchangePhase::Greeting => event is Other || event is Silence,
            ExchangePhase::Sending => event is Delivered,
            ExchangePhase::Sent => event is Paused,
            ExchangePhase::Answering => event is Text || event is Other || event is Silence,
            ExchangePhase::Over => false,
        } || next_exchange_phase(phase, event) == phase,
{
}

/// Every text that comes during the greeting or the answer is kept, whole and
/// behind the others; nothing else is.
pub proof fn texts_are_kept_whole(
    responses: Seq<Seq<char>>,
    phase: ExchangePhase,
    text: String,
    event: ExchangeEvent,
)
    ensures
        next_responses(responses, ExchangePhase::Greeting, ExchangeEvent::Text(text))
            == responses.push(text@),
        next_responses(responses, ExchangePhase::Answering, ExchangeEvent::Text(text))
            == responses.push(text@),
        phase != ExchangePhase::Greeting && phase != ExchangePhase::Answering ==> next_responses(
            responses,
            phase,
            event,
        ) == responses,
        !(event is Text) ==> next_responses(responses, phase, event) == responses,
{
}

/// A result is seen as it is, field by field.
pub proof fn results_are_seen_whole(result: ToolResult, i: int)
    ensures
        result@.output == result.output@,
        result@.success == result.success,
        result@.file_modified == opt_view(result.file_modified),
        result@.files_to_send.len() == result.files_to_send@.len(),
        0 <= i < result.files_to_send@.len() ==> result@.files_to_send[i]
            == result.files_to_send@[i]@,
        result@.tokens_used == result.tokens_used,
        result@.structured_metadata is Some <==> result.structured_metadata is Some,
        result@.named_outputs is Some <==> result.named_outputs is Some,
{
}

} // verus!
