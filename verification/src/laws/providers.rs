//! What the providers answer.
use vstd::prelude::*;

use super::texts::{blank, tight, trimming_takes_the_ends_off};
use crate::chat::{
    streamed, ChatResponseView, Message, MessageRole, StopReason, StreamEventView, ToolSpec,
};
use crate::fake::{fake_answer, SPLASH_COUNTER_APP, SPLASH_COUNTER_TEXT};
use crate::json::{json_text, Json};
use crate::registry::scenario::{
    advances, after_marker, finished_tool, newest, newest_call, scenario_answer, tool_output,
    user_request, ScenarioProvider, CANNED_APP,
};
use crate::registry::{keyless, ProviderEntry};
use crate::text::{
    contains, decimal, last_place, last_place_is_within, occurs_at, trimmed,
};

verus! {

/// An answer that costs nothing and holds nothing beside its text and its calls.
pub open spec fn bare(answer: ChatResponseView) -> bool {
    &&& answer.reasoning_content is None
    &&& answer.provider_index is None
    &&& answer.usage.input_tokens == 0
    &&& answer.usage.output_tokens == 0
    &&& answer.usage.reasoning_tokens == 0
    &&& answer.usage.cache_read_tokens == 0
    &&& answer.usage.cache_write_tokens == 0
}

/// An answer that ends the turn with a text and asks for no tool.
pub open spec fn says(answer: ChatResponseView, text: Seq<char>) -> bool {
    &&& bare(answer)
    &&& answer.content == Some(text)
    &&& answer.tool_calls.len() == 0
    &&& answer.stop_reason == StopReason::EndTurn
}

/// An answer that asks for one call of a tool, with one argument.
pub open spec fn asks(
    answer: ChatResponseView,
    id: Seq<char>,
    name: Seq<char>,
    key: Seq<char>,
    value: Seq<char>,
) -> bool {
    &&& bare(answer)
    &&& answer.content is None
    &&& answer.stop_reason == StopReason::ToolUse
    &&& answer.tool_calls.len() == 1
    &&& answer.tool_calls[0].id == id
    &&& answer.tool_calls[0].name == name
    &&& answer.tool_calls[0].arguments == Json::Object(seq![(key, Json::Str(value))])
    &&& answer.tool_calls[0].metadata is None
}

/// A streamed answer tells its text first where it has one, then its calls, each
/// whole and under its number, then what it cost, then why it ends.
pub proof fn streams_tell_the_whole_answer(response: ChatResponseView, i: int)
    ensures
        ({
            let steps = streamed(response);
            let t: int = if response.content is Some {
                1
            } else {
                0
            };
            let n = response.tool_calls.len() as int;
            &&& steps.len() == t + n + 2
            &&& response.content matches Some(text) ==> steps[0] == StreamEventView::TextDelta(text)
            &&& 0 <= i < n ==> steps[t + i] == (StreamEventView::ToolCallDelta {
                index: i as nat,
                id: Some(response.tool_calls[i].id),
                name: Some(response.tool_calls[i].name),
                arguments_delta: json_text(response.tool_calls[i].arguments),
            })
            &&& steps[t + n] == StreamEventView::Usage(response.usage)
            &&& steps[t + n + 1] == StreamEventView::Done(response.stop_reason)
        }),
{
}

/// The fake provider answers a conversation without a tool result with its app
/// and the call that launches it.
pub proof fn the_fake_provider_launches_its_app(messages: Seq<Message>)
    requires
        forall|i: int| 0 <= i < messages.len() ==> (#[trigger] messages[i]).role
            != MessageRole::Tool,
    ensures
        ({
            let answer = fake_answer(messages);
            &&& bare(answer)
            &&& answer.content == Some(SPLASH_COUNTER_TEXT@)
            &&& answer.stop_reason == StopReason::EndTurn
            &&& answer.tool_calls.len() == 1
            &&& answer.tool_calls[0].id == "fake-tc-1"@
            &&& answer.tool_calls[0].name == "launch_app"@
            &&& answer.tool_calls[0].metadata is None
            &&& answer.tool_calls[0].arguments == Json::Object(
                seq![
                    ("splash_body"@, Json::Str(SPLASH_COUNTER_APP@)),
                    ("app_id"@, Json::Str("counter-1"@)),
                ],
            )
        }),
{
}

/// The fake provider answers a conversation with a tool result anywhere in it by
/// saying that the app is running.
pub proof fn the_fake_provider_says_that_the_app_runs(messages: Seq<Message>, i: int)
    requires
        0 <= i < messages.len(),
        messages[i].role == MessageRole::Tool,
    ensures
        says(
            fake_answer(messages),
            "The counter app is now running in the Makepad host window! You can interact with it using the buttons."@,
        ),
{
    assert(messages[i].role == MessageRole::Tool);
}

/// The newest message of a role.
proof fn newest_known(messages: Seq<Message>, role: MessageRole, i: int)
    requires
        -1 <= i < messages.len(),
        i >= 0 ==> messages[i].role == role,
        forall|j: int| i < j < messages.len() ==> (#[trigger] messages[j]).role != role,
    ensures
        newest(messages, role) == if i >= 0 {
            Some(messages[i])
        } else {
            None
        },
    decreases messages.len(),
{
    if messages.len() > 0 && i < messages.len() - 1 {
        assert(messages[messages.len() - 1].role != role);
        newest_known(messages.drop_last(), role, i);
    }
}

/// Message `i` is the newest one of the user.
pub open spec fn newest_of_user(messages: Seq<Message>, i: int) -> bool {
    &&& 0 <= i < messages.len()
    &&& messages[i].role == MessageRole::User
    &&& forall|j: int|
        i < j < messages.len() ==> (#[trigger] messages[j]).role != MessageRole::User
}

/// A request without a marker is the whole of the user's newest message, but for
/// white space at its two ends.
pub proof fn plain_requests_are_whole_messages(messages: Seq<Message>, i: int) -> (ends: (
    Seq<char>,
    Seq<char>,
))
    requires
        newest_of_user(messages, i),
        !contains(messages[i].content@, "User's change request:"@),
        !contains(messages[i].content@, "User request:"@),
    ensures
        messages[i].content@ == ends.0 + user_request(messages) + ends.1,
        blank(ends.0),
        blank(ends.1),
        tight(user_request(messages)),
{
    newest_known(messages, MessageRole::User, i);
    let content = messages[i].content@;
    trimming_takes_the_ends_off(content)
}

proof fn last_place_known(before: Seq<char>, pattern: Seq<char>, after: Seq<char>)
    requires
        pattern.len() > 0,
        !contains((pattern + after).drop_first(), pattern),
    ensures
        last_place(before + pattern + after, pattern) == Some(before.len() as int),
{
    let text = before + pattern + after;
    let n = before.len() as int;
    assert(text.subrange(n, n + pattern.len()) =~= pattern);
    assert(occurs_at(text, pattern, n));
    last_place_is_within(text, pattern);
    let at = last_place(text, pattern)->Some_0;
    if at > n {
        let tail = (pattern + after).drop_first();
        let i = at - n - 1;
        assert(tail.subrange(i, i + pattern.len()) =~= text.subrange(at, at + pattern.len()));
        assert(occurs_at(tail, pattern, i));
    }
}

/// A request behind a marker is all that follows the marker, but for white space
/// at its two ends. The marker of a change counts before the other one.
pub proof fn marked_requests_follow_the_marker(
    messages: Seq<Message>,
    i: int,
    before: Seq<char>,
    rest: Seq<char>,
    change: bool,
) -> (ends: (Seq<char>, Seq<char>))
    requires
        newest_of_user(messages, i),
        ({
            let marker = if change {
                "User's change request:"@
            } else {
                "User request:"@
            };
            &&& messages[i].content@ == before + marker + rest
            &&& !contains((marker + rest).drop_first(), marker)
        }),
        !change ==> !contains(messages[i].content@, "User's change request:"@),
    ensures
        rest == ends.0 + user_request(messages) + ends.1,
        blank(ends.0),
        blank(ends.1),
        tight(user_request(messages)),
{
    newest_known(messages, MessageRole::User, i);
    reveal_strlit("User's change request:");
    reveal_strlit("User request:");
    let content = messages[i].content@;
    let marker = if change {
        "User's change request:"@
    } else {
        "User request:"@
    };
    last_place_known(before, marker, rest);
    assert(content.skip((before.len() + marker.len()) as int) =~= rest);
    assert(after_marker(content, marker) == Some(trimmed(rest)));
    trimming_takes_the_ends_off(rest)
}

/// Where the user has said nothing, the request is empty.
pub proof fn no_message_is_no_request(messages: Seq<Message>)
    requires
        forall|j: int| 0 <= j < messages.len() ==> (#[trigger] messages[j]).role
            != MessageRole::User,
    ensures
        user_request(messages).len() == 0,
{
    newest_known(messages, MessageRole::User, -1);
}

/// The output of a tool is the whole text of the newest tool result, but for
/// white space at its two ends.
pub proof fn tool_outputs_are_whole_results(messages: Seq<Message>, i: int) -> (ends: (
    Seq<char>,
    Seq<char>,
))
    requires
        0 <= i < messages.len(),
        messages[i].role == MessageRole::Tool,
        forall|j: int| i < j < messages.len() ==> (#[trigger] messages[j]).role
            != MessageRole::Tool,
    ensures
        tool_output(messages) matches Some(output) && messages[i].content@ == ends.0 + output
            + ends.1 && blank(ends.0) && blank(ends.1) && tight(output),
{
    newest_known(messages, MessageRole::Tool, i);
    let content = messages[i].content@;
    trimming_takes_the_ends_off(content)
}

/// A message of the assistant that calls a tool.
pub open spec fn calls(message: Message) -> bool {
    &&& message.role == MessageRole::Assistant
    &&& message.tool_calls is Some
    &&& message.tool_calls->Some_0@.len() > 0
}

proof fn newest_call_known(messages: Seq<Message>, i: int)
    requires
        -1 <= i < messages.len(),
        i >= 0 ==> calls(messages[i]),
        forall|j: int| i < j < messages.len() ==> !calls(#[trigger] messages[j]),
    ensures
        newest_call(messages) == if i >= 0 {
            Some(messages[i].tool_calls->Some_0@.last().name@)
        } else {
            None
        },
    decreases messages.len(),
{
    if messages.len() > 0 && i < messages.len() - 1 {
        assert(!calls(messages[messages.len() - 1]));
        newest_call_known(messages.drop_last(), i);
    }
}

/// The tool that has finished is the last one called by the newest message that
/// calls any, or `launch_splash_app` where none does; and it has finished only
/// where the conversation ends with a tool result.
pub proof fn the_finished_tool_is_the_last_one_called(messages: Seq<Message>, i: int)
    requires
        -1 <= i < messages.len(),
        i >= 0 ==> calls(messages[i]),
        forall|j: int| i < j < messages.len() ==> !calls(#[trigger] messages[j]),
    ensures
        messages.len() == 0 || messages.last().role != MessageRole::Tool ==> finished_tool(messages)
            is None,
        messages.len() > 0 && messages.last().role == MessageRole::Tool ==> finished_tool(messages)
            == Some(
            if i >= 0 {
                messages[i].tool_calls->Some_0@.last().name@
            } else {
                "launch_splash_app"@
            },
        ),
{
    newest_call_known(messages, i);
}

/// A tool of that name is offered.
pub open spec fn offered(tools: Seq<ToolSpec>, name: Seq<char>) -> bool {
    exists|i: int| 0 <= i < tools.len() && (#[trigger] tools[i]).name@ == name
}

/// Where the launch tool is not offered, the provider writes its app in a fenced
/// block, whatever the conversation.
pub proof fn the_writer_writes_its_app(
    prompts: nat,
    made: nat,
    messages: Seq<Message>,
    tools: Seq<ToolSpec>,
)
    requires
        !offered(tools, "launch_splash_app"@),
    ensures
        says(
            scenario_answer(prompts, made, messages, tools),
            "```splash\n"@ + CANNED_APP@ + "\n```"@,
        ),
{
}

/// Where a tool has just run, the turn ends: with "pong" after a message was
/// sent, and otherwise with the whole text that the tool gave back, but for white
/// space at its two ends.
pub proof fn finished_tools_end_the_turn(
    prompts: nat,
    made: nat,
    messages: Seq<Message>,
    tools: Seq<ToolSpec>,
    name: Seq<char>,
) -> (ends: (Seq<char>, Seq<char>))
    requires
        offered(tools, "launch_splash_app"@),
        finished_tool(messages) == Some(name),
    ensures
        name == "send_message"@ ==> says(scenario_answer(prompts, made, messages, tools), "pong"@),
        name != "send_message"@ ==> (tool_output(messages) matches Some(output) && says(
            scenario_answer(prompts, made, messages, tools),
            "The app was built and launched.\n\nTool result: "@ + output,
        ) && messages.last().content@ == ends.0 + output + ends.1 && blank(ends.0) && blank(ends.1)
            && tight(output)),
{
    tool_outputs_are_whole_results(messages, messages.len() - 1)
}

/// A fresh prompt is answered with a call under a number of its own: "pong" as a
/// message, but for the second prompt or where no message can be sent. Then an
/// app is launched that is described by the whole request, or a counter where
/// there is none.
pub proof fn fresh_prompts_are_answered_with_a_call(
    prompts: nat,
    made: nat,
    messages: Seq<Message>,
    tools: Seq<ToolSpec>,
)
    requires
        offered(tools, "launch_splash_app"@),
        finished_tool(messages) is None,
    ensures
        ({
            let answer = scenario_answer(prompts, made, messages, tools);
            let id = "call-scenario-"@ + decimal(made);
            let request = user_request(messages);
            let wanted = if request.len() > 0 {
                request
            } else {
                "make a counter app"@
            };
            &&& prompts != 1 && offered(tools, "send_message"@) ==> asks(
                answer,
                id,
                "send_message"@,
                "text"@,
                "pong"@,
            )
            &&& prompts == 1 || !offered(tools, "send_message"@) ==> asks(
                answer,
                id,
                "launch_splash_app"@,
                "description"@,
                wanted,
            )
        }),
{
}

/// A session counts a fresh prompt once, as a prompt and as a call, and counts
/// nothing else; its name stays. A count that is used up starts again at zero.
pub proof fn sessions_count_fresh_prompts(
    before: ScenarioProvider,
    after: ScenarioProvider,
    messages: Seq<Message>,
    tools: Seq<ToolSpec>,
)
    requires
        advances(before, after, messages, tools),
    ensures
        after.model() == before.model(),
        ({
            let fresh = offered(tools, "launch_splash_app"@) && finished_tool(messages) is None;
            &&& fresh ==> after.prompts_answered() == counted_on(before.prompts_answered())
            &&& fresh ==> after.calls_made() == counted_on(before.calls_made())
            &&& !fresh ==> after.prompts_answered() == before.prompts_answered()
            &&& !fresh ==> after.calls_made() == before.calls_made()
        }),
{
}

/// The next number, or zero behind the last one.
pub open spec fn counted_on(n: usize) -> int {
    if n < usize::MAX {
        n + 1
    } else {
        0
    }
}

/// A provider that can be chosen by its names needs no key, no address and no
/// model, and has one model by default.
pub proof fn providers_need_nothing(
    entry: ProviderEntry,
    name: Seq<char>,
    aliases: Seq<Seq<char>>,
    model: Seq<char>,
    patterns: Seq<Seq<char>>,
    i: int,
)
    requires
        keyless(entry, name, aliases, model, patterns),
    ensures
        entry.name@ == name,
        entry.aliases@.len() == aliases.len(),
        0 <= i < aliases.len() ==> entry.aliases@[i]@ == aliases[i],
        entry.default_model matches Some(given) && given@ == model,
        entry.detect_patterns@.len() == patterns.len(),
        0 <= i < patterns.len() ==> entry.detect_patterns@[i]@ == patterns[i],
        entry.api_key_env is None,
        entry.key_env_aliases@.len() == 0,
        entry.default_base_url is None,
        !entry.requires_api_key,
        !entry.requires_base_url,
        !entry.requires_model,
{
    let given = entry.aliases@.map_values(|s: &'static str| s@);
    if 0 <= i < aliases.len() {
        assert(given[i] == entry.aliases@[i]@);
    }
    let found = entry.detect_patterns@.map_values(|s: &'static str| s@);
    if 0 <= i < patterns.len() {
        assert(found[i] == entry.detect_patterns@[i]@);
    }
}

/// The app that the fake provider launches counts down, counts up, begins anew,
/// and tells its count.
pub proof fn the_launched_app_counts()
    ensures
        contains(SPLASH_COUNTER_APP@, "on_click:||{count -= 1; ui.display.set_text(\"\" + count)}"@),
        contains(SPLASH_COUNTER_APP@, "on_click:||{count += 1; ui.display.set_text(\"\" + count)}"@),
        contains(SPLASH_COUNTER_APP@, "on_click:||{count = 0; ui.display.set_text(\"0\")}"@),
        contains(
            SPLASH_COUNTER_APP@,
            "__pi_response.set_text(\"Hello from octos! Count is \" + count)"@,
        ),
{
    let text = SPLASH_COUNTER_APP@;
    reveal_strlit(r#"let count = 0
display := Label{text:"0" draw_text.text_style.font_size:24}
ButtonFlat{text:"-" on_click:||{count -= 1; ui.display.set_text("" + count)}}
ButtonFlat{text:"+" on_click:||{count += 1; ui.display.set_text("" + count)}}
ButtonFlat{text:"Reset" on_click:||{count = 0; ui.display.set_text("0")}}
btn_hello := ButtonFlat{text:"Send to Pi" on_click:||{__pi_response.set_text("Hello from octos! Count is " + count)}}"#);
    reveal_strlit("on_click:||{count -= 1; ui.display.set_text(\"\" + count)}");
    assert(text.subrange(95, 95int + "on_click:||{count -= 1; ui.display.set_text(\"\" + count)}"@.len()) =~= "on_click:||{count -= 1; ui.display.set_text(\"\" + count)}"@);
    assert(occurs_at(text, "on_click:||{count -= 1; ui.display.set_text(\"\" + count)}"@, 95));
    reveal_strlit("on_click:||{count += 1; ui.display.set_text(\"\" + count)}");
    assert(text.subrange(173, 173int + "on_click:||{count += 1; ui.display.set_text(\"\" + count)}"@.len()) =~= "on_click:||{count += 1; ui.display.set_text(\"\" + count)}"@);
    assert(occurs_at(text, "on_click:||{count += 1; ui.display.set_text(\"\" + count)}"@, 173));
    reveal_strlit("on_click:||{count = 0; ui.display.set_text(\"0\")}");
    assert(text.subrange(255, 255int + "on_click:||{count = 0; ui.display.set_text(\"0\")}"@.len()) =~= "on_click:||{count = 0; ui.display.set_text(\"0\")}"@);
    assert(occurs_at(text, "on_click:||{count = 0; ui.display.set_text(\"0\")}"@, 255));
    reveal_strlit("__pi_response.set_text(\"Hello from octos! Count is \" + count)");
    assert(text.subrange(359, 359int + "__pi_response.set_text(\"Hello from octos! Count is \" + count)"@.len()) =~= "__pi_response.set_text(\"Hello from octos! Count is \" + count)"@);
    assert(occurs_at(text, "__pi_response.set_text(\"Hello from octos! Count is \" + count)"@, 359));
}

/// The app that the scenario writes bears a name, and shows its label.
pub proof fn the_written_app_shows_its_label()
    ensures
        contains(CANNED_APP@, "// name: Mini App\n"@),
        contains(CANNED_APP@, "text: \"this is a mini-app\"\n"@),
{
    let text = CANNED_APP@;
    reveal_strlit("// name: Mini App\n// icon: 💬\n// tint: #4466ee\n\
View{\n\
    width: Fill, height: Fit\n\
    flow: Down\n\
    padding: 20\n\
    align: Align{x: 0.5}\n\
    RoundedView{\n\
        width: Fit, height: Fit\n\
        padding: 22\n\
        show_bg: true\n\
        draw_bg +: {\n\
            color: #xEEF5FF\n\
            border_radius: 10.0\n\
        }\n\
        Label{\n\
            width: Fit, height: Fit\n\
            text: \"this is a mini-app\"\n\
            draw_text +: {\n\
                color: #x1C274C\n\
                text_style: theme.font_regular{font_size: 18}\n\
            }\n\
        }\n\
    }\n\
}");
    reveal_strlit("// name: Mini App\n");
    assert(text.subrange(0, 0int + "// name: Mini App\n"@.len()) =~= "// name: Mini App\n"@);
    assert(occurs_at(text, "// name: Mini App\n"@, 0));
    reveal_strlit("text: \"this is a mini-app\"\n");
    assert(text.subrange(266, 266int + "text: \"this is a mini-app\"\n"@.len()) =~= "text: \"this is a mini-app\"\n"@);
    assert(occurs_at(text, "text: \"this is a mini-app\"\n"@, 266));
}

} // verus!
