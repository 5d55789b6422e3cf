//! A deterministic provider for offline runs: no network, no key, no chance.
//!
//! It plays two roles, told apart by the offered tools.
//!
//! - Where `launch_splash_app` is offered, it drives a chat session. The first
//!   fresh prompt is answered with "pong" through `send_message`, the second
//!   with a call of `launch_splash_app` that describes what the user asked for,
//!   every later one with "pong" again. A call that follows a tool result ends
//!   the turn.
//! - Where it is not offered, it writes: it ends the turn with a ready-made
//!   Splash app in a fenced block.
use vstd::prelude::*;

use super::{keyless, CreateParams, ProviderEntry};
use crate::chat::{
    calls_tool, ends_turn, ChatResponse, ChatResponseView, Message, MessageRole,
    StopReason, TokenUsage, ToolCall, ToolSpec,
};
use crate::json;
use crate::json::{json_of, members_of, Json};
use crate::text;
use crate::text::{decimal, decimal_determines, last_place, opt_view, trimmed};

verus! {

/// The tool whose presence marks a chat session: it builds mini-apps.
pub const HOST_LAUNCH_TOOL: &'static str = "launch_splash_app";

/// The tool that posts a text to the session's room.
pub const SEND_MESSAGE_TOOL: &'static str = "send_message";

/// The Splash app that the writer emits: a text box. Every level sizes itself,
/// since a host mounts a mini-app at its natural height and a root that fills
/// would collapse to nothing.
pub const CANNED_APP: &'static str = "// name: Mini App\n// icon: 💬\n// tint: #4466ee\n\
View{\n\
    width: Fill, height: Fit\n\
    flow: Down\n\
    padding: 20\n\
    align: Align{x: 0.5}\n\
    RoundedView{\n\
        width: Fit, height: Fit\n\
        padding: 22\n\
        show_bg: true\n\
        draw_bg +: {\n\
            color: #xEEF5FF\n\
            border_radius: 10.0\n\
        }\n\
        Label{\n\
            width: Fit, height: Fit\n\
            text: \"this is a mini-app\"\n\
            draw_text +: {\n\
                color: #x1C274C\n\
                text_style: theme.font_regular{font_size: 18}\n\
            }\n\
        }\n\
    }\n\
}";

/// Marks the request in the prompt for a change.
pub const CHANGE_MARKER: &'static str = "User's change request:";

/// Marks the request in the prompt for a new app.
pub const REQUEST_MARKER: &'static str = "User request:";

/// Some offered tool bears the name.
pub open spec fn offers(tools: Seq<ToolSpec>, name: Seq<char>) -> bool {
    exists|i: int| 0 <= i < tools.len() && (#[trigger] tools[i]).name@ == name
}

/// The newest message of a role.
pub open spec fn newest(messages: Seq<Message>, role: MessageRole) -> Option<Message>
    decreases messages.len(),
{
    if messages.len() == 0 {
        None
    } else if messages.last().role == role {
        Some(messages.last())
    } else {
        newest(messages.drop_last(), role)
    }
}

/// The tool that a message of the assistant called last.
pub open spec fn carried_call(message: Message) -> Option<Seq<char>> {
    match message.tool_calls {
        Some(calls) => if message.role == MessageRole::Assistant && calls@.len() > 0 {
            Some(calls@.last().name@)
        } else {
            None
        },
        None => None,
    }
}

/// The tool called by the newest message of the assistant that carries a call.
pub open spec fn newest_call(messages: Seq<Message>) -> Option<Seq<char>>
    decreases messages.len(),
{
    if messages.len() == 0 {
        None
    } else if carried_call(messages.last()) is Some {
        carried_call(messages.last())
    } else {
        newest_call(messages.drop_last())
    }
}

/// What follows the last place of a marker, trimmed.
pub open spec fn after_marker(content: Seq<char>, marker: Seq<char>) -> Option<Seq<char>> {
    match last_place(content, marker) {
        Some(at) => Some(trimmed(content.skip(at + marker.len()))),
        None => None,
    }
}

/// The request that a prompt holds: what follows a marker, or all of it.
pub open spec fn request_in(content: Seq<char>) -> Seq<char> {
    match after_marker(content, CHANGE_MARKER@) {
        Some(request) => request,
        None => match after_marker(content, REQUEST_MARKER@) {
            Some(request) => request,
            None => trimmed(content),
        },
    }
}

/// The user's own latest words.
pub open spec fn user_request(messages: Seq<Message>) -> Seq<char> {
    match newest(messages, MessageRole::User) {
        Some(message) => request_in(message.content@),
        None => seq![],
    }
}

/// The text of the newest tool result.
pub open spec fn tool_output(messages: Seq<Message>) -> Option<Seq<char>> {
    match newest(messages, MessageRole::Tool) {
        Some(message) => Some(trimmed(message.content@)),
        None => None,
    }
}

/// The tool whose result the conversation ends with. Where no call is in
/// sight, that is `launch_splash_app`.
pub open spec fn finished_tool(messages: Seq<Message>) -> Option<Seq<char>> {
    if messages.len() > 0 && messages.last().role == MessageRole::Tool {
        match newest_call(messages) {
            Some(name) => Some(name),
            None => Some(HOST_LAUNCH_TOOL@),
        }
    } else {
        None
    }
}

/// The identifier of a tool call, from the number of calls before it.
pub open spec fn call_id(calls: nat) -> Seq<char> {
    "call-scenario-"@ + decimal(calls)
}

/// The answer that posts "pong".
pub open spec fn pong_call(id: Seq<char>) -> ChatResponseView {
    calls_tool(None, id, SEND_MESSAGE_TOOL@, Json::Object(seq![("text"@, Json::Str("pong"@))]))
}

/// The answer that launches an app.
pub open spec fn launch_call(id: Seq<char>, description: Seq<char>) -> ChatResponseView {
    calls_tool(
        None,
        id,
        HOST_LAUNCH_TOOL@,
        Json::Object(seq![("description"@, Json::Str(description))]),
    )
}

/// What the app should be: the request, or a counter where there is none.
pub open spec fn description(request: Seq<char>) -> Seq<char> {
    if request.len() == 0 {
        "make a counter app"@
    } else {
        request
    }
}

/// The text that ends a turn after a tool has run.
pub open spec fn closing_text(messages: Seq<Message>, finished: Seq<char>) -> Seq<char> {
    if finished == SEND_MESSAGE_TOOL@ {
        "pong"@
    } else {
        "The app was built and launched.\n\nTool result: "@ + match tool_output(messages) {
            Some(output) => output,
            None => seq![],
        }
    }
}

/// The text of the writer: the app in a fenced block.
pub open spec fn fenced_app() -> Seq<char> {
    "```splash\n"@ + CANNED_APP@ + "\n```"@
}

/// The conversation is a fresh prompt of a chat session.
pub open spec fn fresh_prompt(messages: Seq<Message>, tools: Seq<ToolSpec>) -> bool {
    offers(tools, HOST_LAUNCH_TOOL@) && finished_tool(messages) is None
}

/// A session moves on over a conversation: a fresh prompt is counted, as a
/// prompt and as a tool call, and nothing else changes.
pub open spec fn advances(
    before: ScenarioProvider,
    after: ScenarioProvider,
    messages: Seq<Message>,
    tools: Seq<ToolSpec>,
) -> bool {
    &&& after.model() == before.model()
    &&& fresh_prompt(messages, tools) ==> after.prompts_answered()
        == before.prompts_answered().wrapping_add(1) && after.calls_made()
        == before.calls_made().wrapping_add(1)
    &&& !fresh_prompt(messages, tools) ==> after == before
}

/// The answer to a conversation, after a number of fresh prompts and of tool
/// calls in the session.
pub open spec fn scenario_answer(
    prompts: nat,
    calls: nat,
    messages: Seq<Message>,
    tools: Seq<ToolSpec>,
) -> ChatResponseView {
    if !offers(tools, HOST_LAUNCH_TOOL@) {
        ends_turn(fenced_app())
    } else {
        match finished_tool(messages) {
            Some(finished) => ends_turn(closing_text(messages, finished)),
            None => if prompts != 1 && offers(tools, SEND_MESSAGE_TOOL@) {
                pong_call(call_id(calls))
            } else {
                launch_call(call_id(calls), description(user_request(messages)))
            },
        }
    }
}

/// How the scenario provider is known. It is never guessed from a model name.
pub fn entry() -> (r: ProviderEntry)
    ensures
        keyless(r, "scenario"@, seq![], "scenario"@, seq![]),
{
    let r = ProviderEntry {
        name: "scenario",
        aliases: Vec::new(),
        default_model: Some("scenario"),
        api_key_env: None,
        key_env_aliases: Vec::new(),
        default_base_url: None,
        requires_api_key: false,
        requires_base_url: false,
        requires_model: false,
        detect_patterns: Vec::new(),
    };
    assert(r.aliases@.map_values(|s: &'static str| s@) =~= seq![]);
    assert(r.detect_patterns@.map_values(|s: &'static str| s@) =~= seq![]);
    r
}

/// Creates a scenario provider with a fresh session.
pub fn create(params: CreateParams) -> (r: Result<ScenarioProvider, String>)
    ensures
        r is Ok,
        r->Ok_0.model() == match opt_view(params.model) {
            Some(id) => id,
            None => "scenario"@,
        },
        r->Ok_0.prompts_answered() == 0,
        r->Ok_0.calls_made() == 0,
{
    let model = match params.model {
        Some(model) => model,
        None => "scenario".to_string(),
    };
    Ok(ScenarioProvider { model, calls: 0, prompts: 0 })
}

/// A session with the scenario provider.
pub struct ScenarioProvider {
    /// The name of the scenario.
    model: String,
    /// Tool calls emitted so far. They make the call identifiers unique.
    calls: usize,
    /// Fresh prompts answered so far. The sequence of answers goes by this
    /// number and not by the history, since a failed turn can lose the history.
    prompts: usize,
}

/// Whether some offered tool bears the name.
fn is_offered(tools: &Vec<ToolSpec>, name: &str) -> (r: bool)
    ensures
        r == offers(tools@, name@),
{
    let mut i: usize = 0;
    while i < tools.len()
        invariant
            i <= tools@.len(),
            forall|k: int| 0 <= k < i ==> (#[trigger] tools@[k]).name@ != name@,
        decreases tools@.len() - i,
    {
        if text::same_text(tools[i].name.as_str(), name) {
            return true;
        }
        i = i + 1;
    }
    false
}

/// The newest message of a role.
fn newest_message<'a>(messages: &'a Vec<Message>, role: MessageRole) -> (r: Option<&'a Message>)
    ensures
        match r {
            Some(message) => newest(messages@, role) == Some(*message),
            None => newest(messages@, role) is None,
        },
{
    let mut n: usize = messages.len();
    assert(messages@.take(n as int) =~= messages@);
    while n > 0
        invariant
            n <= messages@.len(),
            newest(messages@, role) == newest(messages@.take(n as int), role),
        decreases n,
    {
        assert(messages@.take(n as int).drop_last() =~= messages@.take(n - 1));
        assert(messages@.take(n as int).last() == messages@[n - 1]);
        if messages[n - 1].role == role {
            return Some(&messages[n - 1]);
        }
        n = n - 1;
    }
    None
}

/// What follows the last place of a marker, trimmed.
fn text_after_marker(content: &str, marker: &str) -> (r: Option<String>)
    ensures
        opt_view(r) == after_marker(content@, marker@),
{
    match text::rfind(content, marker) {
        Some(at) => {
            let end: usize = content.unicode_len();
            let from: usize = at + marker.unicode_len();
            let rest = content.substring_char(from, end);
            assert(rest@ =~= content@.skip(from as int));
            Some(text::trim(rest))
        },
        None => None,
    }
}

/// The user's own latest words: what follows a marker in the newest prompt, or
/// the whole prompt.
pub fn latest_user_request(messages: &Vec<Message>) -> (r: String)
    ensures
        r@ == user_request(messages@),
{
    match newest_message(messages, MessageRole::User) {
        Some(message) => {
            let content = message.content.as_str();
            match text_after_marker(content, CHANGE_MARKER) {
                Some(request) => request,
                None => match text_after_marker(content, REQUEST_MARKER) {
                    Some(request) => request,
                    None => text::trim(content),
                },
            }
        },
        None => String::new(),
    }
}

/// The text of the newest tool result.
pub fn latest_tool_output(messages: &Vec<Message>) -> (r: Option<String>)
    ensures
        opt_view(r) == tool_output(messages@),
{
    match newest_message(messages, MessageRole::Tool) {
        Some(message) => Some(text::trim(message.content.as_str())),
        None => None,
    }
}

/// The tool whose result the conversation ends with: the one that the newest
/// calling message of the assistant called, or `launch_splash_app` where no
/// call is in sight.
pub fn latest_finished_tool(messages: &Vec<Message>) -> (r: Option<String>)
    ensures
        opt_view(r) == finished_tool(messages@),
{
    if messages.len() == 0 || messages[messages.len() - 1].role != MessageRole::Tool {
        return None;
    }
    let mut n: usize = messages.len();
    assert(messages@.take(n as int) =~= messages@);
    while n > 0
        invariant
            n <= messages@.len(),
            messages@.len() > 0,
            messages@.last().role == MessageRole::Tool,
            newest_call(messages@) == newest_call(messages@.take(n as int)),
        decreases n,
    {
        assert(messages@.take(n as int).drop_last() =~= messages@.take(n - 1));
        assert(messages@.take(n as int).last() == messages@[n - 1]);
        let message = &messages[n - 1];
        if message.role == MessageRole::Assistant {
            if let Some(calls) = &message.tool_calls {
                if calls.len() > 0 {
                    return Some(calls[calls.len() - 1].name.clone());
                }
            }
        }
        n = n - 1;
    }
    Some(HOST_LAUNCH_TOOL.to_string())
}

/// An answer that asks for one tool call.
pub fn tool_use_response(name: &str, arguments: serde_json::Value, id: String) -> (r: ChatResponse)
    ensures
        r@ == calls_tool(None, id@, name@, json_of(arguments)),
{
    let call = ToolCall { id, name: name.to_string(), arguments, metadata: None };
    let r = ChatResponse {
        content: None,
        reasoning_content: None,
        tool_calls: vec![call],
        stop_reason: StopReason::ToolUse,
        usage: TokenUsage::default(),
        provider_index: None,
    };
    assert(r@ =~= calls_tool(None, id@, name@, json_of(arguments)));
    r
}

/// An answer that ends the turn with a text.
pub fn end_turn_response(text: String) -> (r: ChatResponse)
    ensures
        r@ == ends_turn(text@),
{
    let r = ChatResponse {
        content: Some(text),
        reasoning_content: None,
        tool_calls: Vec::new(),
        stop_reason: StopReason::EndTurn,
        usage: TokenUsage::default(),
        provider_index: None,
    };
    assert(r@ =~= ends_turn(text@));
    r
}

/// An object with one string member.
fn one_member(key: &str, value: &str) -> (r: serde_json::Value)
    ensures
        json_of(r) == Json::Object(seq![(key@, Json::Str(value@))]),
{
    let members = vec![json::with_key(key, json::string(value))];
    assert(members_of(members@) =~= seq![(key@, Json::Str(value@))]);
    json::object(members)
}

impl ScenarioProvider {
    /// The name of the scenario.
    pub closed spec fn model(self) -> Seq<char> {
        self.model@
    }

    /// Fresh prompts answered so far.
    pub closed spec fn prompts_answered(self) -> usize {
        self.prompts
    }

    /// Tool calls emitted so far.
    pub closed spec fn calls_made(self) -> usize {
        self.calls
    }

    /// Answers a conversation, and counts a fresh prompt of a chat session. The
    /// counts start again at zero when they are used up.
    pub fn chat(&mut self, messages: &Vec<Message>, tools: &Vec<ToolSpec>) -> (r: Result<
        ChatResponse,
        String,
    >)
        ensures
            r is Ok,
            r->Ok_0@ == scenario_answer(
                old(self).prompts_answered() as nat,
                old(self).calls_made() as nat,
                messages@,
                tools@,
            ),
            advances(*old(self), *final(self), messages@, tools@),
    {
        if is_offered(tools, HOST_LAUNCH_TOOL) {
            if let Some(finished) = latest_finished_tool(messages) {
                if text::same_text(finished.as_str(), SEND_MESSAGE_TOOL) {
                    return Ok(end_turn_response("pong".to_string()));
                }
                let echo = match latest_tool_output(messages) {
                    Some(output) => output,
                    None => String::new(),
                };
                return Ok(
                    end_turn_response(
                        text::concat(
                            "The app was built and launched.\n\nTool result: ",
                            echo.as_str(),
                        ),
                    ),
                );
            }
            let ask = latest_user_request(messages);
            let prompt = self.prompts;
            let id = text::concat(
                "call-scenario-",
                text::decimal_text(self.calls as u64).as_str(),
            );
            self.prompts = self.prompts.wrapping_add(1);
            self.calls = self.calls.wrapping_add(1);
            if prompt != 1 && is_offered(tools, SEND_MESSAGE_TOOL) {
                return Ok(tool_use_response(SEND_MESSAGE_TOOL, one_member("text", "pong"), id));
            }
            let wanted = if ask.as_str().is_empty() {
                "make a counter app".to_string()
            } else {
                ask
            };
            return Ok(
                tool_use_response(
                    HOST_LAUNCH_TOOL,
                    one_member("description", wanted.as_str()),
                    id,
                ),
            );
        }
        Ok(end_turn_response(text::concat3("```splash\n", CANNED_APP, "\n```")))
    }

    pub fn context_window(&self) -> (r: u32)
        ensures
            r == 128_000,
    {
        128_000
    }

    pub fn model_id(&self) -> (r: &str)
        ensures
            r@ == self.model(),
    {
        self.model.as_str()
    }

    pub fn provider_name(&self) -> (r: &str)
        ensures
            r@ == "scenario"@,
    {
        "scenario"
    }
}

/// In a session where both tools are offered, the fresh prompt number one is
/// answered with a launch and every other fresh prompt with "pong".
pub proof fn only_the_second_prompt_launches(
    prompts: nat,
    calls: nat,
    messages: Seq<Message>,
    tools: Seq<ToolSpec>,
)
    requires
        fresh_prompt(messages, tools),
        offers(tools, SEND_MESSAGE_TOOL@),
    ensures
        prompts == 1 ==> scenario_answer(prompts, calls, messages, tools) == launch_call(
            call_id(calls),
            description(user_request(messages)),
        ),
        prompts != 1 ==> scenario_answer(prompts, calls, messages, tools) == pong_call(
            call_id(calls),
        ),
{
}

/// Tool calls of a session bear different identifiers, as long as the count has
/// not started again.
pub proof fn call_ids_are_unique(a: nat, b: nat)
    requires
        a != b,
    ensures
        call_id(a) != call_id(b),
{
    if call_id(a) == call_id(b) {
        let prefix = "call-scenario-"@;
        assert(call_id(a).skip(prefix.len() as int) =~= decimal(a));
        assert(call_id(b).skip(prefix.len() as int) =~= decimal(b));
        decimal_determines(a, b);
    }
}

/// A call that follows a tool result ends the turn, and never with an empty
/// text; a turn that is not ended asks for exactly one tool.
pub proof fn turns_end_with_words(
    prompts: nat,
    calls: nat,
    messages: Seq<Message>,
    tools: Seq<ToolSpec>,
)
    ensures
        ({
            let answer = scenario_answer(prompts, calls, messages, tools);
            &&& finished_tool(messages) is Some ==> answer.stop_reason == StopReason::EndTurn
            &&& answer.stop_reason == StopReason::EndTurn ==> answer.tool_calls.len() == 0
            &&& answer.stop_reason == StopReason::EndTurn ==> (answer.content matches Some(text)
                && text.len() > 0)
            &&& answer.stop_reason == StopReason::ToolUse ==> answer.tool_calls.len() == 1
        }),
{
    reveal_strlit("pong");
    reveal_strlit("The app was built and launched.\n\nTool result: ");
    reveal_strlit("```splash\n");
    reveal_strlit("\n```");
}

/// How many fresh prompts a session has had. A session is given by its calls:
/// for each, the conversation and the offered tools.
pub open spec fn fresh_count(session: Seq<(Seq<Message>, Seq<ToolSpec>)>) -> nat
    decreases session.len(),
{
    if session.len() == 0 {
        0
    } else if fresh_prompt(session.last().0, session.last().1) {
        fresh_count(session.drop_last()) + 1
    } else {
        fresh_count(session.drop_last())
    }
}

/// The answer to a call of a session: the session counts the fresh prompts
/// before it, and each of these made one tool call.
pub open spec fn session_answer(session: Seq<(Seq<Message>, Seq<ToolSpec>)>, i: int) -> ChatResponseView {
    let before = fresh_count(session.take(i));
    scenario_answer(before, before, session[i].0, session[i].1)
}

proof fn fresh_count_grows(session: Seq<(Seq<Message>, Seq<ToolSpec>)>, i: int, j: int)
    requires
        0 <= i < j <= session.len(),
    ensures
        fresh_count(session.take(i)) <= fresh_count(session.take(j)),
        fresh_prompt(session[i].0, session[i].1) ==> fresh_count(session.take(i)) < fresh_count(
            session.take(j),
        ),
    decreases j,
{
    assert(session.take(j).drop_last() =~= session.take(j - 1));
    if i < j - 1 {
        fresh_count_grows(session, i, j - 1);
    }
}

/// The states that a provider goes through over the calls of a session.
pub open spec fn is_session(
    states: Seq<ScenarioProvider>,
    session: Seq<(Seq<Message>, Seq<ToolSpec>)>,
) -> bool {
    &&& states.len() == session.len() + 1
    &&& states[0].prompts_answered() == 0
    &&& states[0].calls_made() == 0
    &&& forall|i: int|
        0 <= i < session.len() ==> advances(
            states[i],
            states[i + 1],
            (#[trigger] session[i]).0,
            session[i].1,
        )
}

/// A provider answers each call of a session with the session's answer, as long
/// as the session has not used up the counts.
pub proof fn sessions_are_answered(
    states: Seq<ScenarioProvider>,
    session: Seq<(Seq<Message>, Seq<ToolSpec>)>,
    i: int,
)
    requires
        is_session(states, session),
        session.len() <= usize::MAX,
        0 <= i < session.len(),
    ensures
        scenario_answer(
            states[i].prompts_answered() as nat,
            states[i].calls_made() as nat,
            session[i].0,
            session[i].1,
        ) == session_answer(session, i),
{
    counts_follow_session(states, session, i);
}

proof fn counts_follow_session(
    states: Seq<ScenarioProvider>,
    session: Seq<(Seq<Message>, Seq<ToolSpec>)>,
    i: int,
)
    requires
        is_session(states, session),
        session.len() <= usize::MAX,
        0 <= i <= session.len(),
    ensures
        states[i].prompts_answered() == fresh_count(session.take(i)),
        states[i].calls_made() == fresh_count(session.take(i)),
        fresh_count(session.take(i)) <= i,
    decreases i,
{
    if i > 0 {
        counts_follow_session(states, session, i - 1);
        assert(session.take(i).drop_last() =~= session.take(i - 1));
        assert(session.take(i).last() == session[i - 1]);
        assert(advances(states[i - 1], states[i], session[i - 1].0, session[i - 1].1));
    }
}

/// Within a session no two tool calls bear the same identifier.
pub proof fn session_calls_are_distinct(
    session: Seq<(Seq<Message>, Seq<ToolSpec>)>,
    i: int,
    j: int,
)
    requires
        0 <= i < j < session.len(),
        session_answer(session, i).stop_reason == StopReason::ToolUse,
        session_answer(session, j).stop_reason == StopReason::ToolUse,
    ensures
        session_answer(session, i).tool_calls[0].id != session_answer(session, j).tool_calls[0].id,
{
    fresh_count_grows(session, i, j);
    call_ids_are_unique(fresh_count(session.take(i)), fresh_count(session.take(j)));
}

/// A fresh prompt with both tools offered is answered with a launch where the
/// session has had one fresh prompt before, and with a message otherwise; the
/// calls between, which follow a tool result, do not count.
pub proof fn session_launches_once(session: Seq<(Seq<Message>, Seq<ToolSpec>)>, i: int)
    requires
        0 <= i < session.len(),
        offers(session[i].1, HOST_LAUNCH_TOOL@),
        offers(session[i].1, SEND_MESSAGE_TOOL@),
        finished_tool(session[i].0) is None,
    ensures
        session_answer(session, i).tool_calls.len() == 1,
        session_answer(session, i).tool_calls[0].name == if fresh_count(session.take(i)) == 1 {
            HOST_LAUNCH_TOOL@
        } else {
            SEND_MESSAGE_TOOL@
        },
{
}

} // verus!
