//! Conversation types shared by the model providers.
use vstd::prelude::*;

use crate::json::{json_of, Json};
use crate::text::opt_view;

verus! {

/// Who a message comes from.
#[derive(Clone, Copy, Debug, PartialEq, Eq, Structural)]
pub enum MessageRole {
    System,
    User,
    Assistant,
    Tool,
}

/// Why a model stopped.
#[derive(Clone, Copy, Debug, PartialEq, Eq, Structural)]
pub enum StopReason {
    EndTurn,
    ToolUse,
}

/// Tokens that a call used.
#[derive(Clone, Copy, Debug, PartialEq, Eq, Structural)]
pub struct TokenUsage {
    pub input_tokens: u32,
    pub output_tokens: u32,
    pub reasoning_tokens: u32,
    pub cache_read_tokens: u32,
    pub cache_write_tokens: u32,
}

/// A request of the model to run a tool.
#[derive(Debug)]
pub struct ToolCall {
    pub id: String,
    pub name: String,
    pub arguments: serde_json::Value,
    pub metadata: Option<serde_json::Value>,
}

/// One message of a conversation.
#[derive(Debug)]
pub struct Message {
    pub role: MessageRole,
    pub content: String,
    pub tool_calls: Option<Vec<ToolCall>>,
    pub tool_call_id: Option<String>,
}

/// A tool that is offered to the model.
#[derive(Debug)]
pub struct ToolSpec {
    pub name: String,
    pub description: String,
    pub input_schema: serde_json::Value,
}

/// What a model answers.
#[derive(Debug)]
pub struct ChatResponse {
    pub content: Option<String>,
    pub reasoning_content: Option<String>,
    pub tool_calls: Vec<ToolCall>,
    pub stop_reason: StopReason,
    pub usage: TokenUsage,
    pub provider_index: Option<usize>,
}

/// One step of a streamed answer.
#[derive(Debug)]
pub enum StreamEvent {
    TextDelta(String),
    ToolCallDelta {
        index: usize,
        id: Option<String>,
        name: Option<String>,
        arguments_delta: String,
    },
    Usage(TokenUsage),
    Done(StopReason),
}

/// The model of a tool call.
#[verifier::ext_equal]
pub struct ToolCallView {
    pub id: Seq<char>,
    pub name: Seq<char>,
    pub arguments: Json,
    pub metadata: Option<Json>,
}

/// The model of an answer.
#[verifier::ext_equal]
pub struct ChatResponseView {
    pub content: Option<Seq<char>>,
    pub reasoning_content: Option<Seq<char>>,
    pub tool_calls: Seq<ToolCallView>,
    pub stop_reason: StopReason,
    pub usage: TokenUsage,
    pub provider_index: Option<usize>,
}

/// The model of a step of a streamed answer.
#[verifier::ext_equal]
pub enum StreamEventView {
    TextDelta(Seq<char>),
    ToolCallDelta {
        index: nat,
        id: Option<Seq<char>>,
        name: Option<Seq<char>>,
        arguments_delta: Seq<char>,
    },
    Usage(TokenUsage),
    Done(StopReason),
}

/// The model of an optional JSON value.
pub open spec fn opt_json(value: Option<serde_json::Value>) -> Option<Json> {
    match value {
        Some(v) => Some(json_of(v)),
        None => None,
    }
}

impl View for ToolCall {
    type V = ToolCallView;

    open spec fn view(&self) -> ToolCallView {
        ToolCallView {
            id: self.id@,
            name: self.name@,
            arguments: json_of(self.arguments),
            metadata: opt_json(self.metadata),
        }
    }
}

/// The models of a list of tool calls.
pub open spec fn calls_view(calls: Seq<ToolCall>) -> Seq<ToolCallView> {
    calls.map_values(|c: ToolCall| c@)
}

impl View for ChatResponse {
    type V = ChatResponseView;

    open spec fn view(&self) -> ChatResponseView {
        ChatResponseView {
            content: opt_view(self.content),
            reasoning_content: opt_view(self.reasoning_content),
            tool_calls: calls_view(self.tool_calls@),
            stop_reason: self.stop_reason,
            usage: self.usage,
            provider_index: self.provider_index,
        }
    }
}

impl View for StreamEvent {
    type V = StreamEventView;

    open spec fn view(&self) -> StreamEventView {
        match self {
            StreamEvent::TextDelta(text) => StreamEventView::TextDelta(text@),
            StreamEvent::ToolCallDelta { index, id, name, arguments_delta } =>
                StreamEventView::ToolCallDelta {
                index: *index as nat,
                id: opt_view(*id),
                name: opt_view(*name),
                arguments_delta: arguments_delta@,
            },
            StreamEvent::Usage(usage) => StreamEventView::Usage(*usage),
            StreamEvent::Done(reason) => StreamEventView::Done(*reason),
        }
    }
}

/// The models of a list of stream events.
pub open spec fn events_view(events: Seq<StreamEvent>) -> Seq<StreamEventView> {
    events.map_values(|e: StreamEvent| e@)
}

/// No tokens used.
pub open spec fn no_usage() -> TokenUsage {
    TokenUsage {
        input_tokens: 0,
        output_tokens: 0,
        reasoning_tokens: 0,
        cache_read_tokens: 0,
        cache_write_tokens: 0,
    }
}

impl Default for TokenUsage {
    fn default() -> (r: TokenUsage)
        ensures
            r == no_usage(),
    {
        TokenUsage {
            input_tokens: 0,
            output_tokens: 0,
            reasoning_tokens: 0,
            cache_read_tokens: 0,
            cache_write_tokens: 0,
        }
    }
}

/// An answer that asks for one tool call.
pub open spec fn calls_tool(
    content: Option<Seq<char>>,
    id: Seq<char>,
    name: Seq<char>,
    arguments: Json,
) -> ChatResponseView {
    ChatResponseView {
        content,
        reasoning_content: None,
        tool_calls: seq![ToolCallView { id, name, arguments, metadata: None }],
        stop_reason: StopReason::ToolUse,
        usage: no_usage(),
        provider_index: None,
    }
}

/// An answer that ends the turn with a text.
pub open spec fn ends_turn(text: Seq<char>) -> ChatResponseView {
    ChatResponseView {
        content: Some(text),
        reasoning_content: None,
        tool_calls: seq![],
        stop_reason: StopReason::EndTurn,
        usage: no_usage(),
        provider_index: None,
    }
}

/// Some message is the result of a tool.
pub open spec fn has_tool_result(messages: Seq<Message>) -> bool {
    exists|i: int| 0 <= i < messages.len() && (#[trigger] messages[i]).role == MessageRole::Tool
}

/// The steps that stream an answer: its text, its tool calls in order, the
/// usage, the stop reason.
pub open spec fn streamed(response: ChatResponseView) -> Seq<StreamEventView> {
    let text = match response.content {
        Some(text) => seq![StreamEventView::TextDelta(text)],
        None => seq![],
    };
    let calls = Seq::new(
        response.tool_calls.len(),
        |i: int|
            StreamEventView::ToolCallDelta {
                index: i as nat,
                id: Some(response.tool_calls[i].id),
                name: Some(response.tool_calls[i].name),
                arguments_delta: crate::json::json_text(response.tool_calls[i].arguments),
            },
    );
    text + calls + seq![
        StreamEventView::Usage(response.usage),
        StreamEventView::Done(response.stop_reason),
    ]
}

/// Streams an answer: its text, its tool calls in order, the usage, the stop
/// reason.
pub fn stream(response: &ChatResponse) -> (r: Vec<StreamEvent>)
    ensures
        events_view(r@) == streamed(response@),
{
    let mut events: Vec<StreamEvent> = Vec::new();
    let ghost text: Seq<StreamEventView> = match response@.content {
        Some(text) => seq![StreamEventView::TextDelta(text)],
        None => seq![],
    };
    if let Some(text) = &response.content {
        events.push(StreamEvent::TextDelta(text.clone()));
    }
    assert(events_view(events@) =~= text);
    let ghost calls = Seq::new(
        response@.tool_calls.len(),
        |i: int|
            StreamEventView::ToolCallDelta {
                index: i as nat,
                id: Some(response@.tool_calls[i].id),
                name: Some(response@.tool_calls[i].name),
                arguments_delta: crate::json::json_text(response@.tool_calls[i].arguments),
            },
    );
    let mut i: usize = 0;
    while i < response.tool_calls.len()
        invariant
            i <= response.tool_calls@.len(),
            calls.len() == response.tool_calls@.len(),
            forall|k: int|
                0 <= k < calls.len() ==> #[trigger] calls[k] == (StreamEventView::ToolCallDelta {
                    index: k as nat,
                    id: Some(response.tool_calls@[k]@.id),
                    name: Some(response.tool_calls@[k]@.name),
                    arguments_delta: crate::json::json_text(response.tool_calls@[k]@.arguments),
                }),
            events_view(events@) =~= text + calls.take(i as int),
        decreases response.tool_calls@.len() - i,
    {
        let call = &response.tool_calls[i];
        let ghost before = events@;
        let event = StreamEvent::ToolCallDelta {
            index: i,
            id: Some(call.id.clone()),
            name: Some(call.name.clone()),
            arguments_delta: crate::json::to_text(&call.arguments),
        };
        assert(event@ == calls[i as int]);
        events.push(event);
        assert(events_view(events@) =~= events_view(before).push(calls[i as int]));
        assert(calls.take(i + 1) =~= calls.take(i as int).push(calls[i as int]));
        i = i + 1;
    }
    assert(calls.take(i as int) =~= calls);
    events.push(StreamEvent::Usage(response.usage));
    events.push(StreamEvent::Done(response.stop_reason));
    assert(events_view(events@) =~= streamed(response@));
    events
}

} // verus!
