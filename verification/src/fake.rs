//! A provider that answers with a ready-made Splash counter app.
//!
//! It needs no key and no network. Its first answer holds the app and asks for
//! it to be launched; once a tool has run it says that the app is running.
use vstd::prelude::*;

use crate::chat::{
    calls_tool, ends_turn, events_view, has_tool_result, stream, streamed, ChatResponse,
    ChatResponseView, Message, MessageRole, StopReason, StreamEvent, TokenUsage, ToolCall, ToolSpec,
};
use crate::json;
use crate::json::{members_of, Json};
use crate::text::{contains, occurs_at, opt_view};

verus! {

/// The Splash body of a minimal counter application, in Makepad widget syntax:
/// flat widgets with `on_click` handlers, `let` declarations, and
/// `ui.name.set_text()` to reach a widget by name.
pub const SPLASH_COUNTER_APP: &'static str = r#"let count = 0
display := Label{text:"0" draw_text.text_style.font_size:24}
ButtonFlat{text:"-" on_click:||{count -= 1; ui.display.set_text("" + count)}}
ButtonFlat{text:"+" on_click:||{count += 1; ui.display.set_text("" + count)}}
ButtonFlat{text:"Reset" on_click:||{count = 0; ui.display.set_text("0")}}
btn_hello := ButtonFlat{text:"Send to Pi" on_click:||{__pi_response.set_text("Hello from octos! Count is " + count)}}"#;

/// What the provider says once the app runs.
pub const RUNNING_TEXT: &'static str =
    "The counter app is now running in the Makepad host window! You can interact with it using the buttons.";

/// What the provider says when it asks for the launch: the counter application
/// as a whole, with its window and its layout.
pub const SPLASH_COUNTER_TEXT: &'static str = r#"App {
    Window {
        Body {
            let count = 0
            VStack {
                count_display := Label { text: "0" }
                HStack {
                    decrement := Button { text: "-" on_click: || { count -= 1; count_display.set_text("" + count) } }
                    increment := Button { text: "+" on_click: || { count += 1; count_display.set_text("" + count) } }
                    reset := Button { text: "Reset" on_click: || { count = 0; count_display.set_text("0") } }
                }
                Button { text: "Send to Pi" on_click: || { __pi_response.set_text("Hello from octos! Count is " + count) } }
            }
        }
    }
}"#;

/// A provider that always answers with a Splash counter app.
pub struct FakeProvider {
    model_id: String,
}

/// The arguments of the launch: the app and its identifier.
pub open spec fn counter_arguments() -> Json {
    Json::Object(
        seq![
            ("splash_body"@, Json::Str(SPLASH_COUNTER_APP@)),
            ("app_id"@, Json::Str("counter-1"@)),
        ],
    )
}

/// The answer to a conversation: the counter app and its launch, or, once some
/// tool has run, that it is running. Either way the turn is over.
pub open spec fn fake_answer(messages: Seq<Message>) -> ChatResponseView {
    if has_tool_result(messages) {
        ends_turn(RUNNING_TEXT@)
    } else {
        ChatResponseView {
            stop_reason: StopReason::EndTurn,
            ..calls_tool(
                Some(SPLASH_COUNTER_TEXT@),
                "fake-tc-1"@,
                "launch_app"@,
                counter_arguments(),
            )
        }
    }
}

impl FakeProvider {
    /// The identifier of the model.
    pub closed spec fn model(self) -> Seq<char> {
        self.model_id@
    }

    pub fn new(model_id: Option<String>) -> (r: Self)
        ensures
            r.model() == match opt_view(model_id) {
                Some(id) => id,
                None => "splash-counter"@,
            },
    {
        match model_id {
            Some(id) => FakeProvider { model_id: id },
            None => FakeProvider { model_id: "splash-counter".to_string() },
        }
    }

    /// Builds an answer from the state of the conversation.
    pub fn build_response(&self, messages: &Vec<Message>) -> (r: Result<ChatResponse, String>)
        ensures
            r is Ok,
            r->Ok_0@ == fake_answer(messages@),
    {
        let mut seen: bool = false;
        let mut i: usize = 0;
        while i < messages.len()
            invariant
                i <= messages@.len(),
                seen == exists|k: int|
                    0 <= k < i && (#[trigger] messages@[k]).role == MessageRole::Tool,
            decreases messages@.len() - i,
        {
            if messages[i].role == MessageRole::Tool {
                seen = true;
            }
            i = i + 1;
        }
        if seen {
            let response = ChatResponse {
                content: Some(RUNNING_TEXT.to_string()),
                reasoning_content: None,
                tool_calls: Vec::new(),
                stop_reason: StopReason::EndTurn,
                usage: TokenUsage::default(),
                provider_index: None,
            };
            assert(response@ =~= fake_answer(messages@));
            Ok(response)
        } else {
            let members = vec![
                json::with_key("splash_body", json::string(SPLASH_COUNTER_APP)),
                json::with_key("app_id", json::string("counter-1")),
            ];
            proof {
                reveal_strlit("splash_body");
                reveal_strlit("app_id");
                assert("splash_body"@.len() != "app_id"@.len());
                assert(members_of(members@) =~= seq![
                    ("splash_body"@, Json::Str(SPLASH_COUNTER_APP@)),
                    ("app_id"@, Json::Str("counter-1"@)),
                ]);
            }
            let call = ToolCall {
                id: "fake-tc-1".to_string(),
                name: "launch_app".to_string(),
                arguments: json::object(members),
                metadata: None,
            };
            let response = ChatResponse {
                content: Some(SPLASH_COUNTER_TEXT.to_string()),
                reasoning_content: None,
                tool_calls: vec![call],
                stop_reason: StopReason::EndTurn,
                usage: TokenUsage::default(),
                provider_index: None,
            };
            assert(response@ =~= fake_answer(messages@));
            Ok(response)
        }
    }

    /// Answers a conversation. The offered tools play no part.
    pub fn chat(&self, messages: &Vec<Message>, _tools: &Vec<ToolSpec>) -> (r: Result<
        ChatResponse,
        String,
    >)
        ensures
            r is Ok,
            r->Ok_0@ == fake_answer(messages@),
    {
        self.build_response(messages)
    }

    /// Answers a conversation step by step. The offered tools play no part.
    pub fn chat_stream(&self, messages: &Vec<Message>, _tools: &Vec<ToolSpec>) -> (r: Result<
        Vec<StreamEvent>,
        String,
    >)
        ensures
            r is Ok,
            events_view(r->Ok_0@) == streamed(fake_answer(messages@)),
    {
        match self.build_response(messages) {
            Ok(response) => Ok(stream(&response)),
            Err(e) => Err(e),
        }
    }

    pub fn model_id(&self) -> (r: &str)
        ensures
            r@ == self.model(),
    {
        self.model_id.as_str()
    }

    pub fn provider_name(&self) -> (r: &str)
        ensures
            r@ == "fake"@,
    {
        "fake"
    }

    pub fn context_window(&self) -> (r: u32)
        ensures
            r == 4096,
    {
        4096
    }

    pub fn max_output_tokens(&self) -> (r: u32)
        ensures
            r == 2048,
    {
        2048
    }
}

/// The first answer holds a whole app: its window and layout, the three actions
/// of the counter, its display, and the way back to the agent.
pub proof fn the_first_answer_holds_the_app(messages: Seq<Message>)
    requires
        !has_tool_result(messages),
    ensures
        fake_answer(messages).content is Some,
        contains(fake_answer(messages).content->Some_0, "App {"@),
        contains(fake_answer(messages).content->Some_0, "Window {"@),
        contains(fake_answer(messages).content->Some_0, "Body {"@),
        contains(fake_answer(messages).content->Some_0, "VStack {"@),
        contains(fake_answer(messages).content->Some_0, "HStack {"@),
        contains(fake_answer(messages).content->Some_0, "increment"@),
        contains(fake_answer(messages).content->Some_0, "decrement"@),
        contains(fake_answer(messages).content->Some_0, "reset"@),
        contains(fake_answer(messages).content->Some_0, "count_display"@),
        contains(fake_answer(messages).content->Some_0, "__pi_response.set_text"@),
{
    let text = SPLASH_COUNTER_TEXT@;
    reveal_strlit(r#"App {
    Window {
        Body {
            let count = 0
            VStack {
                count_display := Label { text: "0" }
                HStack {
                    decrement := Button { text: "-" on_click: || { count -= 1; count_display.set_text("" + count) } }
                    increment := Button { text: "+" on_click: || { count += 1; count_display.set_text("" + count) } }
                    reset := Button { text: "Reset" on_click: || { count = 0; count_display.set_text("0") } }
                }
                Button { text: "Send to Pi" on_click: || { __pi_response.set_text("Hello from octos! Count is " + count) } }
            }
        }
    }
}"#);
    reveal_strlit("App {");
    assert(text.subrange(0, 0int + "App {"@.len()) =~= "App {"@);
    assert(occurs_at(text, "App {"@, 0));
    reveal_strlit("Window {");
    assert(text.subrange(10, 10int + "Window {"@.len()) =~= "Window {"@);
    assert(occurs_at(text, "Window {"@, 10));
    reveal_strlit("Body {");
    assert(text.subrange(27, 27int + "Body {"@.len()) =~= "Body {"@);
    assert(occurs_at(text, "Body {"@, 27));
    reveal_strlit("VStack {");
    assert(text.subrange(72, 72int + "VStack {"@.len()) =~= "VStack {"@);
    assert(occurs_at(text, "VStack {"@, 72));
    reveal_strlit("HStack {");
    assert(text.subrange(150, 150int + "HStack {"@.len()) =~= "HStack {"@);
    assert(occurs_at(text, "HStack {"@, 150));
    reveal_strlit("increment");
    assert(text.subrange(297, 297int + "increment"@.len()) =~= "increment"@);
    assert(occurs_at(text, "increment"@, 297));
    reveal_strlit("decrement");
    assert(text.subrange(179, 179int + "decrement"@.len()) =~= "decrement"@);
    assert(occurs_at(text, "decrement"@, 179));
    reveal_strlit("reset");
    assert(text.subrange(415, 415int + "reset"@.len()) =~= "reset"@);
    assert(occurs_at(text, "reset"@, 415));
    reveal_strlit("count_display");
    assert(text.subrange(97, 97int + "count_display"@.len()) =~= "count_display"@);
    assert(occurs_at(text, "count_display"@, 97));
    reveal_strlit("__pi_response.set_text");
    assert(text.subrange(582, 582int + "__pi_response.set_text"@.len()) =~= "__pi_response.set_text"@);
    assert(occurs_at(text, "__pi_response.set_text"@, 582));
}

} // verus!
