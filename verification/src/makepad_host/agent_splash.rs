//! The widget that evaluates Splash apps and talks to the runtime for them.
use vstd::prelude::*;

use super::{pieces_view, StreamPiece, StreamPieceView};
use crate::json;
use crate::json::{exact, json_text, members_of, parsed_json, Json};
use crate::protocol::tag;
use crate::text;
use crate::text::{
    contains, first_place, first_place_is_within, joined, occurs_at, opt_view, views,
};

verus! {

/// What stands before every Splash body.
pub const SPLASH_PREFIX: &'static str =
    "use mod.prelude.widgets.*View{width:Fill height:Fit flow:Down ";

/// What stands behind every Splash body: the widgets that the runtime uses.
pub const SPLASH_SUFFIX: &'static str = r#"  __run_splash := mod.widgets.AgentSplash{width:Fill height:Fit is_root:false}
  __pi_status := Label{text:" " height:Fit width:Fill}
  __ai_text := Label{text:" " height:Fit width:Fill}
  __pi_response := Label{text:"" visible:false}
  __pi_data := Label{text:" " visible:false}"#;

/// What is evaluated where there is no body.
pub const EMPTY_VIEW: &'static str = "use mod.prelude.widgets.*View{width:Fill height:Fit}";

/// What opens a nested app in streamed text.
pub const RUN_FENCE: &'static str = "```runsplash";

/// What closes it.
pub const END_FENCE: &'static str = "```";

/// What is reported when a body cannot be evaluated.
pub const EVALUATION_ERROR: &'static str = "Failed to evaluate Splash DSL body";

/// The state of the widget.
#[derive(Debug)]
pub struct AgentSplash {
    body: String,
    render_ok: bool,
    last_response: String,
    last_pi_data: String,
    /// The text of the stream that runs, as far as it has come.
    last_streaming_text: String,
}

/// The model of the widget.
#[verifier::ext_equal]
pub struct SplashView {
    pub body: Seq<char>,
    pub render_ok: bool,
    pub last_response: Seq<char>,
    pub last_pi_data: Seq<char>,
    pub last_streaming_text: Seq<char>,
}

impl View for AgentSplash {
    type V = SplashView;

    closed spec fn view(&self) -> SplashView {
        SplashView {
            body: self.body@,
            render_ok: self.render_ok,
            last_response: self.last_response@,
            last_pi_data: self.last_pi_data@,
            last_streaming_text: self.last_streaming_text@,
        }
    }
}

/// What an evaluation gave.
#[derive(Clone, Copy, Debug, PartialEq, Eq, Structural)]
pub struct Evaluated {
    pub is_err: bool,
    pub is_nil: bool,
    pub is_object: bool,
}

/// What is to be shown of streamed text.
#[derive(Debug)]
pub struct StreamUpdate {
    /// The text for the `__ai_text` widget.
    pub ai_text: String,
    /// The code for the `__run_splash` widget, where there is any.
    pub run_splash: Option<String>,
}

/// What happens to the widget.
#[derive(Clone, Copy, Debug, PartialEq, Eq, Structural)]
pub enum SplashEvent {
    Signal,
    Startup,
    BeforeFirstDraw,
    Other,
}

/// What the widget does about it, beside handing it to its view.
#[derive(Clone, Copy, Debug, PartialEq, Eq, Structural)]
pub enum SplashPlan {
    /// Take in streamed text first.
    SyncFirst,
    /// Evaluate the body afterwards.
    EvaluateAfter,
    /// Render the body afterwards, where that is still to be done.
    RenderAfter,
    /// Nothing else.
    PassOn,
}

/// Decides what the widget does about an event.
pub fn handle_event(event: SplashEvent) -> (r: SplashPlan)
    ensures
        r == match event {
            SplashEvent::Signal => SplashPlan::SyncFirst,
            SplashEvent::Startup => SplashPlan::EvaluateAfter,
            SplashEvent::BeforeFirstDraw => SplashPlan::RenderAfter,
            SplashEvent::Other => SplashPlan::PassOn,
        },
{
    match event {
        SplashEvent::Signal => SplashPlan::SyncFirst,
        SplashEvent::Startup => SplashPlan::EvaluateAfter,
        SplashEvent::BeforeFirstDraw => SplashPlan::RenderAfter,
        SplashEvent::Other => SplashPlan::PassOn,
    }
}

/// The code that is evaluated for a body.
pub open spec fn wrapped(body: Seq<char>) -> Seq<char> {
    SPLASH_PREFIX@ + body + SPLASH_SUFFIX@
}

/// A text with pieces of streamed text behind it.
pub open spec fn extended(text: Seq<char>, deltas: Seq<Seq<char>>) -> Seq<char> {
    text + joined(deltas, seq![])
}

/// How far a stream has been taken in: the text of what runs, what is to be
/// shown, and the pieces of text that have come since.
#[verifier::ext_equal]
pub struct StreamProgress {
    pub text: Seq<char>,
    pub updates: Seq<(Seq<char>, Option<Seq<char>>)>,
    pub batch: Seq<Seq<char>>,
}

/// The progress after the pieces of text that have come are taken in, as one
/// batch.
pub open spec fn flushed(progress: StreamProgress) -> StreamProgress {
    if progress.batch.len() == 0 {
        progress
    } else {
        let text = extended(progress.text, progress.batch);
        let code = code_to_run(progress.text, joined(progress.batch, seq![]));
        StreamProgress { text, updates: progress.updates.push((text, code)), batch: seq![] }
    }
}

/// The progress after pieces of a stream. Pieces of text that follow one another
/// make a batch. The end of a stream shows nothing new; a response is shown.
/// After both, text begins anew.
pub open spec fn progressed(text: Seq<char>, pieces: Seq<StreamPieceView>) -> StreamProgress
    decreases pieces.len(),
{
    if pieces.len() == 0 {
        StreamProgress { text, updates: seq![], batch: seq![] }
    } else {
        let before = progressed(text, pieces.drop_last());
        match pieces.last() {
            StreamPieceView::Delta(delta) => StreamProgress {
                batch: before.batch.push(delta),
                ..before
            },
            StreamPieceView::Complete => StreamProgress { text: seq![], ..flushed(before) },
            StreamPieceView::Response(content) => StreamProgress {
                text: seq![],
                updates: flushed(before).updates.push((content, None)),
                ..flushed(before)
            },
        }
    }
}

/// The text of the stream that runs, after pieces of a stream.
pub open spec fn stream_text(text: Seq<char>, pieces: Seq<StreamPieceView>) -> Seq<char> {
    flushed(progressed(text, pieces)).text
}

/// What is to be shown after pieces of a stream: each time the text, and the
/// code to run.
pub open spec fn stream_updates(text: Seq<char>, pieces: Seq<StreamPieceView>) -> Seq<
    (Seq<char>, Option<Seq<char>>),
> {
    flushed(progressed(text, pieces)).updates
}

/// The models of a list of updates.
pub open spec fn updates_view(updates: Seq<StreamUpdate>) -> Seq<(Seq<char>, Option<Seq<char>>)> {
    updates.map_values(|u: StreamUpdate| (u.ai_text@, opt_view(u.run_splash)))
}

/// The code between the first opening fence and the next closing one.
pub open spec fn fenced_code(text: Seq<char>) -> Option<Seq<char>> {
    match first_place(text, RUN_FENCE@) {
        Some(at) => {
            let rest = text.skip(at + RUN_FENCE@.len());
            match first_place(rest, END_FENCE@) {
                Some(end) => Some(rest.take(end)),
                None => None,
            }
        },
        None => None,
    }
}

/// The last block of code in a text that has both its fences, with the place
/// behind it.
pub open spec fn last_block(text: Seq<char>) -> Option<(Seq<char>, int)>
    decreases text.len(),
{
    match first_place(text, RUN_FENCE@) {
        Some(at) => {
            let from = at + RUN_FENCE@.len();
            match first_place(text.skip(from), END_FENCE@) {
                Some(close) => {
                    let behind = from + close + END_FENCE@.len();
                    proof {
                        blocks_take_room(text);
                    }
                    match last_block(text.skip(behind)) {
                        Some((code, end)) => Some((code, behind + end)),
                        None => Some((text.skip(from).take(close), behind)),
                    }
                },
                None => None,
            }
        },
        None => None,
    }
}

/// A block with both its fences lies within the text and is not empty.
pub proof fn blocks_take_room(text: Seq<char>)
    ensures
        first_place(text, RUN_FENCE@) matches Some(at) ==> (first_place(
            text.skip(at + RUN_FENCE@.len()),
            END_FENCE@,
        ) matches Some(close) ==> 0 <= at && 0 <= close && 0 < END_FENCE@.len() && at
            + RUN_FENCE@.len() + close + END_FENCE@.len() <= text.len()),
{
    reveal_strlit("```");
    first_place_is_within(text, RUN_FENCE@);
    match first_place(text, RUN_FENCE@) {
        Some(at) => {
            first_place_is_within(text.skip(at + RUN_FENCE@.len()), END_FENCE@);
        },
        None => {},
    }
}

/// The code to run when a batch of text comes behind a text: the first block
/// that stands whole in the batch, or else the last block that the batch has
/// completed.
pub open spec fn code_to_run(text: Seq<char>, batch: Seq<char>) -> Option<Seq<char>> {
    match fenced_code(batch) {
        Some(code) => Some(code),
        None => match last_block(text + batch) {
            Some((code, end)) => if end > text.len() {
                Some(code)
            } else {
                None
            },
            None => None,
        },
    }
}

/// The message that carries a response of the user.
pub open spec fn response_wire(response: Seq<char>) -> Json {
    Json::Object(tag("pi_response"@) + seq![("content"@, Json::Str(response))])
}

/// The text of an app's response is to be sent: it is there, and it is not the
/// one that was sent last.
pub open spec fn is_new_response(widget: SplashView, text: Seq<char>) -> bool {
    text.len() > 0 && text != widget.last_response
}

/// Finds the code between the first opening fence and the next closing one.
pub fn run_splash_code(text: &str) -> (r: Option<String>)
    ensures
        opt_view(r) == fenced_code(text@),
{
    match text::find(text, RUN_FENCE) {
        Some(at) => {
            let end: usize = text.unicode_len();
            let from: usize = at + RUN_FENCE.unicode_len();
            let rest = text.substring_char(from, end);
            assert(rest@ =~= text@.skip(from as int));
            match text::find(rest, END_FENCE) {
                Some(close) => {
                    let code = rest.substring_char(0, close);
                    assert(code@ =~= rest@.take(close as int));
                    Some(code.to_string())
                },
                None => None,
            }
        },
        None => None,
    }
}

/// Finds the last block of code that has both its fences, and the place behind
/// it.
fn find_last_block(text: &str) -> (r: Option<(String, usize)>)
    ensures
        match r {
            Some((code, end)) => last_block(text@) == Some((code@, end as int)) && end
                <= text@.len(),
            None => last_block(text@) is None,
        },
    decreases text@.len(),
{
    let length: usize = text.unicode_len();
    let at: usize = match text::find(text, RUN_FENCE) {
        Some(at) => at,
        None => {
            return None;
        },
    };
    let from: usize = at + RUN_FENCE.unicode_len();
    let rest = text.substring_char(from, length);
    assert(rest@ =~= text@.skip(from as int));
    let close: usize = match text::find(rest, END_FENCE) {
        Some(close) => close,
        None => {
            return None;
        },
    };
    proof {
        blocks_take_room(text@);
    }
    let behind: usize = from + close + END_FENCE.unicode_len();
    let tail = text.substring_char(behind, length);
    assert(tail@ =~= text@.skip(behind as int));
    match find_last_block(tail) {
        Some((code, end)) => Some((code, behind + end)),
        None => {
            let code = rest.substring_char(0, close);
            assert(code@ =~= rest@.take(close as int));
            Some((code.to_string(), behind))
        },
    }
}

/// Finds the code to run when a batch of text comes behind a text.
pub fn find_code_to_run(text: &str, batch: &str) -> (r: Option<String>)
    ensures
        opt_view(r) == code_to_run(text@, batch@),
{
    match run_splash_code(batch) {
        Some(code) => Some(code),
        None => {
            let whole = text::concat(text, batch);
            match find_last_block(whole.as_str()) {
                Some((code, end)) => if end > text.unicode_len() {
                    Some(code)
                } else {
                    None
                },
                None => None,
            }
        },
    }
}

/// The message that carries a response of the user to the runtime.
pub fn send_response(response: &str) -> (r: String)
    ensures
        r@ == json_text(response_wire(response@)),
        parsed_json(r@) == Some(response_wire(response@)),
{
    let members = vec![
        json::with_key("type", json::string("pi_response")),
        json::with_key("content", json::string(response)),
    ];
    proof {
        reveal_strlit("type");
        reveal_strlit("content");
        assert("type"@.len() != "content"@.len());
        reveal_with_fuel(exact, 2);
        assert(members_of(members@) =~= tag("pi_response"@) + seq![
            ("content"@, Json::Str(response@)),
        ]);
    }
    let value = json::object(members);
    json::to_text(&value)
}

/// Whether an evaluation gave a view.
pub fn accepts(value: Evaluated) -> (r: bool)
    ensures
        r == (!value.is_err && !value.is_nil && value.is_object),
{
    !(value.is_err || value.is_nil || !value.is_object)
}

impl AgentSplash {
    /// A widget without a body.
    pub fn new() -> (r: Self)
        ensures
            r@ == (SplashView {
                body: seq![],
                render_ok: false,
                last_response: seq![],
                last_pi_data: seq![],
                last_streaming_text: seq![],
            }),
    {
        AgentSplash {
            body: String::new(),
            render_ok: false,
            last_response: String::new(),
            last_pi_data: String::new(),
            last_streaming_text: String::new(),
        }
    }

    /// The code to evaluate for the body. Where there is none, an empty view.
    pub fn eval_body(&self) -> (r: String)
        ensures
            r@ == if self@.body.len() == 0 {
                EMPTY_VIEW@
            } else {
                wrapped(self@.body)
            },
    {
        if self.body.as_str().is_empty() {
            EMPTY_VIEW.to_string()
        } else {
            text::concat3(SPLASH_PREFIX, self.body.as_str(), SPLASH_SUFFIX)
        }
    }

    /// Whether the body counts as evaluated. No body always does.
    pub fn eval_outcome(&self, value: Evaluated) -> (r: bool)
        ensures
            r == (self@.body.len() == 0 || (!value.is_err && !value.is_nil && value.is_object)),
    {
        self.body.as_str().is_empty() || accepts(value)
    }

    /// Whether what was evaluated becomes the view: any object where there is no
    /// body, a view where there is one.
    pub fn replaces_view(&self, value: Evaluated) -> (r: bool)
        ensures
            r == (value.is_object && (self@.body.len() == 0 || (!value.is_err && !value.is_nil))),
    {
        if self.body.as_str().is_empty() {
            value.is_object
        } else {
            accepts(value)
        }
    }

    /// The code to evaluate before the first drawing, where that is still to be
    /// done.
    pub fn code_to_render(&self) -> (r: Option<String>)
        ensures
            opt_view(r) == if !self@.render_ok && self@.body.len() > 0 {
                Some(wrapped(self@.body))
            } else {
                None
            },
    {
        if !self.render_ok && !self.body.as_str().is_empty() {
            Some(text::concat3(SPLASH_PREFIX, self.body.as_str(), SPLASH_SUFFIX))
        } else {
            None
        }
    }

    /// Takes note of how the evaluation before the first drawing went. The
    /// result is the error to report, if any.
    pub fn rendered(&mut self, value: Evaluated) -> (r: Option<String>)
        ensures
            ({
                let ok = !value.is_err && !value.is_nil && value.is_object;
                &&& final(self)@ == (SplashView { render_ok: ok, ..old(self)@ })
                &&& opt_view(r) == if ok {
                    None
                } else {
                    Some(EVALUATION_ERROR@)
                }
            }),
    {
        self.render_ok = accepts(value);
        if self.render_ok {
            None
        } else {
            Some(EVALUATION_ERROR.to_string())
        }
    }

    /// Takes in streamed text: it is added to the text of the stream that runs,
    /// and the whole is shown. Code that comes with it, or that it completes, is
    /// run. Where there is no text, nothing changes.
    pub fn sync_streaming_text(&mut self, deltas: &Vec<String>) -> (r: Option<StreamUpdate>)
        ensures
            deltas@.len() == 0 ==> r is None && final(self)@ == old(self)@,
            deltas@.len() > 0 ==> ({
                let text = extended(old(self)@.last_streaming_text, views(deltas@));
                &&& final(self)@ == (SplashView { last_streaming_text: text, ..old(self)@ })
                &&& r matches Some(update) && update.ai_text@ == text && opt_view(
                    update.run_splash,
                ) == code_to_run(
                    old(self)@.last_streaming_text,
                    joined(views(deltas@), seq![]),
                )
            }),
    {
        if deltas.len() == 0 {
            return None;
        }
        let batch = text::join(deltas, "");
        proof {
            reveal_strlit("");
            assert(""@ =~= seq![]);
        }
        let run_splash = find_code_to_run(self.last_streaming_text.as_str(), batch.as_str());
        let new_text = text::concat(self.last_streaming_text.as_str(), batch.as_str());
        self.last_streaming_text = new_text.clone();
        Some(StreamUpdate { ai_text: new_text, run_splash })
    }

    /// Takes note that the stream is complete. What is shown stays; the text
    /// that comes next begins anew.
    pub fn stream_complete(&mut self)
        ensures
            final(self)@ == (SplashView { last_streaming_text: seq![], ..old(self)@ }),
    {
        self.last_streaming_text = String::new();
    }

    /// Takes in a response of the agent, which takes the place of the text that
    /// is shown. Streamed text that comes next begins anew.
    pub fn show_response(&mut self, content: &str) -> (r: StreamUpdate)
        ensures
            final(self)@ == (SplashView { last_streaming_text: seq![], ..old(self)@ }),
            r.ai_text@ == content@,
            r.run_splash is None,
    {
        self.last_streaming_text = String::new();
        StreamUpdate { ai_text: content.to_string(), run_splash: None }
    }

    /// Takes in a batch of text and adds what is to be shown to the updates.
    fn flush(&mut self, batch: &Vec<String>, updates: &mut Vec<StreamUpdate>)
        ensures
            ({
                let after = flushed(
                    StreamProgress {
                        text: old(self)@.last_streaming_text,
                        updates: updates_view(old(updates)@),
                        batch: views(batch@),
                    },
                );
                &&& final(self)@ == (SplashView { last_streaming_text: after.text, ..old(self)@ })
                &&& updates_view(final(updates)@) == after.updates
            }),
    {
        let ghost shown = updates@;
        if let Some(update) = self.sync_streaming_text(batch) {
            updates.push(update);
            assert(updates_view(updates@) =~= updates_view(shown).push(
                (update.ai_text@, opt_view(update.run_splash)),
            ));
        }
    }

    /// Takes in what comes over a stream. The result is what is to be shown, in
    /// this order.
    pub fn sync_stream(&mut self, pieces: &Vec<StreamPiece>) -> (r: Vec<StreamUpdate>)
        ensures
            final(self)@ == (SplashView {
                last_streaming_text: stream_text(old(self)@.last_streaming_text, pieces_view(pieces@)),
                ..old(self)@
            }),
            updates_view(r@) == stream_updates(
                old(self)@.last_streaming_text,
                pieces_view(pieces@),
            ),
    {
        let mut updates: Vec<StreamUpdate> = Vec::new();
        let mut batch: Vec<String> = Vec::new();
        let mut i: usize = 0;
        let ghost before = self@;
        let ghost all = pieces_view(pieces@);
        assert(updates_view(updates@) =~= seq![]);
        assert(views(batch@) =~= seq![]);
        while i < pieces.len()
            invariant
                i <= pieces@.len(),
                all == pieces_view(pieces@),
                self@ == (SplashView { last_streaming_text: self@.last_streaming_text, ..before }),
                progressed(before.last_streaming_text, all.take(i as int)) == (StreamProgress {
                    text: self@.last_streaming_text,
                    updates: updates_view(updates@),
                    batch: views(batch@),
                }),
            decreases pieces@.len() - i,
        {
            assert(all.take(i + 1).drop_last() =~= all.take(i as int));
            assert(all.take(i + 1).last() == pieces@[i as int]@);
            match &pieces[i] {
                StreamPiece::Delta(delta) => {
                    let ghost waiting = batch@;
                    batch.push(delta.clone());
                    assert(views(batch@) =~= views(waiting).push(delta@));
                },
                StreamPiece::Complete => {
                    self.flush(&batch, &mut updates);
                    self.stream_complete();
                    batch = Vec::new();
                    assert(views(batch@) =~= seq![]);
                },
                StreamPiece::Response(content) => {
                    self.flush(&batch, &mut updates);
                    let ghost shown = updates@;
                    let update = self.show_response(content.as_str());
                    updates.push(update);
                    assert(updates_view(updates@) =~= updates_view(shown).push((content@, None)));
                    batch = Vec::new();
                    assert(views(batch@) =~= seq![]);
                },
            }
            i = i + 1;
        }
        assert(all.take(all.len() as int) =~= all);
        self.flush(&batch, &mut updates);
        updates
    }

    /// Takes in data that the runtime sends to the app. The result is the text
    /// for the `__pi_data` widget, where there is any.
    pub fn sync_pi_data_to_splash(&mut self, data: Option<String>) -> (r: Option<String>)
        ensures
            opt_view(r) == opt_view(data),
            final(self)@ == match opt_view(data) {
                Some(text) => SplashView { last_pi_data: text, ..old(self)@ },
                None => old(self)@,
            },
    {
        match data {
            Some(text) => {
                self.last_pi_data = text.clone();
                Some(text)
            },
            None => None,
        }
    }

    /// Looks at the response text of the app. Where it is new, it is remembered
    /// and the result is the message to send.
    pub fn poll_response(&mut self, text: &str) -> (r: Option<String>)
        ensures
            is_new_response(old(self)@, text@) ==> ({
                &&& final(self)@ == (SplashView { last_response: text@, ..old(self)@ })
                &&& r matches Some(message) && message@ == json_text(response_wire(text@))
                    && parsed_json(message@) == Some(response_wire(text@))
            }),
            !is_new_response(old(self)@, text@) ==> r is None && final(self)@ == old(self)@,
    {
        let given = text.to_string();
        if !text.is_empty() && given != self.last_response {
            self.last_response = given;
            Some(send_response(text))
        } else {
            None
        }
    }

    /// The body.
    pub fn text(&self) -> (r: String)
        ensures
            r@ == self@.body,
    {
        self.body.clone()
    }

    /// Sets the body. A body that differs has to be rendered again, and text that
    /// is streamed to it begins anew.
    pub fn set_text(&mut self, text: &str)
        ensures
            final(self)@ == if text@ == old(self)@.body {
                old(self)@
            } else {
                SplashView {
                    body: text@,
                    render_ok: false,
                    last_streaming_text: seq![],
                    ..old(self)@
                }
            },
    {
        let set = text.to_string();
        if self.body != set {
            self.body = set;
            self.render_ok = false;
            self.last_streaming_text = String::new();
        }
    }
}

/// A response that has been sent is not sent again until another one has been.
pub proof fn a_response_is_sent_once(widget: SplashView, text: Seq<char>)
    ensures
        !is_new_response(SplashView { last_response: text, ..widget }, text),
{
}

/// A body is evaluated whole, between the prefix and the suffix.
pub proof fn bodies_are_evaluated_whole(body: Seq<char>)
    ensures
        contains(wrapped(body), body),
{
    let at = SPLASH_PREFIX@.len() as int;
    assert(wrapped(body).subrange(at, at + body.len()) =~= body);
    assert(occurs_at(wrapped(body), body, at));
}

/// Streamed text adds up: it does not matter how the pieces are spread over
/// batches.
pub proof fn batches_add_up(text: Seq<char>, first: Seq<Seq<char>>, second: Seq<Seq<char>>)
    ensures
        extended(extended(text, first), second) == extended(text, first + second),
    decreases second.len(),
{
    let none = Seq::<char>::empty();
    if second.len() == 0 {
        assert(first + second =~= first);
        assert(extended(extended(text, first), second) =~= extended(text, first));
    } else {
        let fewer = second.drop_last();
        let both = first + second;
        batches_add_up(text, first, fewer);
        assert(both.drop_last() =~= first + fewer);
        assert(both.last() == second.last());
        joined_without_separator(second);
        joined_without_separator(both);
        assert(extended(extended(text, first), second) =~= extended(extended(text, first), fewer)
            + second.last());
        assert(extended(text, both) =~= extended(text, first + fewer) + second.last());
    }
}

proof fn joined_without_separator(texts: Seq<Seq<char>>)
    requires
        texts.len() > 0,
    ensures
        joined(texts, seq![]) == joined(texts.drop_last(), seq![]) + texts.last(),
{
    if texts.len() == 1 {
        assert(joined(texts.drop_last(), seq![]) =~= seq![]);
        assert(joined(texts, seq![]) =~= joined(texts.drop_last(), seq![]) + texts.last());
    } else {
        assert(joined(texts.drop_last(), seq![]) + Seq::<char>::empty() + texts.last() =~= joined(
            texts.drop_last(),
            seq![],
        ) + texts.last());
    }
}

/// After the end of a stream, or after a response, streamed text begins anew:
/// what came before does not show in it.
pub proof fn streams_begin_anew(text: Seq<char>, pieces: Seq<StreamPieceView>, delta: Seq<char>)
    requires
        pieces.len() > 0,
        pieces.last() is Complete || pieces.last() is Response,
    ensures
        stream_text(text, pieces.push(StreamPieceView::Delta(delta))) == delta,
{
    let more = pieces.push(StreamPieceView::Delta(delta));
    assert(more.drop_last() =~= pieces);
    let before = progressed(text, pieces);
    assert(before.text =~= seq![]);
    assert(before.batch =~= seq![]);
    assert(progressed(text, more).batch =~= seq![delta]);
    assert(joined(seq![delta], seq![]) =~= delta);
    assert(stream_text(text, more) =~= delta);
}

/// A piece of text is added behind the text of the stream that runs.
pub proof fn deltas_add_up(text: Seq<char>, pieces: Seq<StreamPieceView>, delta: Seq<char>)
    ensures
        stream_text(text, pieces.push(StreamPieceView::Delta(delta))) == stream_text(text, pieces)
            + delta,
{
    let more = pieces.push(StreamPieceView::Delta(delta));
    let before = progressed(text, pieces);
    assert(more.drop_last() =~= pieces);
    let batch = before.batch.push(delta);
    assert(batch.drop_last() =~= before.batch);
    joined_without_separator(batch);
    if before.batch.len() == 0 {
        assert(joined(before.batch, seq![]) =~= seq![]);
    }
    assert(stream_text(text, more) =~= stream_text(text, pieces) + delta);
}

/// Code that comes whole in a batch is run, whatever came before it.
pub proof fn new_code_is_run(text: Seq<char>, batch: Seq<char>, other: Seq<char>)
    requires
        fenced_code(batch) is Some,
    ensures
        code_to_run(text, batch) == fenced_code(batch),
        code_to_run(text, batch) == code_to_run(other, batch),
{
}

} // verus!
