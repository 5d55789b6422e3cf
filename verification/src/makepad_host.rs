//! The Makepad host: what it keeps of the messages that the runtime sends.
use vstd::prelude::*;

use crate::json;
use crate::json::{json_of, parsed_json, text_member, Json};
use crate::makepad_channel::{LinkAction, LinkEvent};
use crate::text;
use crate::text::opt_view;

pub mod agent_splash;
pub mod app;

verus! {

/// Where the host connects to by default.
pub const DEFAULT_WS_URL: &'static str = "ws://127.0.0.1:2341/ws";

/// What the connection shares with the user interface.
#[derive(Debug)]
pub struct HostState {
    /// The Splash body to show.
    pub splash_body: Option<String>,
    /// The app that it belongs to.
    pub app_id: Option<String>,
    /// What went wrong with it.
    pub error_msg: Option<String>,
    /// Whether the host should end.
    pub should_exit: bool,
    /// What came over the stream and has not been shown yet.
    pub stream: Vec<StreamPiece>,
    /// Data for the app that has not been handed out yet.
    pub pi_data: Option<String>,
}

/// A piece of what is shown in the `__ai_text` widget.
#[derive(Debug)]
pub enum StreamPiece {
    /// Text that is added to what is shown.
    Delta(String),
    /// The stream is complete.
    Complete,
    /// A response that takes the place of what is shown.
    Response(String),
}

/// The model of a piece.
#[verifier::ext_equal]
pub enum StreamPieceView {
    Delta(Seq<char>),
    Complete,
    Response(Seq<char>),
}

impl View for StreamPiece {
    type V = StreamPieceView;

    open spec fn view(&self) -> StreamPieceView {
        match self {
            StreamPiece::Delta(text) => StreamPieceView::Delta(text@),
            StreamPiece::Complete => StreamPieceView::Complete,
            StreamPiece::Response(text) => StreamPieceView::Response(text@),
        }
    }
}

/// The models of a list of pieces.
pub open spec fn pieces_view(pieces: Seq<StreamPiece>) -> Seq<StreamPieceView> {
    pieces.map_values(|p: StreamPiece| p@)
}

/// The model of the shared state.
#[verifier::ext_equal]
pub struct HostView {
    pub splash_body: Option<Seq<char>>,
    pub app_id: Option<Seq<char>>,
    pub error_msg: Option<Seq<char>>,
    pub should_exit: bool,
    pub stream: Seq<StreamPieceView>,
    pub pi_data: Option<Seq<char>>,
}

impl View for HostState {
    type V = HostView;

    open spec fn view(&self) -> HostView {
        HostView {
            splash_body: opt_view(self.splash_body),
            app_id: opt_view(self.app_id),
            error_msg: opt_view(self.error_msg),
            should_exit: self.should_exit,
            stream: pieces_view(self.stream@),
            pi_data: opt_view(self.pi_data),
        }
    }
}

/// What a message means to the user interface.
#[derive(Debug)]
pub enum HostNotice {
    /// There is something to look at.
    Signal,
    /// There is nothing to look at.
    Quiet,
    /// The text is no JSON.
    Unreadable,
    /// The message is of an unknown kind, or has none.
    Unknown(Option<String>),
}

/// The model of what a message means.
#[verifier::ext_equal]
pub enum HostNoticeView {
    Signal,
    Quiet,
    Unreadable,
    Unknown(Option<Seq<char>>),
}

impl View for HostNotice {
    type V = HostNoticeView;

    open spec fn view(&self) -> HostNoticeView {
        match self {
            HostNotice::Signal => HostNoticeView::Signal,
            HostNotice::Quiet => HostNoticeView::Quiet,
            HostNotice::Unreadable => HostNoticeView::Unreadable,
            HostNotice::Unknown(kind) => HostNoticeView::Unknown(opt_view(*kind)),
        }
    }
}

/// A text, or another where there is none.
pub open spec fn seq_or(text: Option<Seq<char>>, fallback: Seq<char>) -> Seq<char> {
    match text {
        Some(s) => s,
        None => fallback,
    }
}

/// The state after a launch: the app and its body, and no error.
pub open spec fn launched(state: HostView, body: Seq<char>, id: Seq<char>) -> HostView {
    HostView { splash_body: Some(body), app_id: Some(id), error_msg: None, ..state }
}

/// The state after the display is cleared. An error stays.
pub open spec fn cleared(state: HostView) -> HostView {
    HostView { splash_body: None, app_id: None, ..state }
}

/// The state after a piece has come over the stream.
pub open spec fn streamed_to(state: HostView, piece: StreamPieceView) -> HostView {
    HostView { stream: state.stream.push(piece), ..state }
}

/// The state after a message.
pub open spec fn host_after(state: HostView, message: Json) -> HostView {
    match text_member(message, "type"@) {
        Some(kind) => if kind == "launch"@ {
            launched(
                state,
                seq_or(text_member(message, "splash_body"@), seq![]),
                seq_or(text_member(message, "app_id"@), "app"@),
            )
        } else if kind == "clear"@ {
            cleared(state)
        } else if kind == "exit"@ {
            HostView { should_exit: true, ..state }
        } else if kind == "stream_delta"@ {
            match text_member(message, "delta"@) {
                Some(delta) => streamed_to(state, StreamPieceView::Delta(delta)),
                None => state,
            }
        } else if kind == "stream_complete"@ {
            streamed_to(state, StreamPieceView::Complete)
        } else if kind == "response"@ {
            match text_member(message, "content"@) {
                Some(content) => streamed_to(state, StreamPieceView::Response(content)),
                None => state,
            }
        } else if kind == "send_pi_response"@ {
            match text_member(message, "data"@) {
                Some(data) => HostView { pi_data: Some(data), ..state },
                None => state,
            }
        } else {
            state
        },
        None => state,
    }
}

/// What a message means to the user interface.
pub open spec fn host_notice(message: Json) -> HostNoticeView {
    match text_member(message, "type"@) {
        Some(kind) => if kind == "launch"@ || kind == "clear"@ || kind == "send_pi_response"@
            || kind == "exit"@ || kind == "stream_complete"@ {
            HostNoticeView::Signal
        } else if kind == "stream_delta"@ {
            if text_member(message, "delta"@) is Some {
                HostNoticeView::Signal
            } else {
                HostNoticeView::Quiet
            }
        } else if kind == "response"@ {
            if text_member(message, "content"@) is Some {
                HostNoticeView::Signal
            } else {
                HostNoticeView::Quiet
            }
        } else {
            HostNoticeView::Unknown(Some(kind))
        },
        None => HostNoticeView::Unknown(None),
    }
}

impl HostState {
    /// Nothing to show yet.
    pub fn new() -> (r: Self)
        ensures
            r@ == (HostView {
                splash_body: None,
                app_id: None,
                error_msg: None,
                should_exit: false,
                stream: seq![],
                pi_data: None,
            }),
    {
        let r = HostState {
            splash_body: None,
            app_id: None,
            error_msg: None,
            should_exit: false,
            stream: Vec::new(),
            pi_data: None,
        };
        assert(pieces_view(r.stream@) =~= seq![]);
        r
    }

    /// Takes in a message that has been read from its text.
    pub fn handle_ws_value(&mut self, parsed: &serde_json::Value) -> (r: HostNotice)
        ensures
            final(self)@ == host_after(old(self)@, json_of(*parsed)),
            r@ == host_notice(json_of(*parsed)),
    {
        let kind = match json::get_str(parsed, "type") {
            Some(kind) => kind,
            None => {
                return HostNotice::Unknown(None);
            },
        };
        proof {
            kinds_differ();
        }
        if text::same_text(kind, "launch") {
            self.splash_body = Some(text::or_text(json::get_str(parsed, "splash_body"), ""));
            self.app_id = Some(text::or_text(json::get_str(parsed, "app_id"), "app"));
            self.error_msg = None;
            proof {
                reveal_strlit("");
                assert(""@ =~= seq![]);
            }
            HostNotice::Signal
        } else if text::same_text(kind, "clear") {
            self.splash_body = None;
            self.app_id = None;
            HostNotice::Signal
        } else if text::same_text(kind, "send_pi_response") {
            if let Some(data) = json::get_str(parsed, "data") {
                self.pi_data = Some(data.to_string());
            }
            HostNotice::Signal
        } else if text::same_text(kind, "exit") {
            self.should_exit = true;
            HostNotice::Signal
        } else if text::same_text(kind, "stream_delta") {
            match json::get_str(parsed, "delta") {
                Some(delta) => {
                    self.push_piece(StreamPiece::Delta(delta.to_string()));
                    HostNotice::Signal
                },
                None => HostNotice::Quiet,
            }
        } else if text::same_text(kind, "stream_complete") {
            self.push_piece(StreamPiece::Complete);
            HostNotice::Signal
        } else if text::same_text(kind, "response") {
            match json::get_str(parsed, "content") {
                Some(content) => {
                    self.push_piece(StreamPiece::Response(content.to_string()));
                    HostNotice::Signal
                },
                None => HostNotice::Quiet,
            }
        } else {
            HostNotice::Unknown(Some(kind.to_string()))
        }
    }

    /// Takes in the text of a message from the runtime.
    pub fn handle_ws_message(&mut self, text: &str) -> (r: HostNotice)
        ensures
            match parsed_json(text@) {
                Some(message) => final(self)@ == host_after(old(self)@, message) && r@
                    == host_notice(message),
                None => final(self)@ == old(self)@ && r@ == HostNoticeView::Unreadable,
            },
    {
        match json::parse(text) {
            Ok(parsed) => self.handle_ws_value(&parsed),
            Err(_) => HostNotice::Unreadable,
        }
    }

    fn push_piece(&mut self, piece: StreamPiece)
        ensures
            final(self)@ == streamed_to(old(self)@, piece@),
    {
        let ghost before = self.stream@;
        self.stream.push(piece);
        assert(pieces_view(self.stream@) =~= pieces_view(before).push(piece@));
    }

    /// Takes out what came over the stream and has not been shown yet.
    pub fn take_stream(&mut self) -> (r: Vec<StreamPiece>)
        ensures
            pieces_view(r@) == old(self)@.stream,
            final(self)@ == (HostView { stream: seq![], ..old(self)@ }),
    {
        let mut out: Vec<StreamPiece> = Vec::new();
        std::mem::swap(&mut out, &mut self.stream);
        assert(pieces_view(self.stream@) =~= seq![]);
        out
    }

    /// Takes out the data for the app that has not been handed out yet.
    pub fn take_pi_data(&mut self) -> (r: Option<String>)
        ensures
            opt_view(r) == old(self)@.pi_data,
            final(self)@ == (HostView { pi_data: None, ..old(self)@ }),
    {
        self.pi_data.take()
    }
}

/// The kinds of messages that the host tells apart differ.
pub proof fn kinds_differ()
    ensures
        "send_pi_response"@ != "launch"@,
        "send_pi_response"@ != "clear"@,
        "send_pi_response"@ != "exit"@,
        "send_pi_response"@ != "stream_delta"@,
        "stream_complete"@ != "launch"@,
        "stream_complete"@ != "clear"@,
        "stream_complete"@ != "exit"@,
        "stream_complete"@ != "stream_delta"@,
        "stream_delta"@ != "launch"@,
        "stream_delta"@ != "clear"@,
        "stream_delta"@ != "exit"@,
        "response"@ != "launch"@,
        "response"@ != "clear"@,
        "response"@ != "exit"@,
        "response"@ != "stream_delta"@,
        "response"@ != "stream_complete"@,
        "response"@ != "send_pi_response"@,
        "stream_complete"@ != "send_pi_response"@,
{
    reveal_strlit("send_pi_response");
    reveal_strlit("launch");
    reveal_strlit("clear");
    reveal_strlit("exit");
    reveal_strlit("stream_delta");
    reveal_strlit("stream_complete");
    reveal_strlit("response");
    assert("response"@.len() == 8);
    assert("send_pi_response"@.len() == 16 && "stream_complete"@.len() == 15 && "launch"@.len()
        == 6);
    assert("clear"@.len() == 5 && "exit"@.len() == 4 && "stream_delta"@.len() == 12);
}

/// The authorization that the host presents when it connects, where it has a
/// token.
pub fn authorization(token: &Option<String>) -> (r: Option<String>)
    ensures
        opt_view(r) == match opt_view(*token) {
            Some(t) => Some("Bearer "@ + t),
            None => None,
        },
{
    match token {
        Some(t) => Some(text::concat("Bearer ", t.as_str())),
        None => None,
    }
}

/// Decides how the host goes on with its connection. It gives up only where a
/// session has ended and the host should end.
pub fn host_link_step(event: LinkEvent, should_exit: bool) -> (r: LinkAction)
    ensures
        r == if event == LinkEvent::SessionEnded && should_exit {
            LinkAction::GiveUp
        } else {
            LinkAction::Retry { milliseconds: 1000 }
        },
{
    match event {
        LinkEvent::SessionEnded => {
            if should_exit {
                LinkAction::GiveUp
            } else {
                LinkAction::Retry { milliseconds: 1000 }
            }
        },
        LinkEvent::ConnectFailed => LinkAction::Retry { milliseconds: 1000 },
    }
}

} // verus!
