use octos_makepad::launch_app::launch_message;
use octos_makepad::makepad_channel::{LinkAction, LinkEvent, MakepadChannel};
use octos_makepad::makepad_host::agent_splash;
use octos_makepad::makepad_host::agent_splash::{
    accepts, find_code_to_run, run_splash_code, send_response, AgentSplash, Evaluated, EMPTY_VIEW, EVALUATION_ERROR,
    SPLASH_PREFIX, SPLASH_SUFFIX, SplashEvent, SplashPlan,
};
use octos_makepad::makepad_host::app::{
    handle_event, EventPlan, HostEvent, MakepadHostApp, SyncOutcome, UiTarget, WAITING_TEXT,
};
use octos_makepad::makepad_host::{
    authorization, host_link_step, HostNotice, HostState, StreamPiece, DEFAULT_WS_URL,
};
use octos_makepad::protocol::{build_launch_message, build_response_message, build_stream_delta};

const VIEW: Evaluated = Evaluated { is_err: false, is_nil: false, is_object: true };
const NIL: Evaluated = Evaluated { is_err: false, is_nil: true, is_object: false };

fn changes(app: &mut MakepadHostApp) -> Vec<(UiTarget, String)> {
    app.apply_pending_updates().into_iter().map(|c| (c.target, c.text)).collect()
}

#[test]
fn a_launch_replaces_the_app_and_the_error() {
    let mut state = HostState::new();
    state.error_msg = Some("old".into());
    let notice = state.handle_ws_message(&build_launch_message("B", Some("I".into())));
    assert!(matches!(notice, HostNotice::Signal));
    assert_eq!(state.splash_body.as_deref(), Some("B"));
    assert_eq!(state.app_id.as_deref(), Some("I"));
    assert!(state.error_msg.is_none());
    state.handle_ws_message(&launch_message("C", "J"));
    assert_eq!(state.splash_body.as_deref(), Some("C"));
    assert_eq!(state.app_id.as_deref(), Some("J"));
}

#[test]
fn a_launch_without_members_has_defaults() {
    let mut state = HostState::new();
    state.handle_ws_message(r#"{"type":"launch","splash_body":7}"#);
    assert_eq!(state.splash_body.as_deref(), Some(""));
    assert_eq!(state.app_id.as_deref(), Some("app"));
}

#[test]
fn a_clear_keeps_the_error() {
    let mut state = HostState::new();
    state.handle_ws_message(&build_launch_message("B", None));
    state.error_msg = Some("bad".into());
    assert!(matches!(state.handle_ws_message(r#"{"type":"clear"}"#), HostNotice::Signal));
    assert!(state.splash_body.is_none() && state.app_id.is_none());
    assert_eq!(state.error_msg.as_deref(), Some("bad"));
}

#[test]
fn the_stream_is_kept_in_order() {
    let mut state = HostState::new();
    assert!(matches!(state.handle_ws_message(&build_stream_delta("a", Some(0))), HostNotice::Signal));
    state.handle_ws_message(&build_stream_delta("b", None));
    assert!(matches!(state.handle_ws_message(r#"{"type":"stream_delta"}"#), HostNotice::Quiet));
    assert!(matches!(state.handle_ws_message(r#"{"type":"stream_complete"}"#), HostNotice::Signal));
    let response = build_response_message("c", None);
    assert!(matches!(state.handle_ws_message(&response), HostNotice::Signal));
    assert!(matches!(state.handle_ws_message(r#"{"type":"response"}"#), HostNotice::Quiet));
    let pieces = state.take_stream();
    assert_eq!(pieces.len(), 4);
    assert!(matches!(&pieces[0], StreamPiece::Delta(t) if t == "a"));
    assert!(matches!(&pieces[1], StreamPiece::Delta(t) if t == "b"));
    assert!(matches!(&pieces[2], StreamPiece::Complete));
    assert!(matches!(&pieces[3], StreamPiece::Response(t) if t == "c"));
    assert!(state.take_stream().is_empty());
}

#[test]
fn data_for_the_app_is_handed_out_once() {
    let mut state = HostState::new();
    let mut widget = AgentSplash::new();
    let notice = state.handle_ws_message(r#"{"type":"send_pi_response","data":"d"}"#);
    assert!(matches!(notice, HostNotice::Signal));
    let notice = state.handle_ws_message(r#"{"type":"send_pi_response","data":5}"#);
    assert!(matches!(notice, HostNotice::Signal));
    assert_eq!(state.pi_data.as_deref(), Some("d"));
    assert_eq!(widget.sync_pi_data_to_splash(state.take_pi_data()).as_deref(), Some("d"));
    assert!(widget.sync_pi_data_to_splash(state.take_pi_data()).is_none());
}

#[test]
fn other_messages_leave_the_state() {
    let mut state = HostState::new();
    assert!(matches!(state.handle_ws_message("{"), HostNotice::Unreadable));
    assert!(matches!(state.handle_ws_message("[]"), HostNotice::Unknown(None)));
    assert!(matches!(
        state.handle_ws_message(r#"{"type":"pong"}"#),
        HostNotice::Unknown(Some(kind)) if kind == "pong"
    ));
    assert!(state.splash_body.is_none() && state.stream.is_empty() && !state.should_exit);
    assert!(matches!(state.handle_ws_message(r#"{"type":"exit"}"#), HostNotice::Signal));
    assert!(state.should_exit);
}

#[test]
fn a_token_becomes_an_authorization() {
    assert_eq!(authorization(&Some("t0".into())).as_deref(), Some("Bearer t0"));
    assert!(authorization(&None).is_none());
}

#[test]
fn the_host_stays_connected_until_it_should_end() {
    let retry = LinkAction::Retry { milliseconds: 1000 };
    assert_eq!(host_link_step(LinkEvent::ConnectFailed, false), retry);
    assert_eq!(host_link_step(LinkEvent::ConnectFailed, true), retry);
    assert_eq!(host_link_step(LinkEvent::SessionEnded, false), retry);
    assert_eq!(host_link_step(LinkEvent::SessionEnded, true), LinkAction::GiveUp);
    assert_eq!(DEFAULT_WS_URL, "ws://127.0.0.1:2341/ws");
}

#[test]
fn the_window_shows_a_launched_app() {
    let mut state = HostState::new();
    let mut app = MakepadHostApp::new();
    assert_eq!(app.sync_from_state(&state), SyncOutcome::Continue);
    assert!(changes(&mut app).is_empty());
    state.handle_ws_message(&build_launch_message("B", Some("I".into())));
    assert_eq!(app.sync_from_state(&state), SyncOutcome::Continue);
    assert_eq!(
        changes(&mut app),
        vec![
            (UiTarget::ErrorLine, String::new()),
            (UiTarget::Splash, "B".into()),
            (UiTarget::Source, "B".into()),
            (UiTarget::StatusLine, "App: I".into()),
        ]
    );
    app.sync_from_state(&state);
    assert!(changes(&mut app).is_empty());
}

#[test]
fn the_window_shows_an_error_alone() {
    let mut state = HostState::new();
    let mut app = MakepadHostApp::new();
    state.handle_ws_message(&build_launch_message("B", None));
    app.sync_from_state(&state);
    changes(&mut app);
    state.error_msg = Some(EVALUATION_ERROR.into());
    app.sync_from_state(&state);
    assert_eq!(
        changes(&mut app),
        vec![(UiTarget::ErrorLine, "⚠ Failed to evaluate Splash DSL body".into())]
    );
    app.sync_from_state(&state);
    assert!(app.pending_update.is_none());
}

#[test]
fn the_window_is_cleared_once() {
    let mut state = HostState::new();
    let mut app = MakepadHostApp::new();
    state.handle_ws_message(&build_launch_message("B", None));
    app.sync_from_state(&state);
    changes(&mut app);
    state.handle_ws_message(r#"{"type":"clear"}"#);
    app.sync_from_state(&state);
    assert_eq!(
        changes(&mut app),
        vec![
            (UiTarget::Splash, String::new()),
            (UiTarget::Source, String::new()),
            (UiTarget::StatusLine, WAITING_TEXT.into()),
        ]
    );
    app.sync_from_state(&state);
    assert!(app.pending_update.is_none());
    assert_eq!(WAITING_TEXT, "Waiting for app launch…");
}

#[test]
fn the_window_ends_when_told() {
    let mut state = HostState::new();
    let mut app = MakepadHostApp::new();
    state.handle_ws_message(&build_launch_message("B", None));
    state.handle_ws_message(r#"{"type":"exit"}"#);
    assert_eq!(app.sync_from_state(&state), SyncOutcome::Exit);
    assert!(app.pending_update.is_none());
}

#[test]
fn events_of_the_window() {
    assert_eq!(handle_event(HostEvent::WindowClosed), EventPlan::Exit);
    assert_eq!(handle_event(HostEvent::Draw), EventPlan::ApplyFirst);
    assert_eq!(handle_event(HostEvent::Startup), EventPlan::SyncAfter);
    assert_eq!(handle_event(HostEvent::Signal), EventPlan::SyncAfter);
    assert_eq!(handle_event(HostEvent::Other), EventPlan::PassOn);
}

#[test]
fn a_body_is_wrapped_for_evaluation() {
    let mut widget = AgentSplash::new();
    assert_eq!(widget.eval_body(), EMPTY_VIEW);
    assert_eq!(EMPTY_VIEW, "use mod.prelude.widgets.*View{width:Fill height:Fit}");
    assert!(widget.code_to_render().is_none());
    assert!(widget.eval_outcome(NIL));
    widget.set_text("Label{}");
    assert_eq!(widget.text(), "Label{}");
    let code = format!("{SPLASH_PREFIX}Label{{}}{SPLASH_SUFFIX}");
    assert!(code.starts_with("use mod.prelude.widgets.*View{width:Fill height:Fit flow:Down Label{}  __run_splash := "));
    assert!(code.ends_with("__pi_data := Label{text:\" \" visible:false}"));
    assert_eq!(widget.eval_body(), code);
    assert_eq!(widget.code_to_render().unwrap(), code);
    assert!(widget.eval_outcome(VIEW));
    assert!(!widget.eval_outcome(NIL));
}

#[test]
fn a_body_is_rendered_until_that_works() {
    let mut widget = AgentSplash::new();
    widget.set_text("B");
    assert_eq!(widget.rendered(NIL).as_deref(), Some(EVALUATION_ERROR));
    assert!(widget.code_to_render().is_some());
    assert!(widget.rendered(VIEW).is_none());
    assert!(widget.code_to_render().is_none());
    widget.set_text("B");
    assert!(widget.code_to_render().is_none());
    widget.set_text("C");
    assert!(widget.code_to_render().is_some());
}

#[test]
fn only_an_object_becomes_the_view() {
    let mut widget = AgentSplash::new();
    let failed = Evaluated { is_err: true, is_nil: false, is_object: true };
    assert!(widget.replaces_view(failed));
    assert!(!widget.replaces_view(NIL));
    widget.set_text("B");
    assert!(!widget.replaces_view(failed));
    assert!(widget.replaces_view(VIEW));
    assert!(accepts(VIEW) && !accepts(NIL) && !accepts(failed));
}

#[test]
fn streamed_text_is_joined_and_its_code_is_found() {
    let mut widget = AgentSplash::new();
    assert!(widget.sync_streaming_text(&vec![]).is_none());
    let update = widget.sync_streaming_text(&vec!["See ```run".into(), "splash\nLabel{}``` ok".into()]).unwrap();
    assert_eq!(update.ai_text, "See ```runsplash\nLabel{}``` ok");
    assert_eq!(update.run_splash.as_deref(), Some("\nLabel{}"));
    widget.stream_complete();
    let update = widget.sync_streaming_text(&vec!["plain".into()]).unwrap();
    assert_eq!(update.ai_text, "plain");
    assert!(update.run_splash.is_none());
}

#[test]
fn streamed_text_adds_up() {
    let mut widget = AgentSplash::new();
    let update = widget.sync_streaming_text(&vec!["Hello ".into()]).unwrap();
    assert_eq!(update.ai_text, "Hello ");
    let update = widget.sync_streaming_text(&vec!["wor".into(), "ld".into()]).unwrap();
    assert_eq!(update.ai_text, "Hello world");
    assert!(widget.sync_streaming_text(&vec![]).is_none());
    let update = widget.sync_streaming_text(&vec!["!".into()]).unwrap();
    assert_eq!(update.ai_text, "Hello world!");
}

#[test]
fn a_stream_is_shown_piece_by_piece() {
    let mut state = HostState::new();
    let mut widget = AgentSplash::new();
    for text in [
        build_stream_delta("Hello ", None),
        build_stream_delta("world", None),
        r#"{"type":"stream_complete"}"#.to_string(),
        build_stream_delta("Anew", None),
        MakepadChannel::new(1).send("Whole ```runsplash x```"),
        build_stream_delta("Again", None),
    ] {
        state.handle_ws_message(&text);
    }
    let shown = widget.sync_stream(&state.take_stream());
    let texts: Vec<&str> = shown.iter().map(|u| u.ai_text.as_str()).collect();
    assert_eq!(texts, vec!["Hello world", "Anew", "Whole ```runsplash x```", "Again"]);
    assert!(shown.iter().all(|u| u.run_splash.is_none()));
    assert!(widget.sync_stream(&vec![]).is_empty());
    assert_eq!(widget.show_response("r").ai_text, "r");
}

#[test]
fn code_stands_between_the_first_fences() {
    assert_eq!(run_splash_code("```runsplash a``` ```runsplash b```").as_deref(), Some(" a"));
    assert_eq!(run_splash_code("```runsplash```").as_deref(), Some(""));
    assert_eq!(run_splash_code("é```runsplashü``").as_deref(), None);
    assert_eq!(run_splash_code("```splash a```").as_deref(), None);
    assert_eq!(run_splash_code("").as_deref(), None);
}

#[test]
fn a_response_is_sent_when_it_is_new() {
    let mut widget = AgentSplash::new();
    assert!(widget.poll_response("").is_none());
    assert_eq!(
        widget.poll_response("hi").unwrap(),
        r#"{"type":"pi_response","content":"hi"}"#
    );
    assert!(widget.poll_response("hi").is_none());
    assert!(widget.poll_response("").is_none());
    assert_eq!(widget.poll_response("ho").unwrap(), send_response("ho"));
    assert!(widget.poll_response("hi").is_some());
}

#[test]
fn an_error_joins_a_change_that_waits() {
    let mut state = HostState::new();
    let mut app = MakepadHostApp::new();
    state.handle_ws_message(&build_launch_message("B", None));
    app.sync_from_state(&state);
    state.error_msg = Some("bad".into());
    app.sync_from_state(&state);
    assert_eq!(
        changes(&mut app),
        vec![
            (UiTarget::ErrorLine, "⚠ bad".into()),
            (UiTarget::Splash, "B".into()),
            (UiTarget::Source, "B".into()),
            (UiTarget::StatusLine, "App: app".into()),
        ]
    );
}

#[test]
fn a_clear_keeps_an_error_that_waits() {
    let mut state = HostState::new();
    let mut app = MakepadHostApp::new();
    state.handle_ws_message(&build_launch_message("B", None));
    state.error_msg = Some("bad".into());
    app.sync_from_state(&state);
    state.handle_ws_message(r#"{"type":"clear"}"#);
    app.sync_from_state(&state);
    assert_eq!(
        changes(&mut app),
        vec![
            (UiTarget::ErrorLine, "⚠ bad".into()),
            (UiTarget::Splash, String::new()),
            (UiTarget::Source, String::new()),
            (UiTarget::StatusLine, WAITING_TEXT.into()),
        ]
    );
}

#[test]
fn a_new_launch_takes_the_place_of_a_launch_that_waits() {
    let mut state = HostState::new();
    let mut app = MakepadHostApp::new();
    state.handle_ws_message(&build_launch_message("B", None));
    app.sync_from_state(&state);
    state.handle_ws_message(&build_launch_message("C", None));
    app.sync_from_state(&state);
    let shown = changes(&mut app);
    assert_eq!(shown[1], (UiTarget::Splash, "C".into()));
    assert_eq!(shown[3], (UiTarget::StatusLine, "App: app".into()));
}

#[test]
fn events_of_the_widget() {
    assert_eq!(agent_splash::handle_event(SplashEvent::Signal), SplashPlan::SyncFirst);
    assert_eq!(agent_splash::handle_event(SplashEvent::Startup), SplashPlan::EvaluateAfter);
    assert_eq!(agent_splash::handle_event(SplashEvent::BeforeFirstDraw), SplashPlan::RenderAfter);
    assert_eq!(agent_splash::handle_event(SplashEvent::Other), SplashPlan::PassOn);
}

#[test]
fn each_block_of_code_is_run_when_it_is_complete() {
    let mut widget = AgentSplash::new();
    let mut run = |text: &str| widget.sync_streaming_text(&vec![text.to_string()]).unwrap().run_splash;
    assert_eq!(run("```runsplash A```").as_deref(), Some(" A"));
    assert_eq!(run(" words ").as_deref(), None);
    assert_eq!(run("```runsplash B```").as_deref(), Some(" B"));
    assert_eq!(run("```run").as_deref(), None);
    assert_eq!(run("splash C").as_deref(), None);
    assert_eq!(run("D``").as_deref(), None);
    assert_eq!(run("` and ```runsplash E").as_deref(), Some(" CD"));
    assert_eq!(run("é```").as_deref(), Some(" Eé"));
    assert_eq!(run("```runsplash F``` ```runsplash G```").as_deref(), Some(" F"));
    assert_eq!(find_code_to_run("```runsplash A```", " B").as_deref(), None);
}

#[test]
fn pieces_that_follow_one_another_are_one_batch() {
    let mut widget = AgentSplash::new();
    let pieces = vec![
        StreamPiece::Delta("```run".into()),
        StreamPiece::Delta("splash A```".into()),
        StreamPiece::Delta("```runsplash B```".into()),
    ];
    let shown = widget.sync_stream(&pieces);
    assert_eq!(shown.len(), 1);
    assert_eq!(shown[0].run_splash.as_deref(), Some(" A"));
}

#[test]
fn text_for_another_body_begins_anew() {
    let mut widget = AgentSplash::new();
    widget.set_text("B");
    widget.sync_streaming_text(&vec!["Hello ".into()]);
    widget.set_text("B");
    let update = widget.sync_streaming_text(&vec!["world".into()]).unwrap();
    assert_eq!(update.ai_text, "Hello world");
    widget.set_text("C");
    let update = widget.sync_streaming_text(&vec!["x".into()]).unwrap();
    assert_eq!(update.ai_text, "x");
}
