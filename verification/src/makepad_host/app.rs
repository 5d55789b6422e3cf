//! The window of the host: which widgets change when the shared state changes.
use vstd::prelude::*;

use super::{HostState, HostView};
use crate::text;
use crate::text::opt_view;

verus! {

/// What the status line says while there is no app.
pub const WAITING_TEXT: &'static str = "Waiting for app launch…";

/// Changes that wait for the next drawing.
#[derive(Debug)]
pub struct PendingUiUpdate {
    pub splash_body: Option<String>,
    pub source_body: Option<String>,
    pub status: Option<String>,
    pub error_msg: Option<String>,
}

/// The model of the changes that wait.
#[verifier::ext_equal]
pub struct UpdateView {
    pub splash_body: Option<Seq<char>>,
    pub source_body: Option<Seq<char>>,
    pub status: Option<Seq<char>>,
    pub error_msg: Option<Seq<char>>,
}

impl View for PendingUiUpdate {
    type V = UpdateView;

    open spec fn view(&self) -> UpdateView {
        UpdateView {
            splash_body: opt_view(self.splash_body),
            source_body: opt_view(self.source_body),
            status: opt_view(self.status),
            error_msg: opt_view(self.error_msg),
        }
    }
}

/// The window: what it was last told to show, and what waits to be shown.
#[derive(Debug)]
pub struct MakepadHostApp {
    pub last_app_id: String,
    pub last_splash_body: String,
    pub pending_update: Option<PendingUiUpdate>,
    pub last_error_msg: String,
}

/// The model of the window.
#[verifier::ext_equal]
pub struct AppView {
    pub last_app_id: Seq<char>,
    pub last_splash_body: Seq<char>,
    pub pending_update: Option<UpdateView>,
    pub last_error_msg: Seq<char>,
}

impl View for MakepadHostApp {
    type V = AppView;

    open spec fn view(&self) -> AppView {
        AppView {
            last_app_id: self.last_app_id@,
            last_splash_body: self.last_splash_body@,
            pending_update: match self.pending_update {
                Some(update) => Some(update@),
                None => None,
            },
            last_error_msg: self.last_error_msg@,
        }
    }
}

/// What the window shows.
#[verifier::ext_equal]
pub struct Screen {
    pub error_line: Seq<char>,
    pub splash: Seq<char>,
    pub source: Seq<char>,
    pub status_line: Seq<char>,
}

/// The widgets whose text changes.
#[derive(Clone, Copy, Debug, PartialEq, Eq, Structural)]
pub enum UiTarget {
    ErrorLine,
    Splash,
    Source,
    StatusLine,
}

/// The new text of a widget.
#[derive(Debug)]
pub struct UiChange {
    pub target: UiTarget,
    pub text: String,
}

/// The model of a change.
pub open spec fn changes_view(changes: Seq<UiChange>) -> Seq<(UiTarget, Seq<char>)> {
    changes.map_values(|c: UiChange| (c.target, c.text@))
}

/// A change of one widget, where there is one.
pub open spec fn change(target: UiTarget, text: Option<Seq<char>>) -> Seq<(UiTarget, Seq<char>)> {
    match text {
        Some(text) => seq![(target, text)],
        None => seq![],
    }
}

/// The changes of an update, in the order in which they are made.
pub open spec fn changes_of(update: UpdateView) -> Seq<(UiTarget, Seq<char>)> {
    change(UiTarget::ErrorLine, update.error_msg) + change(UiTarget::Splash, update.splash_body)
        + change(UiTarget::Source, update.source_body) + change(UiTarget::StatusLine, update.status)
}

/// The screen after one change.
pub open spec fn changed(screen: Screen, step: (UiTarget, Seq<char>)) -> Screen {
    match step.0 {
        UiTarget::ErrorLine => Screen { error_line: step.1, ..screen },
        UiTarget::Splash => Screen { splash: step.1, ..screen },
        UiTarget::Source => Screen { source: step.1, ..screen },
        UiTarget::StatusLine => Screen { status_line: step.1, ..screen },
    }
}

/// The screen after changes made one by one.
pub open spec fn shown(screen: Screen, steps: Seq<(UiTarget, Seq<char>)>) -> Screen
    decreases steps.len(),
{
    if steps.len() == 0 {
        screen
    } else {
        changed(shown(screen, steps.drop_last()), steps.last())
    }
}

/// How an error is shown.
pub open spec fn error_text(error: Option<Seq<char>>) -> Seq<char> {
    match error {
        Some(e) => "⚠ "@ + e,
        None => seq![],
    }
}

/// A text, or the empty one.
pub open spec fn or_empty(text: Option<Seq<char>>) -> Seq<char> {
    match text {
        Some(s) => s,
        None => seq![],
    }
}

/// The update that clears the display.
pub open spec fn clearing() -> UpdateView {
    UpdateView {
        splash_body: Some(seq![]),
        source_body: Some(seq![]),
        status: Some(WAITING_TEXT@),
        error_msg: None,
    }
}

/// A text, or another one where there is none.
pub open spec fn or_else(text: Option<Seq<char>>, other: Option<Seq<char>>) -> Option<Seq<char>> {
    match text {
        Some(t) => Some(t),
        None => other,
    }
}

/// An update together with one that waits already: the newer one counts where
/// both change the same widget, and no change is lost.
pub open spec fn merged(waiting: Option<UpdateView>, update: UpdateView) -> UpdateView {
    match waiting {
        Some(older) => UpdateView {
            splash_body: or_else(update.splash_body, older.splash_body),
            source_body: or_else(update.source_body, older.source_body),
            status: or_else(update.status, older.status),
            error_msg: or_else(update.error_msg, older.error_msg),
        },
        None => update,
    }
}

/// The window after it has looked at the shared state. Without an app it is
/// cleared, once. With one, the error is shown where anything has changed, and
/// the app where it or its body has changed. Changes that wait already are still
/// made.
pub open spec fn synced(app: AppView, state: HostView) -> AppView {
    let error = error_text(state.error_msg);
    let body = or_empty(state.splash_body);
    let id = or_empty(state.app_id);
    if state.splash_body is None && state.app_id is None {
        if app.last_app_id.len() == 0 && app.last_splash_body.len() == 0 {
            app
        } else {
            AppView {
                last_app_id: seq![],
                last_splash_body: seq![],
                pending_update: Some(merged(app.pending_update, clearing())),
                ..app
            }
        }
    } else if body == app.last_splash_body && id == app.last_app_id && error
        == app.last_error_msg {
        app
    } else if body == app.last_splash_body && id == app.last_app_id {
        AppView {
            pending_update: Some(
                merged(
                    app.pending_update,
                    UpdateView {
                        splash_body: None,
                        source_body: None,
                        status: None,
                        error_msg: Some(error),
                    },
                ),
            ),
            last_error_msg: error,
            ..app
        }
    } else {
        AppView {
            last_app_id: id,
            last_splash_body: body,
            pending_update: Some(
                merged(
                    app.pending_update,
                    UpdateView {
                        splash_body: Some(body),
                        source_body: Some(body),
                        status: Some("App: "@ + id),
                        error_msg: Some(error),
                    },
                ),
            ),
            last_error_msg: error,
        }
    }
}

/// What the window does after it has looked at the shared state.
#[derive(Clone, Copy, Debug, PartialEq, Eq, Structural)]
pub enum SyncOutcome {
    /// The host should end.
    Exit,
    /// Go on.
    Continue,
}

/// What happens to the window.
#[derive(Clone, Copy, Debug, PartialEq, Eq, Structural)]
pub enum HostEvent {
    WindowClosed,
    Draw,
    Startup,
    Signal,
    Other,
}

/// What the window does about it, beside handing it to its widgets.
#[derive(Clone, Copy, Debug, PartialEq, Eq, Structural)]
pub enum EventPlan {
    /// End the host.
    Exit,
    /// Make the waiting changes first.
    ApplyFirst,
    /// Look at the shared state afterwards.
    SyncAfter,
    /// Nothing else.
    PassOn,
}

/// Decides what the window does about an event.
pub fn handle_event(event: HostEvent) -> (r: EventPlan)
    ensures
        r == match event {
            HostEvent::WindowClosed => EventPlan::Exit,
            HostEvent::Draw => EventPlan::ApplyFirst,
            HostEvent::Startup => EventPlan::SyncAfter,
            HostEvent::Signal => EventPlan::SyncAfter,
            HostEvent::Other => EventPlan::PassOn,
        },
{
    match event {
        HostEvent::WindowClosed => EventPlan::Exit,
        HostEvent::Draw => EventPlan::ApplyFirst,
        HostEvent::Startup => EventPlan::SyncAfter,
        HostEvent::Signal => EventPlan::SyncAfter,
        HostEvent::Other => EventPlan::PassOn,
    }
}

fn show_error(error: &Option<String>) -> (r: String)
    ensures
        r@ == error_text(opt_view(*error)),
{
    match error {
        Some(e) => text::concat("⚠ ", e.as_str()),
        None => String::new(),
    }
}

fn copy_or_empty(text: &Option<String>) -> (r: String)
    ensures
        r@ == or_empty(opt_view(*text)),
{
    match text {
        Some(s) => s.clone(),
        None => String::new(),
    }
}

fn newer(text: Option<String>, other: Option<String>) -> (r: Option<String>)
    ensures
        opt_view(r) == or_else(opt_view(text), opt_view(other)),
{
    match text {
        Some(t) => Some(t),
        None => other,
    }
}

fn push_change(changes: &mut Vec<UiChange>, target: UiTarget, text: Option<String>)
    ensures
        changes_view(final(changes)@) == changes_view(old(changes)@) + change(
            target,
            opt_view(text),
        ),
{
    let ghost before = changes@;
    if let Some(text) = text {
        changes.push(UiChange { target, text });
    }
    assert(changes_view(changes@) =~= changes_view(before) + change(target, opt_view(text)));
}

impl MakepadHostApp {
    /// A window that shows nothing yet.
    pub fn new() -> (r: Self)
        ensures
            r@ == (AppView {
                last_app_id: seq![],
                last_splash_body: seq![],
                pending_update: None,
                last_error_msg: seq![],
            }),
    {
        MakepadHostApp {
            last_app_id: String::new(),
            last_splash_body: String::new(),
            pending_update: None,
            last_error_msg: String::new(),
        }
    }

    /// Leaves an update for the next drawing, beside what waits already.
    fn defer(&mut self, update: PendingUiUpdate)
        ensures
            final(self)@ == (AppView {
                pending_update: Some(merged(old(self)@.pending_update, update@)),
                ..old(self)@
            }),
    {
        let waiting = self.pending_update.take();
        self.pending_update =
        Some(
            match waiting {
                Some(older) => PendingUiUpdate {
                    splash_body: newer(update.splash_body, older.splash_body),
                    source_body: newer(update.source_body, older.source_body),
                    status: newer(update.status, older.status),
                    error_msg: newer(update.error_msg, older.error_msg),
                },
                None => update,
            },
        );
    }

    /// Looks at the shared state and prepares the changes for the next drawing.
    pub fn sync_from_state(&mut self, state: &HostState) -> (r: SyncOutcome)
        ensures
            state.should_exit ==> r == SyncOutcome::Exit && final(self)@ == old(self)@,
            !state.should_exit ==> r == SyncOutcome::Continue && final(self)@ == synced(
                old(self)@,
                state@,
            ),
    {
        if state.should_exit {
            return SyncOutcome::Exit;
        }
        let error = show_error(&state.error_msg);
        if state.splash_body.is_none() && state.app_id.is_none() {
            if self.last_app_id.as_str().is_empty() && self.last_splash_body.as_str().is_empty() {
                return SyncOutcome::Continue;
            }
            self.last_app_id = String::new();
            self.last_splash_body = String::new();
            self.defer(
                PendingUiUpdate {
                    splash_body: Some(String::new()),
                    source_body: Some(String::new()),
                    status: Some(WAITING_TEXT.to_string()),
                    error_msg: None,
                },
            );
            return SyncOutcome::Continue;
        }
        let body = copy_or_empty(&state.splash_body);
        let id = copy_or_empty(&state.app_id);
        let same_app = body == self.last_splash_body && id == self.last_app_id;
        if same_app && error == self.last_error_msg {
            return SyncOutcome::Continue;
        }
        self.last_error_msg = error.clone();
        if same_app {
            self.defer(
                PendingUiUpdate {
                    splash_body: None,
                    source_body: None,
                    status: None,
                    error_msg: Some(error),
                },
            );
        } else {
            self.defer(
                PendingUiUpdate {
                    splash_body: Some(body.clone()),
                    source_body: Some(body.clone()),
                    status: Some(text::concat("App: ", id.as_str())),
                    error_msg: Some(error),
                },
            );
            self.last_app_id = id;
            self.last_splash_body = body;
        }
        SyncOutcome::Continue
    }

    /// Takes out the changes that wait, in the order in which they are made.
    pub fn apply_pending_updates(&mut self) -> (r: Vec<UiChange>)
        ensures
            changes_view(r@) == match old(self)@.pending_update {
                Some(update) => changes_of(update),
                None => seq![],
            },
            final(self)@ == (AppView { pending_update: None, ..old(self)@ }),
    {
        let mut changes: Vec<UiChange> = Vec::new();
        assert(changes_view(changes@) =~= seq![]);
        match self.pending_update.take() {
            Some(update) => {
                push_change(&mut changes, UiTarget::ErrorLine, update.error_msg);
                push_change(&mut changes, UiTarget::Splash, update.splash_body);
                push_change(&mut changes, UiTarget::Source, update.source_body);
                push_change(&mut changes, UiTarget::StatusLine, update.status);
                assert(changes_view(changes@) =~= changes_of(update@));
            },
            None => {},
        }
        changes
    }
}

/// Looking at the same state twice changes nothing more.
pub proof fn syncing_twice_is_syncing_once(app: AppView, state: HostView)
    ensures
        synced(synced(app, state), state) == synced(app, state),
{
}

/// The screen shows what the window was last told to show.
pub open spec fn screen_agrees(screen: Screen, app: AppView) -> bool {
    &&& screen.error_line == app.last_error_msg
    &&& screen.splash == app.last_splash_body
    &&& screen.source == app.last_splash_body
    &&& status_agrees(screen.status_line, app)
}

/// The status line names the app. Where the window was last told to show nothing
/// at all, it says that it waits, or names the app without a name that it was
/// told to show.
pub open spec fn status_agrees(status: Seq<char>, app: AppView) -> bool {
    if app.last_app_id.len() == 0 && app.last_splash_body.len() == 0 {
        status == WAITING_TEXT@ || status == "App: "@ + app.last_app_id
    } else {
        status == "App: "@ + app.last_app_id
    }
}

/// The screen after the waiting changes have been made.
pub open spec fn drawn(screen: Screen, app: AppView) -> Screen {
    match app.pending_update {
        Some(update) => shown(screen, changes_of(update)),
        None => screen,
    }
}

/// An update changes what it speaks of, and leaves the rest of the screen.
pub proof fn shown_all(screen: Screen, update: UpdateView)
    ensures
        shown(screen, changes_of(update)) == (Screen {
            error_line: match update.error_msg {
                Some(t) => t,
                None => screen.error_line,
            },
            splash: match update.splash_body {
                Some(t) => t,
                None => screen.splash,
            },
            source: match update.source_body {
                Some(t) => t,
                None => screen.source,
            },
            status_line: match update.status {
                Some(t) => t,
                None => screen.status_line,
            },
        }),
{
    let e = change(UiTarget::ErrorLine, update.error_msg);
    let sp = change(UiTarget::Splash, update.splash_body);
    let so = change(UiTarget::Source, update.source_body);
    let st = change(UiTarget::StatusLine, update.status);
    shown_one(screen, seq![], UiTarget::ErrorLine, update.error_msg);
    assert(Seq::<(UiTarget, Seq<char>)>::empty() + e =~= e);
    shown_one(screen, e, UiTarget::Splash, update.splash_body);
    shown_one(screen, e + sp, UiTarget::Source, update.source_body);
    shown_one(screen, e + sp + so, UiTarget::StatusLine, update.status);
}

proof fn shown_one(
    screen: Screen,
    steps: Seq<(UiTarget, Seq<char>)>,
    target: UiTarget,
    text: Option<Seq<char>>,
)
    ensures
        shown(screen, steps + change(target, text)) == match text {
            Some(t) => changed(shown(screen, steps), (target, t)),
            None => shown(screen, steps),
        },
{
    let more = steps + change(target, text);
    match text {
        Some(t) => {
            assert(more.drop_last() =~= steps);
            assert(more.last() == (target, t));
        },
        None => {
            assert(more =~= steps);
        },
    }
}

/// The screen shows, once the waiting changes are made, what the window was last
/// told to show; and where there is an app, that is the body, the source and the
/// error of the shared state. It does not matter how often the window looks
/// before it draws.
pub proof fn screen_follows_state(screen: Screen, app: AppView, state: HostView)
    requires
        screen_agrees(drawn(screen, app), app),
    ensures
        ({
            let after = synced(app, state);
            let screen2 = drawn(screen, after);
            &&& screen_agrees(screen2, after)
            &&& state.splash_body is Some || state.app_id is Some ==> screen2.splash == or_empty(
                state.splash_body,
            ) && screen2.source == or_empty(state.splash_body) && screen2.error_line == error_text(
                state.error_msg,
            )
            &&& state.splash_body is None && state.app_id is None ==> screen2.splash.len() == 0
                && screen2.source.len() == 0
        }),
{
    let after = synced(app, state);
    match app.pending_update {
        Some(update) => {
            shown_all(screen, update);
        },
        None => {},
    }
    match after.pending_update {
        Some(update) => {
            shown_all(screen, update);
        },
        None => {},
    }
}

/// Changes that wait are made: whatever an update changes is still changed when
/// another one comes before the drawing, if not by that one.
pub proof fn waiting_changes_are_made(waiting: UpdateView, update: UpdateView)
    ensures
        ({
            let both = merged(Some(waiting), update);
            &&& waiting.splash_body is Some ==> both.splash_body is Some
            &&& waiting.source_body is Some ==> both.source_body is Some
            &&& waiting.status is Some ==> both.status is Some
            &&& waiting.error_msg is Some ==> both.error_msg is Some
            &&& update.splash_body is None ==> both.splash_body == waiting.splash_body
            &&& update.source_body is None ==> both.source_body == waiting.source_body
            &&& update.status is None ==> both.status == waiting.status
            &&& update.error_msg is None ==> both.error_msg == waiting.error_msg
        }),
{
}

} // verus!
