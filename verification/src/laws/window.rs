//! What the window shows of the state of the host.
use vstd::prelude::*;

use crate::makepad_host::app::{
    changes_of, drawn, error_text, merged, shown_all, synced, AppView, Screen, UiTarget, UpdateView,
};
use crate::makepad_host::HostView;

verus! {

/// The newer of two texts, if there is one.
pub open spec fn newer(update: Option<Seq<char>>, waiting: Option<Seq<char>>) -> Option<Seq<char>> {
    if update is Some {
        update
    } else {
        waiting
    }
}

/// Nothing is shown and nothing waits to be.
pub open spec fn nothing_waits() -> UpdateView {
    UpdateView { splash_body: None, source_body: None, status: None, error_msg: None }
}

/// The update that waits, or one that changes nothing.
pub open spec fn waiting_in(app: AppView) -> UpdateView {
    if app.pending_update is Some {
        app.pending_update->Some_0
    } else {
        nothing_waits()
    }
}

/// An error is shown behind a warning sign, whole; where there is none, nothing
/// is.
pub proof fn errors_are_shown_whole(error: Seq<char>)
    ensures
        error_text(Some(error)) == "⚠ "@ + error,
        error_text(None).len() == 0,
{
}

/// A new app is shown whole, and its error with it: it is remembered, and its
/// body, its source, its name and its error wait to be drawn.
pub proof fn new_apps_wait_to_be_drawn(app: AppView, state: HostView)
    requires
        state.splash_body matches Some(body) && state.app_id matches Some(id) && (body
            != app.last_splash_body || id != app.last_app_id),
    ensures
        ({
            let body = state.splash_body->Some_0;
            let id = state.app_id->Some_0;
            let after = synced(app, state);
            &&& after.last_splash_body == body
            &&& after.last_app_id == id
            &&& after.last_error_msg == error_text(state.error_msg)
            &&& after.pending_update matches Some(update) && update.splash_body == Some(body)
                && update.source_body == Some(body) && update.status == Some("App: "@ + id)
                && update.error_msg == Some(error_text(state.error_msg))
        }),
{
}

/// An app without a name or without a body is shown with an empty one.
pub proof fn what_an_app_lacks_is_empty(app: AppView, state: HostView, text: Seq<char>)
    ensures
        ({
            let after = synced(app, HostView { splash_body: Some(text), app_id: None, ..state });
            after.last_splash_body == text && after.last_app_id.len() == 0
        }),
        ({
            let after = synced(app, HostView { splash_body: None, app_id: Some(text), ..state });
            after.last_splash_body.len() == 0 && after.last_app_id == text
        }),
{
}

/// An error that is new to the app that is shown waits to be drawn beside what
/// waits already; the app stays.
pub proof fn new_errors_wait_to_be_drawn(app: AppView, state: HostView)
    requires
        state.splash_body == Some(app.last_splash_body),
        state.app_id == Some(app.last_app_id),
        error_text(state.error_msg) != app.last_error_msg,
    ensures
        ({
            let after = synced(app, state);
            let update = waiting_in(after);
            &&& after.last_splash_body == app.last_splash_body
            &&& after.last_app_id == app.last_app_id
            &&& after.last_error_msg == error_text(state.error_msg)
            &&& after.pending_update is Some
            &&& update.error_msg == Some(error_text(state.error_msg))
            &&& update.splash_body == waiting_in(app).splash_body
            &&& update.source_body == waiting_in(app).source_body
            &&& update.status == waiting_in(app).status
        }),
{
}

/// Where nothing is new, nothing changes.
pub proof fn known_states_change_nothing(app: AppView, state: HostView)
    ensures
        state.splash_body == Some(app.last_splash_body) && state.app_id == Some(app.last_app_id)
            && error_text(state.error_msg) == app.last_error_msg ==> synced(app, state) == app,
        state.splash_body is None && state.app_id is None && app.last_app_id.len() == 0
            && app.last_splash_body.len() == 0 ==> synced(app, state) == app,
{
}

/// Where the app has gone, the window is emptied and says that it waits; the
/// error that it shows, or is about to show, stays.
pub proof fn apps_that_go_are_cleared(app: AppView, state: HostView)
    requires
        state.splash_body is None,
        state.app_id is None,
        app.last_app_id.len() > 0 || app.last_splash_body.len() > 0,
    ensures
        ({
            let after = synced(app, state);
            &&& after.last_app_id.len() == 0
            &&& after.last_splash_body.len() == 0
            &&& after.last_error_msg == app.last_error_msg
            &&& after.pending_update matches Some(update) && (update.splash_body matches Some(b)
                && b.len() == 0) && (update.source_body matches Some(s) && s.len() == 0)
                && update.status == Some("Waiting for app launch…"@) && update.error_msg
                == waiting_in(app).error_msg
        }),
{
}

/// An update that comes while another waits is made over it, text by text.
pub proof fn updates_are_merged_text_by_text(waiting: UpdateView, update: UpdateView)
    ensures
        merged(None, update) == update,
        ({
            let both = merged(Some(waiting), update);
            &&& both.splash_body == newer(update.splash_body, waiting.splash_body)
            &&& both.source_body == newer(update.source_body, waiting.source_body)
            &&& both.status == newer(update.status, waiting.status)
            &&& both.error_msg == newer(update.error_msg, waiting.error_msg)
        }),
{
}

/// Drawing puts every text that waits where it belongs, and leaves the rest of
/// the screen.
pub proof fn drawing_shows_what_waits(screen: Screen, app: AppView)
    ensures
        app.pending_update is None ==> drawn(screen, app) == screen,
        app.pending_update matches Some(update) ==> {
            let after = drawn(screen, app);
            &&& Some(after.error_line) == newer(update.error_msg, Some(screen.error_line))
            &&& Some(after.splash) == newer(update.splash_body, Some(screen.splash))
            &&& Some(after.source) == newer(update.source_body, Some(screen.source))
            &&& Some(after.status_line) == newer(update.status, Some(screen.status_line))
        },
{
    if app.pending_update is Some {
        shown_all(screen, app.pending_update->Some_0);
    }
}

/// The changes are made in this order, and one that is not wanted is not made.
pub proof fn changes_come_in_order(
    error: Seq<char>,
    body: Seq<char>,
    source: Seq<char>,
    status: Seq<char>,
    update: UpdateView,
)
    ensures
        changes_of(
            UpdateView {
                splash_body: Some(body),
                source_body: Some(source),
                status: Some(status),
                error_msg: Some(error),
            },
        ) == seq![
            (UiTarget::ErrorLine, error),
            (UiTarget::Splash, body),
            (UiTarget::Source, source),
            (UiTarget::StatusLine, status),
        ],
        changes_of(update).len() == counted(update.error_msg) + counted(update.splash_body)
            + counted(update.source_body) + counted(update.status),
{
}

/// How many texts there are.
pub open spec fn counted(text: Option<Seq<char>>) -> nat {
    if text is Some {
        1
    } else {
        0
    }
}

} // verus!
