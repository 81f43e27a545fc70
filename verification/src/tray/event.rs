//! Clicks on the tray icon.

use crate::event_handler::StepView;
use crate::host::{
    HostCall, HostCallView, HostError, HostReply, HostReplyView, Progress, ProgressView,
};
use crate::state::{App, AppView, MenuState, MenuStateError, WindowState, WindowStateError};
use crate::text::joined;
use crate::tray::toggle::{toggle, toggle_step, ToggleError, ToggleErrorView, ToggleStage};
use vstd::prelude::*;

verus! {

/// The identifier of the menu entry that hides or shows the window.
pub const HIDE_OR_SHOW_ID: &'static str = "Hide";

/// The label of that entry while the window is visible.
pub const HIDE_LABEL: &'static str = "Hide";

/// The label of that entry while the window is hidden.
pub const SHOW_LABEL: &'static str = "Show";

/// A button of the pointing device.
#[derive(Clone, Copy, Debug, PartialEq, Eq, Structural)]
pub enum MouseButton {
    Left,
    Right,
    Middle,
}

/// Whether a button went down or came up.
#[derive(Clone, Copy, Debug, PartialEq, Eq, Structural)]
pub enum MouseButtonState {
    Up,
    Down,
}

/// What the pointer did on the tray icon.
#[derive(Clone, Copy, Debug, PartialEq, Eq, Structural)]
pub enum TrayIconEvent {
    /// A button changed its state over the icon.
    Click { button: MouseButton, button_state: MouseButtonState },
    /// Anything else: a double click, or the pointer entering, moving over
    /// or leaving the icon.
    Other,
}

/// Why the handling of a left click stopped.
#[derive(Debug, PartialEq, Eq)]
pub enum TrayIconLeftClickError {
    /// The host failed to carry out a call.
    Tauri(HostError),
    /// The window state is not registered.
    WindowState(WindowStateError),
    /// No window has this label.
    WindowNotFound(String),
}

/// The mathematical value of a [`TrayIconLeftClickError`].
pub enum TrayIconLeftClickErrorView {
    Tauri(Seq<char>),
    WindowState(WindowStateError),
    WindowNotFound(Seq<char>),
}

impl View for TrayIconLeftClickError {
    type V = TrayIconLeftClickErrorView;

    open spec fn view(&self) -> TrayIconLeftClickErrorView {
        match self {
            TrayIconLeftClickError::Tauri(error) => TrayIconLeftClickErrorView::Tauri(error@),
            TrayIconLeftClickError::WindowState(error) => TrayIconLeftClickErrorView::WindowState(
                *error,
            ),
            TrayIconLeftClickError::WindowNotFound(label) => {
                TrayIconLeftClickErrorView::WindowNotFound(label@)
            },
        }
    }
}

impl TrayIconLeftClickErrorView {
    /// The error of a left click that a stopped toggle stands for.
    pub open spec fn of(error: ToggleErrorView) -> TrayIconLeftClickErrorView {
        match error {
            ToggleErrorView::WindowState => TrayIconLeftClickErrorView::WindowState(
                WindowStateError::RetrieveWindowStateFailed,
            ),
            ToggleErrorView::WindowNotFound(label) => TrayIconLeftClickErrorView::WindowNotFound(
                label,
            ),
            ToggleErrorView::Host(message) => TrayIconLeftClickErrorView::Tauri(message),
        }
    }

    /// The text a user is shown for this error.
    pub open spec fn message(self) -> Seq<char> {
        match self {
            TrayIconLeftClickErrorView::Tauri(message) => message,
            TrayIconLeftClickErrorView::WindowState(error) => error.message(),
            TrayIconLeftClickErrorView::WindowNotFound(label) => {
                "Failed to get webview window for label "@ + label
            },
        }
    }
}

/// The text that names a window which was not found.
pub fn window_not_found_message(label: &str) -> (text: String)
    ensures
        text@ == "Failed to get webview window for label "@ + label@,
{
    let text = joined("Failed to get webview window for label ", label, "");
    proof {
        reveal_strlit("");
        assert(text@ =~= "Failed to get webview window for label "@ + label@);
    }
    text
}

impl TrayIconLeftClickError {
    /// The text a user is shown for this error.
    pub fn to_string(&self) -> (text: String)
        ensures
            text@ == self@.message(),
    {
        match self {
            TrayIconLeftClickError::Tauri(error) => error.to_string(),
            TrayIconLeftClickError::WindowState(error) => error.to_string(),
            TrayIconLeftClickError::WindowNotFound(label) => window_not_found_message(
                label.as_str(),
            ),
        }
    }
}

/// One step in the handling of a left click: a strict toggle of the
/// primary window.
pub open spec fn left_click_step(app: AppView, stage: ToggleStage, reply: HostReplyView) -> StepView<
    ToggleStage,
    TrayIconLeftClickErrorView,
> {
    let step = toggle_step(app, true, stage, reply);
    StepView {
        app: step.app,
        stage: step.stage,
        progress: match step.progress {
            ProgressView::Call(call) => ProgressView::Call(call),
            ProgressView::Done => ProgressView::Done,
            ProgressView::Failed(error) => ProgressView::Failed(
                TrayIconLeftClickErrorView::of(error),
            ),
        },
    }
}

/// Handles a left click on the tray icon, one step at a time: a visible
/// window is hidden, a hidden one is shown and focused.
pub fn handle_tray_icon_left_click(app: &App, stage: ToggleStage, reply: &HostReply) -> (next: (
    ToggleStage,
    Progress<TrayIconLeftClickError>,
))
    ensures
        left_click_step(app@, stage, reply@) == (StepView {
            app: app@,
            stage: next.0,
            progress: next.1@,
        }),
{
    let (stage, progress) = toggle(app, true, stage, reply);
    let progress = match progress {
        Progress::Call(call) => Progress::Call(call),
        Progress::Done => Progress::Done,
        Progress::Failed(ToggleError::WindowState) => Progress::Failed(
            TrayIconLeftClickError::WindowState(WindowStateError::RetrieveWindowStateFailed),
        ),
        Progress::Failed(ToggleError::WindowNotFound(label)) => Progress::Failed(
            TrayIconLeftClickError::WindowNotFound(label),
        ),
        Progress::Failed(ToggleError::Host(error)) => Progress::Failed(
            TrayIconLeftClickError::Tauri(error),
        ),
    };
    (stage, progress)
}

/// Why the handling of a right click stopped.
#[derive(Debug, PartialEq, Eq)]
pub enum TrayIconRightClickError {
    /// The host failed to carry out a call.
    Tauri(HostError),
    /// The menu state is not registered.
    MenuState(MenuStateError),
    /// The window state is not registered.
    WindowState(WindowStateError),
    /// No window has this label.
    WindowNotFound(String),
    /// The menu has no entry with this identifier.
    MenuItemNotFound(String),
}

/// The mathematical value of a [`TrayIconRightClickError`].
pub enum TrayIconRightClickErrorView {
    Tauri(Seq<char>),
    MenuState(MenuStateError),
    WindowState(WindowStateError),
    WindowNotFound(Seq<char>),
    MenuItemNotFound(Seq<char>),
}

impl View for TrayIconRightClickError {
    type V = TrayIconRightClickErrorView;

    open spec fn view(&self) -> TrayIconRightClickErrorView {
        match self {
            TrayIconRightClickError::Tauri(error) => TrayIconRightClickErrorView::Tauri(error@),
            TrayIconRightClickError::MenuState(error) => TrayIconRightClickErrorView::MenuState(
                *error,
            ),
            TrayIconRightClickError::WindowState(error) => {
                TrayIconRightClickErrorView::WindowState(*error)
            },
            TrayIconRightClickError::WindowNotFound(label) => {
                TrayIconRightClickErrorView::WindowNotFound(label@)
            },
            TrayIconRightClickError::MenuItemNotFound(id) => {
                TrayIconRightClickErrorView::MenuItemNotFound(id@)
            },
        }
    }
}

impl TrayIconRightClickErrorView {
    /// The text a user is shown for this error.
    pub open spec fn message(self) -> Seq<char> {
        match self {
            TrayIconRightClickErrorView::Tauri(message) => message,
            TrayIconRightClickErrorView::MenuState(error) => error.message(),
            TrayIconRightClickErrorView::WindowState(error) => error.message(),
            TrayIconRightClickErrorView::WindowNotFound(label) => {
                "Failed to get webview window for label "@ + label
            },
            TrayIconRightClickErrorView::MenuItemNotFound(id) => {
                "Failed to get menu item with id "@ + id
            },
        }
    }
}

impl TrayIconRightClickError {
    /// The text a user is shown for this error.
    pub fn to_string(&self) -> (text: String)
        ensures
            text@ == self@.message(),
    {
        match self {
            TrayIconRightClickError::Tauri(error) => error.to_string(),
            TrayIconRightClickError::MenuState(error) => error.to_string(),
            TrayIconRightClickError::WindowState(error) => error.to_string(),
            TrayIconRightClickError::WindowNotFound(label) => window_not_found_message(
                label.as_str(),
            ),
            TrayIconRightClickError::MenuItemNotFound(id) => {
                let text = joined("Failed to get menu item with id ", id.as_str(), "");
                proof {
                    reveal_strlit("");
                    assert(text@ =~= "Failed to get menu item with id "@ + id@);
                }
                text
            },
        }
    }
}

/// How far the handling of a right click has come.
#[derive(Clone, Copy, Debug, PartialEq, Eq, Structural)]
pub enum RefreshStage {
    Start,
    Querying,
    Finished,
}

/// The label that the hide-or-show entry is to carry after this reply to
/// the question whether the window is visible: the translation of `Hide`
/// for a visible window, and that of `Show` for any other reply.
pub open spec fn refreshed_label(app: AppView, reply: HostReplyView) -> Seq<char> {
    if reply.shows_window() {
        app.label(HIDE_LABEL@)
    } else {
        app.label(SHOW_LABEL@)
    }
}

/// One step in the handling of a right click.
///
/// The host is asked whether the primary window is visible, and the
/// hide-or-show entry of the menu gets the label for the answer. Nothing
/// else is asked of the host, so that the label stands before the menu
/// opens.
pub open spec fn right_click_step(app: AppView, stage: RefreshStage, reply: HostReplyView) -> StepView<
    RefreshStage,
    TrayIconRightClickErrorView,
> {
    let done = StepView { app, stage: RefreshStage::Finished, progress: ProgressView::Done };
    let failed = |error: TrayIconRightClickErrorView|
        StepView { app, stage: RefreshStage::Finished, progress: ProgressView::Failed(error) };
    if stage == RefreshStage::Finished {
        done
    } else if app.menu_state is None {
        failed(TrayIconRightClickErrorView::MenuState(MenuStateError::RetrieveMenuStateFailed))
    } else if app.window_state is None {
        failed(
            TrayIconRightClickErrorView::WindowState(WindowStateError::RetrieveWindowStateFailed),
        )
    } else {
        let menu = app.menu_state->0;
        let label = app.window_state->0.main_window_label;
        if stage == RefreshStage::Start {
            StepView {
                app,
                stage: RefreshStage::Querying,
                progress: ProgressView::Call(HostCallView::QueryVisible(label)),
            }
        } else if reply == HostReplyView::WindowMissing {
            failed(TrayIconRightClickErrorView::WindowNotFound(label))
        } else if !menu.has_item(HIDE_OR_SHOW_ID@) {
            failed(TrayIconRightClickErrorView::MenuItemNotFound(HIDE_OR_SHOW_ID@))
        } else {
            StepView {
                app: AppView {
                    menu_state: Some(menu.with_text(HIDE_OR_SHOW_ID@, refreshed_label(app, reply))),
                    ..app
                },
                stage: RefreshStage::Finished,
                progress: ProgressView::Done,
            }
        }
    }
}

/// Handles a right click on the tray icon, one step at a time.
pub fn handle_tray_icon_right_click(app: &mut App, stage: RefreshStage, reply: &HostReply) -> (next:
    (RefreshStage, Progress<TrayIconRightClickError>))
    ensures
        right_click_step(old(app)@, stage, reply@) == (StepView {
            app: final(app)@,
            stage: next.0,
            progress: next.1@,
        }),
{
    if stage == RefreshStage::Finished {
        return (RefreshStage::Finished, Progress::Done);
    }
    if let Err(error) = MenuState::try_borrow_from_app(app) {
        return (RefreshStage::Finished, Progress::Failed(TrayIconRightClickError::MenuState(error)));
    }
    let label = match WindowState::try_borrow_from_app(app) {
        Err(error) => {
            return (
                RefreshStage::Finished,
                Progress::Failed(TrayIconRightClickError::WindowState(error)),
            );
        },
        Ok(window) => window.main_window_label.clone(),
    };
    if stage == RefreshStage::Start {
        return (RefreshStage::Querying, Progress::Call(HostCall::QueryVisible(label)));
    }
    if let HostReply::WindowMissing = reply {
        return (
            RefreshStage::Finished,
            Progress::Failed(TrayIconRightClickError::WindowNotFound(label)),
        );
    }
    let new_text = if reply.shows_window() {
        app.label(HIDE_LABEL)
    } else {
        app.label(SHOW_LABEL)
    };
    let found = match &mut app.menu_state {
        Some(state) => state.menu.set_text(HIDE_OR_SHOW_ID, new_text.as_str()),
        None => false,
    };
    if found {
        (RefreshStage::Finished, Progress::Done)
    } else {
        proof {
            let menu = old(app)@.menu_state->0;
            assert(menu.with_text(HIDE_OR_SHOW_ID@, new_text@).items =~= menu.items);
        }
        (
            RefreshStage::Finished,
            Progress::Failed(
                TrayIconRightClickError::MenuItemNotFound(HIDE_OR_SHOW_ID.to_owned()),
            ),
        )
    }
}

/// Why the handling of a tray icon event stopped.
#[derive(Debug, PartialEq, Eq)]
pub enum TrayIconEventError {
    LeftClickError(TrayIconLeftClickError),
    RightClickError(TrayIconRightClickError),
}

/// The mathematical value of a [`TrayIconEventError`].
pub enum TrayIconEventErrorView {
    LeftClickError(TrayIconLeftClickErrorView),
    RightClickError(TrayIconRightClickErrorView),
}

impl View for TrayIconEventError {
    type V = TrayIconEventErrorView;

    open spec fn view(&self) -> TrayIconEventErrorView {
        match self {
            TrayIconEventError::LeftClickError(error) => TrayIconEventErrorView::LeftClickError(
                error@,
            ),
            TrayIconEventError::RightClickError(error) => TrayIconEventErrorView::RightClickError(
                error@,
            ),
        }
    }
}

impl TrayIconEventErrorView {
    /// The text a user is shown for this error.
    pub open spec fn message(self) -> Seq<char> {
        match self {
            TrayIconEventErrorView::LeftClickError(error) => error.message(),
            TrayIconEventErrorView::RightClickError(error) => error.message(),
        }
    }
}

impl TrayIconEventError {
    /// The text a user is shown for this error.
    pub fn to_string(&self) -> (text: String)
        ensures
            text@ == self@.message(),
    {
        match self {
            TrayIconEventError::LeftClickError(error) => error.to_string(),
            TrayIconEventError::RightClickError(error) => error.to_string(),
        }
    }
}

/// How far the handling of a tray icon event has come: not begun, inside
/// one of the two click handlers, or over.
#[derive(Clone, Copy, Debug, PartialEq, Eq, Structural)]
pub enum TrayStage {
    Start,
    LeftClick(ToggleStage),
    RightClick(RefreshStage),
    Finished,
}

/// A step of the left click handler as a step of the tray icon's handler.
pub open spec fn tray_left(step: StepView<ToggleStage, TrayIconLeftClickErrorView>) -> StepView<
    TrayStage,
    TrayIconEventErrorView,
> {
    match step.progress {
        ProgressView::Call(call) => StepView {
            app: step.app,
            stage: TrayStage::LeftClick(step.stage),
            progress: ProgressView::Call(call),
        },
        ProgressView::Done => StepView {
            app: step.app,
            stage: TrayStage::Finished,
            progress: ProgressView::Done,
        },
        ProgressView::Failed(error) => StepView {
            app: step.app,
            stage: TrayStage::Finished,
            progress: ProgressView::Failed(TrayIconEventErrorView::LeftClickError(error)),
        },
    }
}

/// A step of the right click handler as a step of the tray icon's handler.
pub open spec fn tray_right(step: StepView<RefreshStage, TrayIconRightClickErrorView>) -> StepView<
    TrayStage,
    TrayIconEventErrorView,
> {
    match step.progress {
        ProgressView::Call(call) => StepView {
            app: step.app,
            stage: TrayStage::RightClick(step.stage),
            progress: ProgressView::Call(call),
        },
        ProgressView::Done => StepView {
            app: step.app,
            stage: TrayStage::Finished,
            progress: ProgressView::Done,
        },
        ProgressView::Failed(error) => StepView {
            app: step.app,
            stage: TrayStage::Finished,
            progress: ProgressView::Failed(TrayIconEventErrorView::RightClickError(error)),
        },
    }
}

/// One step in the handling of a tray icon event.
///
/// The left button coming up toggles the window. The right button going
/// down refreshes the label of the hide-or-show entry. Every other event
/// is over at once.
pub open spec fn tray_icon_event_step(
    app: AppView,
    event: TrayIconEvent,
    stage: TrayStage,
    reply: HostReplyView,
) -> StepView<TrayStage, TrayIconEventErrorView> {
    let over = StepView { app, stage: TrayStage::Finished, progress: ProgressView::Done };
    match stage {
        TrayStage::Start => if event == (TrayIconEvent::Click {
            button: MouseButton::Left,
            button_state: MouseButtonState::Up,
        }) {
            tray_left(left_click_step(app, ToggleStage::Start, reply))
        } else if event == (TrayIconEvent::Click {
            button: MouseButton::Right,
            button_state: MouseButtonState::Down,
        }) {
            tray_right(right_click_step(app, RefreshStage::Start, reply))
        } else {
            over
        },
        TrayStage::LeftClick(inner) => tray_left(left_click_step(app, inner, reply)),
        TrayStage::RightClick(inner) => tray_right(right_click_step(app, inner, reply)),
        TrayStage::Finished => over,
    }
}

/// Takes a step of the left click handler into the tray icon's handler.
fn left(next: (ToggleStage, Progress<TrayIconLeftClickError>)) -> (lifted: (
    TrayStage,
    Progress<TrayIconEventError>,
))
    ensures
        forall|app: AppView|
            #![trigger tray_left(StepView { app, stage: next.0, progress: next.1@ })]
            tray_left(StepView { app, stage: next.0, progress: next.1@ }) == (StepView {
                app,
                stage: lifted.0,
                progress: lifted.1@,
            }),
{
    match next.1 {
        Progress::Call(call) => (TrayStage::LeftClick(next.0), Progress::Call(call)),
        Progress::Done => (TrayStage::Finished, Progress::Done),
        Progress::Failed(error) => (
            TrayStage::Finished,
            Progress::Failed(TrayIconEventError::LeftClickError(error)),
        ),
    }
}

/// Takes a step of the right click handler into the tray icon's handler.
fn right(next: (RefreshStage, Progress<TrayIconRightClickError>)) -> (lifted: (
    TrayStage,
    Progress<TrayIconEventError>,
))
    ensures
        forall|app: AppView|
            #![trigger tray_right(StepView { app, stage: next.0, progress: next.1@ })]
            tray_right(StepView { app, stage: next.0, progress: next.1@ }) == (StepView {
                app,
                stage: lifted.0,
                progress: lifted.1@,
            }),
{
    match next.1 {
        Progress::Call(call) => (TrayStage::RightClick(next.0), Progress::Call(call)),
        Progress::Done => (TrayStage::Finished, Progress::Done),
        Progress::Failed(error) => (
            TrayStage::Finished,
            Progress::Failed(TrayIconEventError::RightClickError(error)),
        ),
    }
}

/// Handles an event of the tray icon, one step at a time. The event is
/// read at `Start` only.
pub fn handle_tray_icon_event(
    app: &mut App,
    event: TrayIconEvent,
    stage: TrayStage,
    reply: &HostReply,
) -> (next: (TrayStage, Progress<TrayIconEventError>))
    ensures
        tray_icon_event_step(old(app)@, event, stage, reply@) == (StepView {
            app: final(app)@,
            stage: next.0,
            progress: next.1@,
        }),
{
    match stage {
        TrayStage::Start => match event {
            TrayIconEvent::Click { button: MouseButton::Left, button_state: MouseButtonState::Up } => {
                left(handle_tray_icon_left_click(app, ToggleStage::Start, reply))
            },
            TrayIconEvent::Click {
                button: MouseButton::Right,
                button_state: MouseButtonState::Down,
            } => right(handle_tray_icon_right_click(app, RefreshStage::Start, reply)),
            _ => (TrayStage::Finished, Progress::Done),
        },
        TrayStage::LeftClick(inner) => left(handle_tray_icon_left_click(app, inner, reply)),
        TrayStage::RightClick(inner) => right(handle_tray_icon_right_click(app, inner, reply)),
        TrayStage::Finished => (TrayStage::Finished, Progress::Done),
    }
}

} // verus!
