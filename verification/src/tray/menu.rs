//! Clicks on the entries of the tray's context menu.

use crate::event_handler::StepView;
use crate::host::{
    HostCall, HostCallView, HostError, HostReply, HostReplyView, Progress, ProgressView,
};
use crate::state::{App, AppView, WindowStateError};
use crate::text::{joined, same_text};
use crate::tray::event::HIDE_OR_SHOW_ID;
use crate::tray::toggle::{toggle, toggle_step, ToggleError, ToggleErrorView, ToggleStage};
use vstd::prelude::*;

verus! {

/// The identifier of the menu entry that ends the application.
pub const QUIT_ID: &'static str = "Quit";

/// A click on an entry of the menu.
#[derive(Debug, PartialEq, Eq)]
pub struct MenuEvent {
    /// The identifier of the entry.
    pub id: String,
}

impl View for MenuEvent {
    type V = Seq<char>;

    open spec fn view(&self) -> Seq<char> {
        self.id@
    }
}

/// Why hiding or showing the window from the menu stopped.
#[derive(Debug, PartialEq, Eq)]
pub enum HideShowError {
    /// The window state is not registered.
    GetWindowState(WindowStateError),
    /// No window has this label.
    GetWindow(String),
    /// The host failed to carry out a call.
    Tauri(HostError),
}

/// The mathematical value of a [`HideShowError`].
pub enum HideShowErrorView {
    GetWindowState(WindowStateError),
    GetWindow(Seq<char>),
    Tauri(Seq<char>),
}

impl View for HideShowError {
    type V = HideShowErrorView;

    open spec fn view(&self) -> HideShowErrorView {
        match self {
            HideShowError::GetWindowState(error) => HideShowErrorView::GetWindowState(*error),
            HideShowError::GetWindow(label) => HideShowErrorView::GetWindow(label@),
            HideShowError::Tauri(error) => HideShowErrorView::Tauri(error@),
        }
    }
}

impl HideShowErrorView {
    /// The error of the menu entry that a stopped toggle stands for.
    pub open spec fn of(error: ToggleErrorView) -> HideShowErrorView {
        match error {
            ToggleErrorView::WindowState => HideShowErrorView::GetWindowState(
                WindowStateError::RetrieveWindowStateFailed,
            ),
            ToggleErrorView::WindowNotFound(label) => HideShowErrorView::GetWindow(label),
            ToggleErrorView::Host(message) => HideShowErrorView::Tauri(message),
        }
    }

    /// The text a user is shown for this error.
    pub open spec fn message(self) -> Seq<char> {
        match self {
            HideShowErrorView::GetWindowState(error) => "Failed to get window state"@,
            HideShowErrorView::GetWindow(label) => "Failed to get window with label: "@ + label,
            HideShowErrorView::Tauri(message) => message,
        }
    }
}

impl HideShowError {
    /// The text a user is shown for this error.
    pub fn to_string(&self) -> (text: String)
        ensures
            text@ == self@.message(),
    {
        match self {
            HideShowError::GetWindowState(error) => "Failed to get window state".to_owned(),
            HideShowError::GetWindow(label) => {
                let text = joined("Failed to get window with label: ", label.as_str(), "");
                proof {
                    reveal_strlit("");
                    assert(text@ =~= "Failed to get window with label: "@ + label@);
                }
                text
            },
            HideShowError::Tauri(error) => error.to_string(),
        }
    }
}

/// One step of hiding or showing the window from the menu: a lenient
/// toggle of the primary window.
pub open spec fn hide_or_show_step(app: AppView, stage: ToggleStage, reply: HostReplyView) -> StepView<
    ToggleStage,
    HideShowErrorView,
> {
    let step = toggle_step(app, false, stage, reply);
    StepView {
        app: step.app,
        stage: step.stage,
        progress: match step.progress {
            ProgressView::Call(call) => ProgressView::Call(call),
            ProgressView::Done => ProgressView::Done,
            ProgressView::Failed(error) => ProgressView::Failed(HideShowErrorView::of(error)),
        },
    }
}

/// Hides the window when it is visible and shows it when it is not, one
/// step at a time.
pub fn handle_hide_or_show(app: &App, stage: ToggleStage, reply: &HostReply) -> (next: (
    ToggleStage,
    Progress<HideShowError>,
))
    ensures
        hide_or_show_step(app@, stage, reply@) == (StepView {
            app: app@,
            stage: next.0,
            progress: next.1@,
        }),
{
    let (stage, progress) = toggle(app, false, stage, reply);
    let progress = match progress {
        Progress::Call(call) => Progress::Call(call),
        Progress::Done => Progress::Done,
        Progress::Failed(ToggleError::WindowState) => Progress::Failed(
            HideShowError::GetWindowState(WindowStateError::RetrieveWindowStateFailed),
        ),
        Progress::Failed(ToggleError::WindowNotFound(label)) => Progress::Failed(
            HideShowError::GetWindow(label),
        ),
        Progress::Failed(ToggleError::Host(error)) => Progress::Failed(HideShowError::Tauri(error)),
    };
    (stage, progress)
}

/// Ends the application: the host is asked to exit with code 0.
pub fn handle_quit() -> (call: HostCall)
    ensures
        call@ == HostCallView::Exit(0),
{
    HostCall::Exit(0)
}

/// Why the handling of a menu click stopped.
#[derive(Debug, PartialEq, Eq)]
pub enum TrayMenuEventError {
    /// The menu has no entry with this identifier.
    UnknownMenuId(String),
    /// Hiding or showing the window stopped.
    HideShowEvent(HideShowError),
}

/// The mathematical value of a [`TrayMenuEventError`].
pub enum TrayMenuEventErrorView {
    UnknownMenuId(Seq<char>),
    HideShowEvent(HideShowErrorView),
}

impl View for TrayMenuEventError {
    type V = TrayMenuEventErrorView;

    open spec fn view(&self) -> TrayMenuEventErrorView {
        match self {
            TrayMenuEventError::UnknownMenuId(id) => TrayMenuEventErrorView::UnknownMenuId(id@),
            TrayMenuEventError::HideShowEvent(error) => TrayMenuEventErrorView::HideShowEvent(
                error@,
            ),
        }
    }
}

impl TrayMenuEventErrorView {
    /// The text a user is shown for this error.
    pub open spec fn message(self) -> Seq<char> {
        match self {
            TrayMenuEventErrorView::UnknownMenuId(id) => "Unknown menu item with id "@ + id,
            TrayMenuEventErrorView::HideShowEvent(error) => "Failed to handle hide/show event: "@
                + error.message(),
        }
    }
}

impl TrayMenuEventError {
    /// The text a user is shown for this error.
    pub fn to_string(&self) -> (text: String)
        ensures
            text@ == self@.message(),
    {
        match self {
            TrayMenuEventError::UnknownMenuId(id) => {
                let text = joined("Unknown menu item with id ", id.as_str(), "");
                proof {
                    reveal_strlit("");
                    assert(text@ =~= "Unknown menu item with id "@ + id@);
                }
                text
            },
            TrayMenuEventError::HideShowEvent(error) => {
                let inner = error.to_string();
                let text = joined("Failed to handle hide/show event: ", inner.as_str(), "");
                proof {
                    reveal_strlit("");
                    assert(text@ =~= "Failed to handle hide/show event: "@ + inner@);
                }
                text
            },
        }
    }
}

/// How far the handling of a menu click has come: not begun, waiting for
/// the host to exit, inside the toggle, or over.
#[derive(Clone, Copy, Debug, PartialEq, Eq, Structural)]
pub enum MenuStage {
    Start,
    Quitting,
    Toggling(ToggleStage),
    Finished,
}

/// A step of the menu's toggle as a step of the menu's handler.
pub open spec fn menu_toggling(step: StepView<ToggleStage, HideShowErrorView>) -> StepView<
    MenuStage,
    TrayMenuEventErrorView,
> {
    match step.progress {
        ProgressView::Call(call) => StepView {
            app: step.app,
            stage: MenuStage::Toggling(step.stage),
            progress: ProgressView::Call(call),
        },
        ProgressView::Done => StepView {
            app: step.app,
            stage: MenuStage::Finished,
            progress: ProgressView::Done,
        },
        ProgressView::Failed(error) => StepView {
            app: step.app,
            stage: MenuStage::Finished,
            progress: ProgressView::Failed(TrayMenuEventErrorView::HideShowEvent(error)),
        },
    }
}

/// One step in the handling of a click on a menu entry.
///
/// The quit entry asks the host to exit with code 0, and the window is not
/// asked to close before that. The hide-or-show entry toggles the window.
/// A click on any other entry is an error and changes nothing.
pub open spec fn menu_click_step(
    app: AppView,
    menu_id: Seq<char>,
    stage: MenuStage,
    reply: HostReplyView,
) -> StepView<MenuStage, TrayMenuEventErrorView> {
    let over = StepView { app, stage: MenuStage::Finished, progress: ProgressView::Done };
    match stage {
        MenuStage::Start => if menu_id == QUIT_ID@ {
            StepView {
                app,
                stage: MenuStage::Quitting,
                progress: ProgressView::Call(HostCallView::Exit(0)),
            }
        } else if menu_id == HIDE_OR_SHOW_ID@ {
            menu_toggling(hide_or_show_step(app, ToggleStage::Start, reply))
        } else {
            StepView {
                app,
                stage: MenuStage::Finished,
                progress: ProgressView::Failed(TrayMenuEventErrorView::UnknownMenuId(menu_id)),
            }
        },
        MenuStage::Quitting => over,
        MenuStage::Toggling(inner) => menu_toggling(hide_or_show_step(app, inner, reply)),
        MenuStage::Finished => over,
    }
}

/// Takes a step of the menu's toggle into the menu's handler.
fn toggling(next: (ToggleStage, Progress<HideShowError>)) -> (lifted: (
    MenuStage,
    Progress<TrayMenuEventError>,
))
    ensures
        forall|app: AppView|
            #![trigger menu_toggling(StepView { app, stage: next.0, progress: next.1@ })]
            menu_toggling(StepView { app, stage: next.0, progress: next.1@ }) == (StepView {
                app,
                stage: lifted.0,
                progress: lifted.1@,
            }),
{
    match next.1 {
        Progress::Call(call) => (MenuStage::Toggling(next.0), Progress::Call(call)),
        Progress::Done => (MenuStage::Finished, Progress::Done),
        Progress::Failed(error) => (
            MenuStage::Finished,
            Progress::Failed(TrayMenuEventError::HideShowEvent(error)),
        ),
    }
}

/// Handles a click on a menu entry, one step at a time. The event is read
/// at `Start` only.
pub fn handle_menu_click(app: &App, event: &MenuEvent, stage: MenuStage, reply: &HostReply) -> (next:
    (MenuStage, Progress<TrayMenuEventError>))
    ensures
        menu_click_step(app@, event@, stage, reply@) == (StepView {
            app: app@,
            stage: next.0,
            progress: next.1@,
        }),
{
    match stage {
        MenuStage::Start => {
            let menu_id = event.id.as_str();
            if same_text(menu_id, QUIT_ID) {
                (MenuStage::Quitting, Progress::Call(handle_quit()))
            } else if same_text(menu_id, HIDE_OR_SHOW_ID) {
                toggling(handle_hide_or_show(app, ToggleStage::Start, reply))
            } else {
                (
                    MenuStage::Finished,
                    Progress::Failed(TrayMenuEventError::UnknownMenuId(menu_id.to_owned())),
                )
            }
        },
        MenuStage::Quitting => (MenuStage::Finished, Progress::Done),
        MenuStage::Toggling(inner) => toggling(handle_hide_or_show(app, inner, reply)),
        MenuStage::Finished => (MenuStage::Finished, Progress::Done),
    }
}

} // verus!
