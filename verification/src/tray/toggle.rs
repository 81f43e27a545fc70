//! Switching the primary window between shown and hidden, as both a click
//! on the tray icon and the menu's first entry do.

use crate::event_handler::StepView;
use crate::host::{
    ActivationPolicy, HostCall, HostCallView, HostError, HostReply, HostReplyView, PlatformChrome,
    Progress, ProgressView,
};
use crate::state::{App, AppView, WindowState};
use vstd::prelude::*;

verus! {

/// How far a toggle has come. Each stage but the first and the last names
/// the call whose reply is awaited.
#[derive(Clone, Copy, Debug, PartialEq, Eq, Structural)]
pub enum ToggleStage {
    Start,
    Querying,
    Hiding,
    RestoringDock,
    Showing,
    Focusing,
    Finished,
}

/// Why a toggle stopped.
#[derive(Debug, PartialEq, Eq)]
pub enum ToggleError {
    /// The window state is not registered.
    WindowState,
    /// No window has this label.
    WindowNotFound(String),
    /// The host failed to carry out a call.
    Host(HostError),
}

/// The mathematical value of a [`ToggleError`].
pub enum ToggleErrorView {
    WindowState,
    WindowNotFound(Seq<char>),
    Host(Seq<char>),
}

impl View for ToggleError {
    type V = ToggleErrorView;

    open spec fn view(&self) -> ToggleErrorView {
        match self {
            ToggleError::WindowState => ToggleErrorView::WindowState,
            ToggleError::WindowNotFound(label) => ToggleErrorView::WindowNotFound(label@),
            ToggleError::Host(error) => ToggleErrorView::Host(error@),
        }
    }
}

/// What a reply to a call on the window labelled `label` means for a
/// toggle: the error it stands for, if it stands for one.
pub open spec fn window_failure(reply: HostReplyView, label: Seq<char>) -> Option<
    ToggleErrorView,
> {
    match reply {
        HostReplyView::WindowMissing => Some(ToggleErrorView::WindowNotFound(label)),
        HostReplyView::Failed(message) => Some(ToggleErrorView::Host(message)),
        _ => None,
    }
}

/// How a hidden window is brought back: where there is a dock, its icon is
/// restored first; elsewhere the window is shown at once.
pub open spec fn bring_back(app: AppView, label: Seq<char>) -> StepView<ToggleStage, ToggleErrorView> {
    match app.chrome {
        PlatformChrome::Dock => StepView {
            app,
            stage: ToggleStage::RestoringDock,
            progress: ProgressView::Call(
                HostCallView::SetActivationPolicy(ActivationPolicy::Regular),
            ),
        },
        PlatformChrome::Plain => StepView {
            app,
            stage: ToggleStage::Showing,
            progress: ProgressView::Call(HostCallView::ShowWindow(label)),
        },
    }
}

/// One step of a toggle.
///
/// The host is asked whether the primary window is visible. A visible
/// window is hidden; a hidden one is revealed, shown and focused. The
/// application is never changed. A `strict` toggle stops when the host
/// cannot say whether the window is visible; a lenient one takes the window
/// for hidden then.
pub open spec fn toggle_step(
    app: AppView,
    strict: bool,
    stage: ToggleStage,
    reply: HostReplyView,
) -> StepView<ToggleStage, ToggleErrorView> {
    let done = StepView { app, stage: ToggleStage::Finished, progress: ProgressView::Done };
    let failed = |error: ToggleErrorView|
        StepView { app, stage: ToggleStage::Finished, progress: ProgressView::Failed(error) };
    if stage == ToggleStage::Finished {
        done
    } else {
        match app.window_state {
            None => failed(ToggleErrorView::WindowState),
            Some(window) => {
                let label = window.main_window_label;
                match stage {
                    ToggleStage::Start => StepView {
                        app,
                        stage: ToggleStage::Querying,
                        progress: ProgressView::Call(HostCallView::QueryVisible(label)),
                    },
                    ToggleStage::Querying => match reply {
                        HostReplyView::WindowMissing => failed(
                            ToggleErrorView::WindowNotFound(label),
                        ),
                        HostReplyView::Failed(message) => if strict {
                            failed(ToggleErrorView::Host(message))
                        } else {
                            bring_back(app, label)
                        },
                        HostReplyView::Visible(true) => StepView {
                            app,
                            stage: ToggleStage::Hiding,
                            progress: ProgressView::Call(HostCallView::HideWindow(label)),
                        },
                        _ => bring_back(app, label),
                    },
                    ToggleStage::Hiding => match window_failure(reply, label) {
                        Some(error) => failed(error),
                        None => done,
                    },
                    ToggleStage::RestoringDock => match reply {
                        HostReplyView::Failed(message) => failed(ToggleErrorView::Host(message)),
                        _ => StepView {
                            app,
                            stage: ToggleStage::Showing,
                            progress: ProgressView::Call(HostCallView::ShowWindow(label)),
                        },
                    },
                    ToggleStage::Showing => match window_failure(reply, label) {
                        Some(error) => failed(error),
                        None => StepView {
                            app,
                            stage: ToggleStage::Focusing,
                            progress: ProgressView::Call(HostCallView::FocusWindow(label)),
                        },
                    },
                    ToggleStage::Focusing => match window_failure(reply, label) {
                        Some(error) => failed(error),
                        None => done,
                    },
                    ToggleStage::Finished => done,
                }
            },
        }
    }
}

/// The error that a reply to a call on the window labelled `label`
/// stands for.
fn failure_of(reply: &HostReply, label: &str) -> (failure: Option<ToggleError>)
    ensures
        match failure {
            Some(error) => window_failure(reply@, label@) == Some(error@),
            None => window_failure(reply@, label@) is None,
        },
{
    match reply {
        HostReply::WindowMissing => Some(ToggleError::WindowNotFound(label.to_owned())),
        HostReply::Failed(message) => Some(
            ToggleError::Host(HostError { message: message.clone() }),
        ),
        _ => None,
    }
}

/// The first step of bringing a hidden window back on a platform of this
/// kind.
fn revealing(chrome: PlatformChrome, label: &str) -> (next: (ToggleStage, Progress<ToggleError>))
    ensures
        forall|app: AppView|
            app.chrome == chrome ==> #[trigger] bring_back(app, label@) == (StepView {
                app,
                stage: next.0,
                progress: next.1@,
            }),
{
    match chrome {
        PlatformChrome::Dock => (
            ToggleStage::RestoringDock,
            Progress::Call(HostCall::SetActivationPolicy(ActivationPolicy::Regular)),
        ),
        PlatformChrome::Plain => (
            ToggleStage::Showing,
            Progress::Call(HostCall::ShowWindow(label.to_owned())),
        ),
    }
}

/// Switches the primary window between shown and hidden, one step at a
/// time.
pub fn toggle(app: &App, strict: bool, stage: ToggleStage, reply: &HostReply) -> (next: (
    ToggleStage,
    Progress<ToggleError>,
))
    ensures
        toggle_step(app@, strict, stage, reply@) == (StepView {
            app: app@,
            stage: next.0,
            progress: next.1@,
        }),
{
    if stage == ToggleStage::Finished {
        return (ToggleStage::Finished, Progress::Done);
    }
    let label = match WindowState::try_borrow_from_app(app) {
        Err(_) => {
            return (ToggleStage::Finished, Progress::Failed(ToggleError::WindowState));
        },
        Ok(window) => window.main_window_label.as_str(),
    };
    match stage {
        ToggleStage::Start => (
            ToggleStage::Querying,
            Progress::Call(HostCall::QueryVisible(label.to_owned())),
        ),
        ToggleStage::Querying => match reply {
            HostReply::WindowMissing => (
                ToggleStage::Finished,
                Progress::Failed(ToggleError::WindowNotFound(label.to_owned())),
            ),
            HostReply::Failed(message) => if strict {
                (
                    ToggleStage::Finished,
                    Progress::Failed(ToggleError::Host(HostError { message: message.clone() })),
                )
            } else {
                revealing(app.chrome, label)
            },
            HostReply::Visible(true) => (
                ToggleStage::Hiding,
                Progress::Call(HostCall::HideWindow(label.to_owned())),
            ),
            _ => revealing(app.chrome, label),
        },
        ToggleStage::Hiding => match failure_of(reply, label) {
            Some(error) => (ToggleStage::Finished, Progress::Failed(error)),
            None => (ToggleStage::Finished, Progress::Done),
        },
        ToggleStage::RestoringDock => match reply {
            HostReply::Failed(message) => (
                ToggleStage::Finished,
                Progress::Failed(ToggleError::Host(HostError { message: message.clone() })),
            ),
            _ => (ToggleStage::Showing, Progress::Call(HostCall::ShowWindow(label.to_owned()))),
        },
        ToggleStage::Showing => match failure_of(reply, label) {
            Some(error) => (ToggleStage::Finished, Progress::Failed(error)),
            None => (ToggleStage::Focusing, Progress::Call(HostCall::FocusWindow(label.to_owned()))),
        },
        ToggleStage::Focusing => match failure_of(reply, label) {
            Some(error) => (ToggleStage::Finished, Progress::Failed(error)),
            None => (ToggleStage::Finished, Progress::Done),
        },
        ToggleStage::Finished => (ToggleStage::Finished, Progress::Done),
    }
}

} // verus!
