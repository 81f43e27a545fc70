//! The window lifecycle controller: what happens when the primary window
//! is asked to close, and when the application is asked to come forward
//! again.
//!
//! A controller is a step function. It is called with the stage it has
//! reached and the host's reply to the call it made last, and it answers
//! with the next stage and either the next call, or the end of the
//! handling. At `Start` no call has been made yet and the reply is not read.

use crate::host::{
    ActivationPolicy, ClosePolicy, HostCall, HostCallView, HostError, HostReply, HostReplyView,
    PlatformChrome, Progress, ProgressView,
};
use crate::state::{App, AppView, WindowState, WindowStateError, MAIN_WINDOW_LABEL};
use crate::text::{joined, same_text};
use vstd::prelude::*;

verus! {

/// The label under which the translation registry holds the title of the
/// notice that is shown when the window is closed for the first time.
pub const STILL_RUNNING_NOTICE: &'static str =
    "The application is still running in the background";

/// One step of a controller, as a mathematical value: the application
/// after the step, the stage reached, and what is asked of the host next.
pub struct StepView<S, E> {
    pub app: AppView,
    pub stage: S,
    pub progress: ProgressView<E>,
}

/// Why handling a close request stopped.
#[derive(Debug, PartialEq, Eq)]
pub enum WindowCloseEventError {
    /// The host failed to change the dock presentation.
    Tauri(HostError),
    /// The window state is not registered.
    WindowStateMutex(WindowStateError),
    /// The host failed to show the notice.
    Notification(HostError),
}

/// The mathematical value of a [`WindowCloseEventError`].
pub enum WindowCloseEventErrorView {
    Tauri(Seq<char>),
    WindowStateMutex(WindowStateError),
    Notification(Seq<char>),
}

impl View for WindowCloseEventError {
    type V = WindowCloseEventErrorView;

    open spec fn view(&self) -> WindowCloseEventErrorView {
        match self {
            WindowCloseEventError::Tauri(error) => WindowCloseEventErrorView::Tauri(error@),
            WindowCloseEventError::WindowStateMutex(error) => {
                WindowCloseEventErrorView::WindowStateMutex(*error)
            },
            WindowCloseEventError::Notification(error) => WindowCloseEventErrorView::Notification(
                error@,
            ),
        }
    }
}

impl WindowCloseEventErrorView {
    /// The text a user is shown for this error.
    pub open spec fn message(self) -> Seq<char> {
        match self {
            WindowCloseEventErrorView::Tauri(message) => message,
            WindowCloseEventErrorView::WindowStateMutex(error) => error.message(),
            WindowCloseEventErrorView::Notification(message) => message,
        }
    }
}

impl WindowCloseEventError {
    /// The text a user is shown for this error.
    pub fn to_string(&self) -> (text: String)
        ensures
            text@ == self@.message(),
    {
        match self {
            WindowCloseEventError::Tauri(error) => error.to_string(),
            WindowCloseEventError::WindowStateMutex(error) => error.to_string(),
            WindowCloseEventError::Notification(error) => error.to_string(),
        }
    }
}

/// How far the handling of a close request has come. Each stage but the
/// first and the last names the call whose reply is awaited.
#[derive(Clone, Copy, Debug, PartialEq, Eq, Structural)]
pub enum CloseStage {
    Start,
    Preventing,
    Hiding,
    Notifying,
    HidingDock,
    Finished,
}

/// The end of a close request's handling: the dock icon is hidden where
/// there is a dock, and nothing more is asked where there is none.
pub open spec fn close_finish(app: AppView) -> StepView<CloseStage, WindowCloseEventErrorView> {
    match app.chrome {
        PlatformChrome::Dock => StepView {
            app,
            stage: CloseStage::HidingDock,
            progress: ProgressView::Call(
                HostCallView::SetActivationPolicy(ActivationPolicy::Accessory),
            ),
        },
        PlatformChrome::Plain => StepView {
            app,
            stage: CloseStage::Finished,
            progress: ProgressView::Done,
        },
    }
}

/// One step in the handling of a close request on the primary window.
///
/// Where the application lets a close proceed, nothing is asked of the
/// host. Where it keeps running, the close is intercepted first, then the
/// window is hidden, whatever the host answers to that. While
/// `is_first_close_event` holds, the notice is asked for; the flag falls
/// when the host has shown it, and stays when the host failed to, in which
/// case the handling stops there.
pub open spec fn close_step(app: AppView, stage: CloseStage, reply: HostReplyView) -> StepView<
    CloseStage,
    WindowCloseEventErrorView,
> {
    match stage {
        CloseStage::Start => match app.close_policy {
            ClosePolicy::KeepRunning => StepView {
                app,
                stage: CloseStage::Preventing,
                progress: ProgressView::Call(HostCallView::PreventClose),
            },
            ClosePolicy::Proceed => StepView {
                app,
                stage: CloseStage::Finished,
                progress: ProgressView::Done,
            },
        },
        CloseStage::Preventing => StepView {
            app,
            stage: CloseStage::Hiding,
            progress: ProgressView::Call(HostCallView::HideWindow(MAIN_WINDOW_LABEL@)),
        },
        CloseStage::Hiding => match app.window_state {
            None => StepView {
                app,
                stage: CloseStage::Finished,
                progress: ProgressView::Failed(
                    WindowCloseEventErrorView::WindowStateMutex(
                        WindowStateError::RetrieveWindowStateFailed,
                    ),
                ),
            },
            Some(window) => if window.is_first_close_event {
                StepView {
                    app,
                    stage: CloseStage::Notifying,
                    progress: ProgressView::Call(
                        HostCallView::Notify(app.label(STILL_RUNNING_NOTICE@)),
                    ),
                }
            } else {
                close_finish(app)
            },
        },
        CloseStage::Notifying => match reply {
            HostReplyView::Failed(message) => StepView {
                app,
                stage: CloseStage::Finished,
                progress: ProgressView::Failed(WindowCloseEventErrorView::Notification(message)),
            },
            _ => close_finish(
                AppView {
                    window_state: match app.window_state {
                        Some(window) => Some(window.notified()),
                        None => None,
                    },
                    ..app
                },
            ),
        },
        CloseStage::HidingDock => match reply {
            HostReplyView::Failed(message) => StepView {
                app,
                stage: CloseStage::Finished,
                progress: ProgressView::Failed(WindowCloseEventErrorView::Tauri(message)),
            },
            _ => StepView { app, stage: CloseStage::Finished, progress: ProgressView::Done },
        },
        CloseStage::Finished => StepView {
            app,
            stage: CloseStage::Finished,
            progress: ProgressView::Done,
        },
    }
}

/// The end of a close request's handling on a platform of this kind.
fn finish_close(chrome: PlatformChrome) -> (next: (
    CloseStage,
    Progress<WindowCloseEventError>,
))
    ensures
        forall|app: AppView|
            app.chrome == chrome ==> #[trigger] close_finish(app) == (StepView {
                app,
                stage: next.0,
                progress: next.1@,
            }),
{
    match chrome {
        PlatformChrome::Dock => (
            CloseStage::HidingDock,
            Progress::Call(HostCall::SetActivationPolicy(ActivationPolicy::Accessory)),
        ),
        PlatformChrome::Plain => (CloseStage::Finished, Progress::Done),
    }
}

/// Handles a close request on the primary window, one step at a time.
pub fn handle_window_close(app: &mut App, stage: CloseStage, reply: &HostReply) -> (next: (
    CloseStage,
    Progress<WindowCloseEventError>,
))
    ensures
        close_step(old(app)@, stage, reply@) == (StepView {
            app: final(app)@,
            stage: next.0,
            progress: next.1@,
        }),
{
    match stage {
        CloseStage::Start => match app.close_policy {
            ClosePolicy::KeepRunning => (
                CloseStage::Preventing,
                Progress::Call(HostCall::PreventClose),
            ),
            ClosePolicy::Proceed => (CloseStage::Finished, Progress::Done),
        },
        CloseStage::Preventing => (
            CloseStage::Hiding,
            Progress::Call(HostCall::HideWindow(MAIN_WINDOW_LABEL.to_owned())),
        ),
        CloseStage::Hiding => {
            let first = match WindowState::try_borrow_from_app(app) {
                Err(error) => {
                    return (
                        CloseStage::Finished,
                        Progress::Failed(WindowCloseEventError::WindowStateMutex(error)),
                    );
                },
                Ok(window) => window.is_first_close_event,
            };
            if first {
                (
                    CloseStage::Notifying,
                    Progress::Call(HostCall::Notify(app.label(STILL_RUNNING_NOTICE))),
                )
            } else {
                finish_close(app.chrome)
            }
        },
        CloseStage::Notifying => match reply {
            HostReply::Failed(message) => (
                CloseStage::Finished,
                Progress::Failed(
                    WindowCloseEventError::Notification(HostError { message: message.clone() }),
                ),
            ),
            _ => {
                match &mut app.window_state {
                    Some(window) => {
                        window.is_first_close_event = false;
                    },
                    None => {},
                }
                finish_close(app.chrome)
            },
        },
        CloseStage::HidingDock => match reply {
            HostReply::Failed(message) => (
                CloseStage::Finished,
                Progress::Failed(
                    WindowCloseEventError::Tauri(HostError { message: message.clone() }),
                ),
            ),
            _ => (CloseStage::Finished, Progress::Done),
        },
        CloseStage::Finished => (CloseStage::Finished, Progress::Done),
    }
}

/// Why bringing the application forward again stopped.
#[derive(Debug, PartialEq, Eq)]
pub enum ReopenEventError {
    /// No window has the label of the primary window.
    WindowNotFound(String),
    /// The host failed to carry out a call.
    Tauri(HostError),
}

/// The mathematical value of a [`ReopenEventError`].
pub enum ReopenEventErrorView {
    WindowNotFound(Seq<char>),
    Tauri(Seq<char>),
}

impl View for ReopenEventError {
    type V = ReopenEventErrorView;

    open spec fn view(&self) -> ReopenEventErrorView {
        match self {
            ReopenEventError::WindowNotFound(label) => ReopenEventErrorView::WindowNotFound(
                label@,
            ),
            ReopenEventError::Tauri(error) => ReopenEventErrorView::Tauri(error@),
        }
    }
}

impl ReopenEventErrorView {
    /// The text a user is shown for this error.
    pub open spec fn message(self) -> Seq<char> {
        match self {
            ReopenEventErrorView::WindowNotFound(label) => {
                "Failed to get webview window for label "@ + label
            },
            ReopenEventErrorView::Tauri(message) => message,
        }
    }
}

impl ReopenEventError {
    /// The text a user is shown for this error.
    pub fn to_string(&self) -> (text: String)
        ensures
            text@ == self@.message(),
    {
        match self {
            ReopenEventError::WindowNotFound(label) => {
                let text = joined("Failed to get webview window for label ", label.as_str(), "");
                proof {
                    reveal_strlit("");
                    assert(text@ =~= "Failed to get webview window for label "@ + label@);
                }
                text
            },
            ReopenEventError::Tauri(error) => error.to_string(),
        }
    }
}

/// How far a reopen has come. Each stage but the first and the last names
/// the call whose reply is awaited.
#[derive(Clone, Copy, Debug, PartialEq, Eq, Structural)]
pub enum ReopenStage {
    Start,
    RestoringDock,
    Showing,
    Focusing,
    Finished,
}

/// What a reply to a call on the primary window means for a reopen: the
/// error it stands for, if it stands for one.
pub open spec fn reopen_failure(reply: HostReplyView) -> Option<ReopenEventErrorView> {
    match reply {
        HostReplyView::WindowMissing => Some(
            ReopenEventErrorView::WindowNotFound(MAIN_WINDOW_LABEL@),
        ),
        HostReplyView::Failed(message) => Some(ReopenEventErrorView::Tauri(message)),
        _ => None,
    }
}

/// One step of a reopen.
///
/// Where there is a dock, its icon is restored first. Then the primary
/// window is shown and focused. The first call that the host fails, or
/// that finds no such window, ends the reopen with the matching error.
pub open spec fn reopen_step(app: AppView, stage: ReopenStage, reply: HostReplyView) -> StepView<
    ReopenStage,
    ReopenEventErrorView,
> {
    let show = StepView {
        app,
        stage: ReopenStage::Showing,
        progress: ProgressView::Call(HostCallView::ShowWindow(MAIN_WINDOW_LABEL@)),
    };
    let failed = |error: ReopenEventErrorView|
        StepView { app, stage: ReopenStage::Finished, progress: ProgressView::Failed(error) };
    match stage {
        ReopenStage::Start => match app.chrome {
            PlatformChrome::Dock => StepView {
                app,
                stage: ReopenStage::RestoringDock,
                progress: ProgressView::Call(
                    HostCallView::SetActivationPolicy(ActivationPolicy::Regular),
                ),
            },
            PlatformChrome::Plain => show,
        },
        ReopenStage::RestoringDock => match reply {
            HostReplyView::Failed(message) => failed(ReopenEventErrorView::Tauri(message)),
            _ => show,
        },
        ReopenStage::Showing => match reopen_failure(reply) {
            Some(error) => failed(error),
            None => StepView {
                app,
                stage: ReopenStage::Focusing,
                progress: ProgressView::Call(HostCallView::FocusWindow(MAIN_WINDOW_LABEL@)),
            },
        },
        ReopenStage::Focusing => match reopen_failure(reply) {
            Some(error) => failed(error),
            None => StepView { app, stage: ReopenStage::Finished, progress: ProgressView::Done },
        },
        ReopenStage::Finished => StepView {
            app,
            stage: ReopenStage::Finished,
            progress: ProgressView::Done,
        },
    }
}

/// The error that a reply to a call on the primary window stands for.
fn failure_of_reopen(reply: &HostReply) -> (failure: Option<ReopenEventError>)
    ensures
        match failure {
            Some(error) => reopen_failure(reply@) == Some(error@),
            None => reopen_failure(reply@) is None,
        },
{
    match reply {
        HostReply::WindowMissing => Some(
            ReopenEventError::WindowNotFound(MAIN_WINDOW_LABEL.to_owned()),
        ),
        HostReply::Failed(message) => Some(
            ReopenEventError::Tauri(HostError { message: message.clone() }),
        ),
        _ => None,
    }
}

/// Brings the application forward again, one step at a time. Whether other
/// windows are visible makes no difference.
pub fn handle_reopen(app: &App, has_visible_windows: bool, stage: ReopenStage, reply: &HostReply) -> (next:
    (ReopenStage, Progress<ReopenEventError>))
    ensures
        reopen_step(app@, stage, reply@) == (StepView {
            app: app@,
            stage: next.0,
            progress: next.1@,
        }),
{
    match stage {
        ReopenStage::Start => match app.chrome {
            PlatformChrome::Dock => (
                ReopenStage::RestoringDock,
                Progress::Call(HostCall::SetActivationPolicy(ActivationPolicy::Regular)),
            ),
            PlatformChrome::Plain => (
                ReopenStage::Showing,
                Progress::Call(HostCall::ShowWindow(MAIN_WINDOW_LABEL.to_owned())),
            ),
        },
        ReopenStage::RestoringDock => match reply {
            HostReply::Failed(message) => (
                ReopenStage::Finished,
                Progress::Failed(ReopenEventError::Tauri(HostError { message: message.clone() })),
            ),
            _ => (
                ReopenStage::Showing,
                Progress::Call(HostCall::ShowWindow(MAIN_WINDOW_LABEL.to_owned())),
            ),
        },
        ReopenStage::Showing => match failure_of_reopen(reply) {
            Some(error) => (ReopenStage::Finished, Progress::Failed(error)),
            None => (
                ReopenStage::Focusing,
                Progress::Call(HostCall::FocusWindow(MAIN_WINDOW_LABEL.to_owned())),
            ),
        },
        ReopenStage::Focusing => match failure_of_reopen(reply) {
            Some(error) => (ReopenStage::Finished, Progress::Failed(error)),
            None => (ReopenStage::Finished, Progress::Done),
        },
        ReopenStage::Finished => (ReopenStage::Finished, Progress::Done),
    }
}

/// What happened to a window.
#[derive(Clone, Copy, Debug, PartialEq, Eq, Structural)]
pub enum WindowEvent {
    /// The user asked for the window to be closed.
    CloseRequested,
    /// Anything else.
    Other,
}

/// An event that the host's event loop delivers.
#[derive(Debug, PartialEq, Eq)]
pub enum RunEvent {
    /// The user asked for the running application, as by a click on its
    /// dock icon.
    Reopen { has_visible_windows: bool },
    /// Something happened to the window with this label.
    WindowEvent { label: String, event: WindowEvent },
    /// Anything else.
    Other,
}

/// The mathematical value of a [`RunEvent`].
pub enum RunEventView {
    Reopen { has_visible_windows: bool },
    WindowEvent { label: Seq<char>, event: WindowEvent },
    Other,
}

impl View for RunEvent {
    type V = RunEventView;

    open spec fn view(&self) -> RunEventView {
        match self {
            RunEvent::Reopen { has_visible_windows } => RunEventView::Reopen {
                has_visible_windows: *has_visible_windows,
            },
            RunEvent::WindowEvent { label, event } => RunEventView::WindowEvent {
                label: label@,
                event: *event,
            },
            RunEvent::Other => RunEventView::Other,
        }
    }
}

/// Why the handling of an event of the event loop stopped.
#[derive(Debug, PartialEq, Eq)]
pub enum RunEventError {
    ReopenEvent(ReopenEventError),
    WindowCloseEvent(WindowCloseEventError),
}

/// The mathematical value of a [`RunEventError`].
pub enum RunEventErrorView {
    ReopenEvent(ReopenEventErrorView),
    WindowCloseEvent(WindowCloseEventErrorView),
}

impl View for RunEventError {
    type V = RunEventErrorView;

    open spec fn view(&self) -> RunEventErrorView {
        match self {
            RunEventError::ReopenEvent(error) => RunEventErrorView::ReopenEvent(error@),
            RunEventError::WindowCloseEvent(error) => RunEventErrorView::WindowCloseEvent(error@),
        }
    }
}

impl RunEventErrorView {
    /// The text a user is shown for this error.
    pub open spec fn message(self) -> Seq<char> {
        match self {
            RunEventErrorView::ReopenEvent(error) => error.message(),
            RunEventErrorView::WindowCloseEvent(error) => error.message(),
        }
    }
}

impl RunEventError {
    /// The text a user is shown for this error.
    pub fn to_string(&self) -> (text: String)
        ensures
            text@ == self@.message(),
    {
        match self {
            RunEventError::ReopenEvent(error) => error.to_string(),
            RunEventError::WindowCloseEvent(error) => error.to_string(),
        }
    }
}

/// How far the handling of an event of the event loop has come: not begun,
/// inside one of the two controllers, or over.
#[derive(Clone, Copy, Debug, PartialEq, Eq, Structural)]
pub enum RunStage {
    Start,
    Reopening(ReopenStage),
    Closing(CloseStage),
    Finished,
}

/// A step of the reopen controller as a step of the event loop's handler.
pub open spec fn run_reopening(step: StepView<ReopenStage, ReopenEventErrorView>) -> StepView<
    RunStage,
    RunEventErrorView,
> {
    match step.progress {
        ProgressView::Call(call) => StepView {
            app: step.app,
            stage: RunStage::Reopening(step.stage),
            progress: ProgressView::Call(call),
        },
        ProgressView::Done => StepView {
            app: step.app,
            stage: RunStage::Finished,
            progress: ProgressView::Done,
        },
        ProgressView::Failed(error) => StepView {
            app: step.app,
            stage: RunStage::Finished,
            progress: ProgressView::Failed(RunEventErrorView::ReopenEvent(error)),
        },
    }
}

/// A step of the close controller as a step of the event loop's handler.
pub open spec fn run_closing(step: StepView<CloseStage, WindowCloseEventErrorView>) -> StepView<
    RunStage,
    RunEventErrorView,
> {
    match step.progress {
        ProgressView::Call(call) => StepView {
            app: step.app,
            stage: RunStage::Closing(step.stage),
            progress: ProgressView::Call(call),
        },
        ProgressView::Done => StepView {
            app: step.app,
            stage: RunStage::Finished,
            progress: ProgressView::Done,
        },
        ProgressView::Failed(error) => StepView {
            app: step.app,
            stage: RunStage::Finished,
            progress: ProgressView::Failed(RunEventErrorView::WindowCloseEvent(error)),
        },
    }
}

/// One step in the handling of an event of the event loop.
///
/// A reopen is handled where there is a dock and ignored elsewhere. A
/// close request is handled when it is for the primary window. Every other
/// event, and every event of another window, is over at once.
pub open spec fn run_event_step(
    app: AppView,
    event: RunEventView,
    stage: RunStage,
    reply: HostReplyView,
) -> StepView<RunStage, RunEventErrorView> {
    let over = StepView { app, stage: RunStage::Finished, progress: ProgressView::Done };
    match stage {
        RunStage::Start => match event {
            RunEventView::Reopen { has_visible_windows } => match app.chrome {
                PlatformChrome::Dock => run_reopening(
                    reopen_step(app, ReopenStage::Start, reply),
                ),
                PlatformChrome::Plain => over,
            },
            RunEventView::WindowEvent { label, event } => if label == MAIN_WINDOW_LABEL@ && event
                == WindowEvent::CloseRequested {
                run_closing(close_step(app, CloseStage::Start, reply))
            } else {
                over
            },
            RunEventView::Other => over,
        },
        RunStage::Reopening(inner) => run_reopening(reopen_step(app, inner, reply)),
        RunStage::Closing(inner) => run_closing(close_step(app, inner, reply)),
        RunStage::Finished => over,
    }
}

/// Takes a step of the reopen controller into the event loop's handler.
fn reopening(next: (ReopenStage, Progress<ReopenEventError>)) -> (lifted: (
    RunStage,
    Progress<RunEventError>,
))
    ensures
        forall|app: AppView|
            #![trigger run_reopening(StepView { app, stage: next.0, progress: next.1@ })]
            run_reopening(StepView { app, stage: next.0, progress: next.1@ }) == (StepView {
                app,
                stage: lifted.0,
                progress: lifted.1@,
            }),
{
    match next.1 {
        Progress::Call(call) => (RunStage::Reopening(next.0), Progress::Call(call)),
        Progress::Done => (RunStage::Finished, Progress::Done),
        Progress::Failed(error) => (
            RunStage::Finished,
            Progress::Failed(RunEventError::ReopenEvent(error)),
        ),
    }
}

/// Takes a step of the close controller into the event loop's handler.
fn closing(next: (CloseStage, Progress<WindowCloseEventError>)) -> (lifted: (
    RunStage,
    Progress<RunEventError>,
))
    ensures
        forall|app: AppView|
            #![trigger run_closing(StepView { app, stage: next.0, progress: next.1@ })]
            run_closing(StepView { app, stage: next.0, progress: next.1@ }) == (StepView {
                app,
                stage: lifted.0,
                progress: lifted.1@,
            }),
{
    match next.1 {
        Progress::Call(call) => (RunStage::Closing(next.0), Progress::Call(call)),
        Progress::Done => (RunStage::Finished, Progress::Done),
        Progress::Failed(error) => (
            RunStage::Finished,
            Progress::Failed(RunEventError::WindowCloseEvent(error)),
        ),
    }
}

/// Handles an event of the event loop, one step at a time. The event is
/// read at `Start` only.
pub fn handle_run_event(app: &mut App, event: &RunEvent, stage: RunStage, reply: &HostReply) -> (next:
    (RunStage, Progress<RunEventError>))
    ensures
        run_event_step(old(app)@, event@, stage, reply@) == (StepView {
            app: final(app)@,
            stage: next.0,
            progress: next.1@,
        }),
{
    match stage {
        RunStage::Start => match event {
            RunEvent::Reopen { has_visible_windows } => match app.chrome {
                PlatformChrome::Dock => reopening(
                    handle_reopen(app, *has_visible_windows, ReopenStage::Start, reply),
                ),
                PlatformChrome::Plain => (RunStage::Finished, Progress::Done),
            },
            RunEvent::WindowEvent { label, event } => {
                let close_requested = match event {
                    WindowEvent::CloseRequested => true,
                    WindowEvent::Other => false,
                };
                if same_text(label.as_str(), MAIN_WINDOW_LABEL) && close_requested {
                    closing(handle_window_close(app, CloseStage::Start, reply))
                } else {
                    (RunStage::Finished, Progress::Done)
                }
            },
            RunEvent::Other => (RunStage::Finished, Progress::Done),
        },
        RunStage::Reopening(inner) => {
            let has_visible_windows = match event {
                RunEvent::Reopen { has_visible_windows } => *has_visible_windows,
                _ => false,
            };
            reopening(handle_reopen(app, has_visible_windows, inner, reply))
        },
        RunStage::Closing(inner) => closing(handle_window_close(app, inner, reply)),
        RunStage::Finished => (RunStage::Finished, Progress::Done),
    }
}

} // verus!
