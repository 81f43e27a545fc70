//! The vocabulary between the controllers and the host runtime.
//!
//! A controller never touches a window, the dock or the notification centre
//! itself. It hands out one [`HostCall`] at a time, and is resumed with the
//! [`HostReply`] that the runtime gave to it.

use vstd::prelude::*;

verus! {

/// How the application presents itself in the dock.
#[derive(Clone, Copy, Debug, PartialEq, Eq, Structural)]
pub enum ActivationPolicy {
    /// The application has a dock icon.
    Regular,
    /// The application runs without a dock icon.
    Accessory,
}

/// Whether the platform gives the application a dock icon to manage.
#[derive(Clone, Copy, Debug, PartialEq, Eq, Structural)]
pub enum PlatformChrome {
    /// The application icon lives in a dock.
    Dock,
    /// There is no dock; dock requests are never made.
    Plain,
}

/// What a request to close the primary window leads to.
#[derive(Clone, Copy, Debug, PartialEq, Eq, Structural)]
pub enum ClosePolicy {
    /// The close is intercepted: the window is hidden and the application
    /// keeps running in the background.
    KeepRunning,
    /// The close goes ahead, and the host destroys the window.
    Proceed,
}

/// One request to the host runtime.
#[derive(Clone, Debug, PartialEq, Eq)]
pub enum HostCall {
    /// Keep the window whose close was requested alive.
    PreventClose,
    /// Hide the window with this label.
    HideWindow(String),
    /// Show the window with this label.
    ShowWindow(String),
    /// Give the window with this label the input focus.
    FocusWindow(String),
    /// Ask whether the window with this label is visible.
    QueryVisible(String),
    /// Change the dock presentation.
    SetActivationPolicy(ActivationPolicy),
    /// Show a one-shot system notification with this title.
    Notify(String),
    /// Terminate the process with this exit code.
    Exit(i32),
}

/// The mathematical value of a [`HostCall`].
pub enum HostCallView {
    PreventClose,
    HideWindow(Seq<char>),
    ShowWindow(Seq<char>),
    FocusWindow(Seq<char>),
    QueryVisible(Seq<char>),
    SetActivationPolicy(ActivationPolicy),
    Notify(Seq<char>),
    Exit(i32),
}

impl View for HostCall {
    type V = HostCallView;

    open spec fn view(&self) -> HostCallView {
        match self {
            HostCall::PreventClose => HostCallView::PreventClose,
            HostCall::HideWindow(label) => HostCallView::HideWindow(label@),
            HostCall::ShowWindow(label) => HostCallView::ShowWindow(label@),
            HostCall::FocusWindow(label) => HostCallView::FocusWindow(label@),
            HostCall::QueryVisible(label) => HostCallView::QueryVisible(label@),
            HostCall::SetActivationPolicy(policy) => HostCallView::SetActivationPolicy(*policy),
            HostCall::Notify(title) => HostCallView::Notify(title@),
            HostCall::Exit(code) => HostCallView::Exit(*code),
        }
    }
}

/// What the host runtime answered to a [`HostCall`].
#[derive(Clone, Debug, PartialEq, Eq)]
pub enum HostReply {
    /// The call was carried out.
    Done,
    /// The answer to [`HostCall::QueryVisible`].
    Visible(bool),
    /// No window has the label that the call named.
    WindowMissing,
    /// The runtime reported an error, described by this message.
    Failed(String),
}

/// The mathematical value of a [`HostReply`].
pub enum HostReplyView {
    Done,
    Visible(bool),
    WindowMissing,
    Failed(Seq<char>),
}

impl View for HostReply {
    type V = HostReplyView;

    open spec fn view(&self) -> HostReplyView {
        match self {
            HostReply::Done => HostReplyView::Done,
            HostReply::Visible(visible) => HostReplyView::Visible(*visible),
            HostReply::WindowMissing => HostReplyView::WindowMissing,
            HostReply::Failed(message) => HostReplyView::Failed(message@),
        }
    }
}

impl HostReplyView {
    /// Whether the reply says that the window is visible. Only
    /// `Visible(true)` does.
    pub open spec fn shows_window(self) -> bool {
        self == HostReplyView::Visible(true)
    }
}

/// An error of the host runtime, as the message it gave.
#[derive(Clone, Debug, PartialEq, Eq)]
pub struct HostError {
    pub message: String,
}

impl View for HostError {
    type V = Seq<char>;

    open spec fn view(&self) -> Seq<char> {
        self.message@
    }
}

impl HostError {
    /// The text a user is shown for this error.
    pub fn to_string(&self) -> (text: String)
        ensures
            text@ == self@,
    {
        self.message.clone()
    }
}

impl HostReply {
    /// Whether the reply says that the window is visible.
    pub fn shows_window(&self) -> (visible: bool)
        ensures
            visible == self@.shows_window(),
    {
        match self {
            HostReply::Visible(visible) => *visible,
            _ => false,
        }
    }
}

/// Where a controller stands after one step.
#[derive(Debug, PartialEq, Eq)]
pub enum Progress<E> {
    /// The host is to carry out this call; the controller is resumed with
    /// the reply.
    Call(HostCall),
    /// The event has been handled.
    Done,
    /// Handling stopped with this error. Nothing more is asked of the host.
    Failed(E),
}

/// The mathematical value of a [`Progress`].
pub enum ProgressView<E> {
    Call(HostCallView),
    Done,
    Failed(E),
}

impl<E: View> View for Progress<E> {
    type V = ProgressView<E::V>;

    open spec fn view(&self) -> ProgressView<E::V> {
        match self {
            Progress::Call(call) => ProgressView::Call(call@),
            Progress::Done => ProgressView::Done,
            Progress::Failed(error) => ProgressView::Failed(error@),
        }
    }
}

} // verus!
