//! A model of the host runtime, and what the controllers do when they run
//! against it.
//!
//! The model holds what the controllers can change through their calls: the
//! primary window, the dock presentation, the notices shown so far, and
//! whether the process was asked to exit. A host may refuse calls; a
//! refused call changes nothing and is answered with a message.

use crate::event_handler::{
    close_step, reopen_step, run_event_step, CloseStage, ReopenEventErrorView, ReopenStage,
    RunEventView, RunStage, StepView, WindowCloseEventErrorView, STILL_RUNNING_NOTICE,
};
use crate::host::{
    ActivationPolicy, ClosePolicy, HostCallView, HostReplyView, PlatformChrome, ProgressView,
};
use crate::state::{AppView, MAIN_WINDOW_LABEL};
use crate::tray::event::{
    left_click_step, refreshed_label, right_click_step, tray_icon_event_step, RefreshStage,
    TrayIconEvent, TrayIconLeftClickErrorView, TrayIconRightClickErrorView, TrayStage,
    HIDE_OR_SHOW_ID,
};
use crate::tray::menu::{
    menu_click_step, MenuStage, TrayMenuEventErrorView, QUIT_ID,
};
use crate::tray::toggle::ToggleStage;
use vstd::prelude::*;

verus! {

/// The primary window as the host holds it.
pub struct WindowModel {
    pub label: Seq<char>,
    pub visible: bool,
    pub focused: bool,
}

/// The host runtime, as far as the controllers can change or observe it.
pub struct HostModel {
    /// The primary window, while it exists.
    pub window: Option<WindowModel>,
    /// The dock presentation.
    pub policy: ActivationPolicy,
    /// The titles of the notices shown so far, oldest first.
    pub notices: Seq<Seq<char>>,
    /// Whether a requested close has been intercepted.
    pub close_prevented: bool,
    /// The exit code, once the process has been asked to exit.
    pub exit_code: Option<i32>,
    /// The calls that this host fails, each with the message it gives.
    pub refuses: spec_fn(HostCallView) -> Option<Seq<char>>,
}

impl HostModel {
    /// Whether this host carries out every call.
    pub open spec fn reliable(self) -> bool {
        forall|call: HostCallView| (#[trigger] (self.refuses)(call)) is None
    }

    /// Whether the host has a window with this label.
    pub open spec fn has_window(self, label: Seq<char>) -> bool {
        self.window is Some && self.window->0.label == label
    }

    /// What the host answers to `call`.
    pub open spec fn answer(self, call: HostCallView) -> HostReplyView {
        match (self.refuses)(call) {
            Some(message) => HostReplyView::Failed(message),
            None => match call {
                HostCallView::HideWindow(label)
                | HostCallView::ShowWindow(label)
                | HostCallView::FocusWindow(label) => if self.has_window(label) {
                    HostReplyView::Done
                } else {
                    HostReplyView::WindowMissing
                },
                HostCallView::QueryVisible(label) => if self.has_window(label) {
                    HostReplyView::Visible(self.window->0.visible)
                } else {
                    HostReplyView::WindowMissing
                },
                _ => HostReplyView::Done,
            },
        }
    }

    /// The host after it has dealt with `call`.
    pub open spec fn after(self, call: HostCallView) -> HostModel {
        if (self.refuses)(call) is Some {
            self
        } else {
            match call {
                HostCallView::PreventClose => HostModel { close_prevented: true, ..self },
                HostCallView::HideWindow(label) => if self.has_window(label) {
                    HostModel {
                        window: Some(WindowModel { visible: false, ..self.window->0 }),
                        ..self
                    }
                } else {
                    self
                },
                HostCallView::ShowWindow(label) => if self.has_window(label) {
                    HostModel {
                        window: Some(WindowModel { visible: true, ..self.window->0 }),
                        ..self
                    }
                } else {
                    self
                },
                HostCallView::FocusWindow(label) => if self.has_window(label) {
                    HostModel {
                        window: Some(WindowModel { focused: true, ..self.window->0 }),
                        ..self
                    }
                } else {
                    self
                },
                HostCallView::QueryVisible(label) => self,
                HostCallView::SetActivationPolicy(policy) => HostModel { policy, ..self },
                HostCallView::Notify(title) => HostModel {
                    notices: self.notices.push(title),
                    ..self
                },
                HostCallView::Exit(code) => HostModel { exit_code: Some(code), ..self },
            }
        }
    }
}

/// How a run of a controller ended.
pub enum Ending<E> {
    /// The event has been handled.
    Done,
    /// Handling stopped with this error.
    Failed(E),
    /// The controller had not come to an end within the steps allowed.
    Unfinished,
}

/// A run of a controller against a host: the application and the host
/// after it, the calls made in order, and how it ended.
pub struct Run<E> {
    pub app: AppView,
    pub host: HostModel,
    pub calls: Seq<HostCallView>,
    pub ending: Ending<E>,
}

/// Runs a controller from `stage` against `host`: each call it makes is
/// dealt with by the host, and the controller is resumed with the host's
/// answer, for at most `steps` calls.
pub open spec fn run<S, E>(
    step: spec_fn(AppView, S, HostReplyView) -> StepView<S, E>,
    app: AppView,
    host: HostModel,
    stage: S,
    reply: HostReplyView,
    steps: nat,
) -> Run<E>
    decreases steps,
{
    let next = step(app, stage, reply);
    match next.progress {
        ProgressView::Done => Run { app: next.app, host, calls: seq![], ending: Ending::Done },
        ProgressView::Failed(error) => Run {
            app: next.app,
            host,
            calls: seq![],
            ending: Ending::Failed(error),
        },
        ProgressView::Call(call) => if steps == 0 {
            Run { app: next.app, host, calls: seq![], ending: Ending::Unfinished }
        } else {
            let rest = run(
                step,
                next.app,
                host.after(call),
                next.stage,
                host.answer(call),
                (steps - 1) as nat,
            );
            Run { calls: seq![call] + rest.calls, ..rest }
        },
    }
}

impl HostModel {
    /// The host at the moment a close of the primary window is requested:
    /// nothing has intercepted the close yet.
    pub open spec fn close_requested(self) -> HostModel {
        HostModel { close_prevented: false, ..self }
    }

    /// The host once a close request has been handled: the window is
    /// destroyed unless the close was intercepted.
    pub open spec fn close_settled(self) -> HostModel {
        if self.close_prevented {
            self
        } else {
            HostModel { window: None, ..self }
        }
    }
}

/// The handling of one close request on the primary window, from the
/// request to the moment the host acts on what the controller decided.
pub open spec fn close_request(app: AppView, host: HostModel) -> Run<WindowCloseEventErrorView> {
    let handled = run(
        |app: AppView, stage: CloseStage, reply: HostReplyView| close_step(app, stage, reply),
        app,
        host.close_requested(),
        CloseStage::Start,
        HostReplyView::Done,
        4,
    );
    Run { host: handled.host.close_settled(), ..handled }
}

/// The application and the host after `count` close requests on the
/// primary window, handled one after the other.
pub open spec fn after_close_requests(app: AppView, host: HostModel, count: nat) -> (
    AppView,
    HostModel,
)
    decreases count,
{
    if count == 0 {
        (app, host)
    } else {
        let before = after_close_requests(app, host, (count - 1) as nat);
        let last = close_request(before.0, before.1);
        (last.app, last.host)
    }
}

/// The handling of one left click on the tray icon, from its start to its
/// end.
pub open spec fn left_click(app: AppView, host: HostModel) -> Run<TrayIconLeftClickErrorView> {
    run(
        |app: AppView, stage: ToggleStage, reply: HostReplyView|
            left_click_step(app, stage, reply),
        app,
        host,
        ToggleStage::Start,
        HostReplyView::Done,
        4,
    )
}

/// The handling of one right click on the tray icon, from its start to
/// its end.
pub open spec fn right_click(app: AppView, host: HostModel) -> Run<TrayIconRightClickErrorView> {
    run(
        |app: AppView, stage: RefreshStage, reply: HostReplyView|
            right_click_step(app, stage, reply),
        app,
        host,
        RefreshStage::Start,
        HostReplyView::Done,
        1,
    )
}

/// The handling of one reopen, from its start to its end.
pub open spec fn reopen(app: AppView, host: HostModel) -> Run<ReopenEventErrorView> {
    run(
        |app: AppView, stage: ReopenStage, reply: HostReplyView| reopen_step(app, stage, reply),
        app,
        host,
        ReopenStage::Start,
        HostReplyView::Done,
        3,
    )
}

/// The handling of one click on the menu entry `menu_id`, from its start
/// to its end.
pub open spec fn menu_click(app: AppView, host: HostModel, menu_id: Seq<char>) -> Run<
    TrayMenuEventErrorView,
> {
    run(
        |app: AppView, stage: MenuStage, reply: HostReplyView|
            menu_click_step(app, menu_id, stage, reply),
        app,
        host,
        MenuStage::Start,
        HostReplyView::Done,
        4,
    )
}

/// Whether a close request makes this host show the notice of the first
/// close: the application keeps running when its window is closed, the
/// window state is registered, the notice has not been shown yet, and the
/// host does not refuse the notice.
pub open spec fn notice_due(app: AppView, host: HostModel) -> bool {
    &&& app.close_policy == ClosePolicy::KeepRunning
    &&& app.window_state is Some
    &&& app.window_state->0.is_first_close_event
    &&& (host.refuses)(HostCallView::Notify(app.label(STILL_RUNNING_NOTICE@))) is None
}

/// The application once the notice has been shown.
pub open spec fn notified(app: AppView) -> AppView {
    AppView {
        window_state: match app.window_state {
            Some(window) => Some(window.notified()),
            None => None,
        },
        ..app
    }
}

/// One close request shows the notice exactly when it is due, as the
/// newest notice, and the notice is not due again once it has been shown.
/// In the application nothing but the flag of the window state changes,
/// and the handling always comes to an end.
pub proof fn lemma_close_request_notice(app: AppView, host: HostModel)
    ensures
        close_request(app, host).host.notices == (if notice_due(app, host) {
            host.notices.push(app.label(STILL_RUNNING_NOTICE@))
        } else {
            host.notices
        }),
        close_request(app, host).app == (if notice_due(app, host) {
            notified(app)
        } else {
            app
        }),
        close_request(app, host).host.refuses == host.refuses,
        !(close_request(app, host).ending is Unfinished),
{
    reveal_with_fuel(run, 6);
}

/// Of any number of close requests, handled one after the other, at most
/// the first shows the notice: it is shown once if it is due at the first
/// request, and never otherwise.
pub proof fn lemma_notice_shown_once(app: AppView, host: HostModel, count: nat)
    requires
        count >= 1,
    ensures
        after_close_requests(app, host, count).1.notices == (if notice_due(app, host) {
            host.notices.push(app.label(STILL_RUNNING_NOTICE@))
        } else {
            host.notices
        }),
        after_close_requests(app, host, count).0 == (if notice_due(app, host) {
            notified(app)
        } else {
            app
        }),
        after_close_requests(app, host, count).1.refuses == host.refuses,
    decreases count,
{
    if count == 1 {
        assert(after_close_requests(app, host, 0) == (app, host));
        lemma_close_request_notice(app, host);
    } else {
        lemma_notice_shown_once(app, host, (count - 1) as nat);
        let before = after_close_requests(app, host, (count - 1) as nat);
        lemma_close_request_notice(before.0, before.1);
    }
}

/// In an application that keeps running, a close request does not destroy
/// the primary window. The interception is the first thing asked of the
/// host, the process is never asked to exit, and unless the host refuses
/// the interception, a window that exists still exists afterwards under
/// its label, changed at most in that it is hidden: it is hidden if the
/// host does not refuse that.
pub proof fn lemma_close_request_keeps_window(app: AppView, host: HostModel)
    requires
        app.close_policy == ClosePolicy::KeepRunning,
    ensures
        close_request(app, host).calls.len() >= 1,
        close_request(app, host).calls[0] == HostCallView::PreventClose,
        forall|index: int|
            0 <= index < close_request(app, host).calls.len() ==> !(#[trigger] close_request(
                app,
                host,
            ).calls[index] is Exit),
        close_request(app, host).host.exit_code == host.exit_code,
        (host.refuses)(HostCallView::PreventClose) is None ==> {
            &&& close_request(app, host).host.window is Some <==> host.window is Some
            &&& host.window is Some ==> close_request(app, host).host.window->0 == host.window->0
                || close_request(app, host).host.window->0 == (WindowModel {
                visible: false,
                ..host.window->0
            })
            &&& host.has_window(MAIN_WINDOW_LABEL@) && (host.refuses)(
                HostCallView::HideWindow(MAIN_WINDOW_LABEL@),
            ) is None ==> !close_request(app, host).host.window->0.visible
        },
{
    reveal_with_fuel(run, 6);
}

/// In an application that lets a close proceed, a close request asks
/// nothing of the host, shows no notice, and the host destroys the window.
pub proof fn lemma_close_request_proceeds(app: AppView, host: HostModel)
    requires
        app.close_policy == ClosePolicy::Proceed,
    ensures
        close_request(app, host).calls.len() == 0,
        close_request(app, host).ending is Done,
        close_request(app, host).app == app,
        close_request(app, host).host.window is None,
        close_request(app, host).host.notices == host.notices,
{
    reveal_with_fuel(run, 2);
}

/// What a left click does on a host that carries out every call, when the
/// window state is registered and the host has the window it names: the
/// window's visibility is flipped, no notice is shown, and the
/// application stays as it is.
pub proof fn lemma_left_click_flips(app: AppView, host: HostModel)
    requires
        host.reliable(),
        app.window_state is Some,
        host.has_window(app.window_state->0.main_window_label),
    ensures
        left_click(app, host).ending is Done,
        left_click(app, host).app == app,
        left_click(app, host).host.window is Some,
        left_click(app, host).host.window->0.label == host.window->0.label,
        left_click(app, host).host.window->0.visible == !host.window->0.visible,
        left_click(app, host).host.notices == host.notices,
        left_click(app, host).host.refuses == host.refuses,
        left_click(app, host).host.exit_code == host.exit_code,
{
    reveal_with_fuel(run, 6);
    let label = app.window_state->0.main_window_label;
    assert((host.refuses)(HostCallView::QueryVisible(label)) is None);
    assert((host.refuses)(HostCallView::HideWindow(label)) is None);
    assert((host.refuses)(HostCallView::ShowWindow(label)) is None);
    assert((host.refuses)(HostCallView::FocusWindow(label)) is None);
    assert((host.refuses)(HostCallView::SetActivationPolicy(ActivationPolicy::Regular)) is None);
}

/// Two left clicks in a row bring the window back to the visibility it
/// had: from hidden it is shown and hidden again, from shown it is hidden
/// and shown again. No notice is shown on the way, and the application
/// stays as it is.
pub proof fn lemma_left_click_twice(app: AppView, host: HostModel)
    requires
        host.reliable(),
        app.window_state is Some,
        host.has_window(app.window_state->0.main_window_label),
    ensures
        ({
            let once = left_click(app, host);
            let twice = left_click(once.app, once.host);
            &&& twice.ending is Done
            &&& twice.app == app
            &&& twice.host.window is Some
            &&& twice.host.window->0.visible == host.window->0.visible
            &&& twice.host.notices == host.notices
        }),
{
    lemma_left_click_flips(app, host);
    let once = left_click(app, host);
    lemma_left_click_flips(once.app, once.host);
}

/// On a host that carries out every call and has the primary window, a
/// reopen brings the application forward: the dock icon is restored where
/// there is a dock, and the window ends up shown and focused. No notice is
/// shown, and the application stays as it is.
pub proof fn lemma_reopen_brings_forward(app: AppView, host: HostModel)
    requires
        host.reliable(),
        host.has_window(MAIN_WINDOW_LABEL@),
    ensures
        reopen(app, host).ending is Done,
        reopen(app, host).app == app,
        reopen(app, host).host.window == Some(
            WindowModel { visible: true, focused: true, ..host.window->0 },
        ),
        reopen(app, host).host.policy == (match app.chrome {
            PlatformChrome::Dock => ActivationPolicy::Regular,
            PlatformChrome::Plain => host.policy,
        }),
        reopen(app, host).host.notices == host.notices,
        reopen(app, host).host.exit_code == host.exit_code,
{
    reveal_with_fuel(run, 5);
    assert((host.refuses)(HostCallView::ShowWindow(MAIN_WINDOW_LABEL@)) is None);
    assert((host.refuses)(HostCallView::FocusWindow(MAIN_WINDOW_LABEL@)) is None);
    assert((host.refuses)(HostCallView::SetActivationPolicy(ActivationPolicy::Regular)) is None);
}

/// A right click asks the host one thing, whether the window is visible,
/// and changes nothing on it. With the menu state and the window state
/// registered, the window there and a hide-or-show entry in the menu, that
/// entry then carries the label for the host's answer, and nothing else in
/// the application has changed.
pub proof fn lemma_right_click_refreshes(app: AppView, host: HostModel)
    requires
        app.menu_state is Some,
        app.window_state is Some,
        host.has_window(app.window_state->0.main_window_label),
        app.menu_state->0.has_item(HIDE_OR_SHOW_ID@),
    ensures
        ({
            let query = HostCallView::QueryVisible(app.window_state->0.main_window_label);
            &&& right_click(app, host).ending is Done
            &&& right_click(app, host).calls == seq![query]
            &&& right_click(app, host).host == host
            &&& right_click(app, host).app == (AppView {
                menu_state: Some(
                    app.menu_state->0.with_text(
                        HIDE_OR_SHOW_ID@,
                        refreshed_label(app, host.answer(query)),
                    ),
                ),
                ..app
            })
            &&& (host.refuses)(query) is None ==> host.answer(query) == HostReplyView::Visible(
                host.window->0.visible,
            )
        }),
{
    reveal_with_fuel(run, 3);
    let query = HostCallView::QueryVisible(app.window_state->0.main_window_label);
    assert(right_click(app, host).calls =~= seq![query]);
}

/// A click on the quit entry asks the host to exit with code 0 and asks
/// nothing else: no close is requested or intercepted on the way, and the
/// application stays as it is.
pub proof fn lemma_quit_exits(app: AppView, host: HostModel)
    ensures
        menu_click(app, host, QUIT_ID@).calls == seq![HostCallView::Exit(0)],
        menu_click(app, host, QUIT_ID@).ending is Done,
        menu_click(app, host, QUIT_ID@).app == app,
        (host.refuses)(HostCallView::Exit(0)) is None ==> menu_click(app, host, QUIT_ID@).host
            == (HostModel { exit_code: Some(0), ..host }),
{
    reveal_with_fuel(run, 3);
    assert(menu_click(app, host, QUIT_ID@).calls =~= seq![HostCallView::Exit(0)]);
}

/// A click on the hide-or-show entry does what a left click does on a
/// host that carries out every call: the window's visibility is flipped,
/// no notice is shown, and the application stays as it is.
pub proof fn lemma_hide_entry_flips(app: AppView, host: HostModel)
    requires
        host.reliable(),
        app.window_state is Some,
        host.has_window(app.window_state->0.main_window_label),
    ensures
        menu_click(app, host, HIDE_OR_SHOW_ID@).ending is Done,
        menu_click(app, host, HIDE_OR_SHOW_ID@).app == app,
        menu_click(app, host, HIDE_OR_SHOW_ID@).host.window is Some,
        menu_click(app, host, HIDE_OR_SHOW_ID@).host.window->0.visible
            == !host.window->0.visible,
        menu_click(app, host, HIDE_OR_SHOW_ID@).host.window->0.visible == left_click(
            app,
            host,
        ).host.window->0.visible,
        menu_click(app, host, HIDE_OR_SHOW_ID@).host.notices == host.notices,
        menu_click(app, host, HIDE_OR_SHOW_ID@).host.exit_code == host.exit_code,
{
    reveal_with_fuel(run, 6);
    reveal_strlit("Quit");
    reveal_strlit("Hide");
    assert(QUIT_ID@[0] != HIDE_OR_SHOW_ID@[0]);
    let label = app.window_state->0.main_window_label;
    assert((host.refuses)(HostCallView::QueryVisible(label)) is None);
    assert((host.refuses)(HostCallView::HideWindow(label)) is None);
    assert((host.refuses)(HostCallView::ShowWindow(label)) is None);
    assert((host.refuses)(HostCallView::FocusWindow(label)) is None);
    assert((host.refuses)(HostCallView::SetActivationPolicy(ActivationPolicy::Regular)) is None);
}

/// A click on an entry that is neither the quit entry nor the hide-or-show
/// entry asks nothing of the host and changes nothing.
pub proof fn lemma_unknown_entry_changes_nothing(
    app: AppView,
    host: HostModel,
    menu_id: Seq<char>,
)
    requires
        menu_id != QUIT_ID@,
        menu_id != HIDE_OR_SHOW_ID@,
    ensures
        menu_click(app, host, menu_id).ending == Ending::Failed(
            TrayMenuEventErrorView::UnknownMenuId(menu_id),
        ),
        menu_click(app, host, menu_id).calls.len() == 0,
        menu_click(app, host, menu_id).app == app,
        menu_click(app, host, menu_id).host == host,
{
    reveal_with_fuel(run, 2);
}

/// Whether `after` can follow `before` in the life of the application:
/// what is registered stays registered and nothing new is registered, the
/// window keeps its label, the menu keeps its entries' identifiers in
/// their order, and the flag of the first close, once fallen, stays down.
pub open spec fn follows(before: AppView, after: AppView) -> bool {
    &&& after.chrome == before.chrome
    &&& after.close_policy == before.close_policy
    &&& after.translator_state == before.translator_state
    &&& after.window_state is Some <==> before.window_state is Some
    &&& before.window_state is Some ==> {
        &&& after.window_state->0.main_window_label == before.window_state->0.main_window_label
        &&& after.window_state->0.is_first_close_event
            ==> before.window_state->0.is_first_close_event
    }
    &&& after.menu_state is Some <==> before.menu_state is Some
    &&& before.menu_state is Some ==> {
        &&& after.menu_state->0.id == before.menu_state->0.id
        &&& after.menu_state->0.items.len() == before.menu_state->0.items.len()
        &&& forall|index: int|
            0 <= index < before.menu_state->0.items.len() ==> (
            #[trigger] after.menu_state->0.items[index]).id
                == before.menu_state->0.items[index].id
    }
}

/// No step of any controller takes the application anywhere it cannot go:
/// after a step the application follows the one before it. Only the
/// handling of a close request touches the window state, and only the
/// handling of a right click touches the menu.
pub proof fn lemma_steps_follow(
    app: AppView,
    run_event: RunEventView,
    run_stage: RunStage,
    tray_event: TrayIconEvent,
    tray_stage: TrayStage,
    menu_id: Seq<char>,
    menu_stage: MenuStage,
    reply: HostReplyView,
)
    ensures
        follows(app, run_event_step(app, run_event, run_stage, reply).app),
        run_event_step(app, run_event, run_stage, reply).app.menu_state == app.menu_state,
        follows(app, tray_icon_event_step(app, tray_event, tray_stage, reply).app),
        tray_icon_event_step(app, tray_event, tray_stage, reply).app.window_state
            == app.window_state,
        menu_click_step(app, menu_id, menu_stage, reply).app == app,
{
}

} // verus!
