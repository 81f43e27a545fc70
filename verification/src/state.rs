//! The state that the controllers share for the lifetime of the process,
//! and the place where it is registered.

use crate::host::{ClosePolicy, PlatformChrome};
use crate::menu::{Menu, MenuView};
use crate::translator::{Translator, TranslatorView};
use vstd::prelude::*;

verus! {

/// The label of the application's primary window.
pub const MAIN_WINDOW_LABEL: &'static str = "main";

/// The window state was asked for before it was registered.
#[derive(Clone, Copy, Debug, PartialEq, Eq, Structural)]
pub enum WindowStateError {
    RetrieveWindowStateFailed,
}

impl WindowStateError {
    /// The text a user is shown for this error.
    pub open spec fn message(self) -> Seq<char> {
        "Failed to get window state"@
    }

    /// The text a user is shown for this error.
    pub fn to_string(&self) -> (text: String)
        ensures
            text@ == self.message(),
    {
        "Failed to get window state".to_owned()
    }
}

/// The menu state was asked for before it was registered.
#[derive(Clone, Copy, Debug, PartialEq, Eq, Structural)]
pub enum MenuStateError {
    RetrieveMenuStateFailed,
}

impl MenuStateError {
    /// The text a user is shown for this error.
    pub open spec fn message(self) -> Seq<char> {
        "Failed to get menu state"@
    }

    /// The text a user is shown for this error.
    pub fn to_string(&self) -> (text: String)
        ensures
            text@ == self.message(),
    {
        "Failed to get menu state".to_owned()
    }
}

/// A piece of shared state was asked for before it was registered.
#[derive(Clone, Copy, Debug, PartialEq, Eq, Structural)]
pub enum StateError {
    RetrieveTranslatorStateFailed,
    RetrieveMenuStateFailed,
}

impl StateError {
    /// The text a user is shown for this error.
    pub open spec fn message(self) -> Seq<char> {
        match self {
            StateError::RetrieveTranslatorStateFailed => "Failed to get translator state"@,
            StateError::RetrieveMenuStateFailed => "Failed to get menu state"@,
        }
    }

    /// The text a user is shown for this error.
    pub fn to_string(&self) -> (text: String)
        ensures
            text@ == self.message(),
    {
        match self {
            StateError::RetrieveTranslatorStateFailed => "Failed to get translator state".to_owned(),
            StateError::RetrieveMenuStateFailed => "Failed to get menu state".to_owned(),
        }
    }
}

/// What the application remembers about its primary window.
#[derive(Debug, PartialEq, Eq)]
pub struct WindowState {
    /// `true` until the notice that the application keeps running in the
    /// background has been shown; `false` from then on.
    pub is_first_close_event: bool,
    /// The label of the primary window, fixed when the state is made.
    pub main_window_label: String,
}

/// The mathematical value of a [`WindowState`].
pub struct WindowStateView {
    pub is_first_close_event: bool,
    pub main_window_label: Seq<char>,
}

impl View for WindowState {
    type V = WindowStateView;

    open spec fn view(&self) -> WindowStateView {
        WindowStateView {
            is_first_close_event: self.is_first_close_event,
            main_window_label: self.main_window_label@,
        }
    }
}

impl WindowStateView {
    /// The state of a window with this label that has not been closed yet.
    pub open spec fn fresh(main_window_label: Seq<char>) -> WindowStateView {
        WindowStateView { is_first_close_event: true, main_window_label }
    }

    /// This state once the background notice has been shown.
    pub open spec fn notified(self) -> WindowStateView {
        WindowStateView { is_first_close_event: false, ..self }
    }
}

impl WindowState {
    /// The state of a window with this label that has not been closed yet.
    pub fn new(main_window_label: &str) -> (state: WindowState)
        ensures
            state@ == WindowStateView::fresh(main_window_label@),
    {
        let mut state = WindowState::default();
        state.main_window_label = main_window_label.to_owned();
        state
    }

    /// The registered window state, or the reason why there is none.
    pub fn try_borrow_from_app(app: &App) -> (borrowed: Result<&WindowState, WindowStateError>)
        ensures
            match borrowed {
                Ok(state) => app.window_state == Some(*state),
                Err(error) => app.window_state is None && error
                    == WindowStateError::RetrieveWindowStateFailed,
            },
    {
        match &app.window_state {
            Some(state) => Ok(state),
            None => Err(WindowStateError::RetrieveWindowStateFailed),
        }
    }
}

impl Default for WindowState {
    /// The state of a window labelled [`MAIN_WINDOW_LABEL`] that has not
    /// been closed yet.
    fn default() -> (state: WindowState)
        ensures
            state@ == WindowStateView::fresh(MAIN_WINDOW_LABEL@),
    {
        WindowState { is_first_close_event: true, main_window_label: MAIN_WINDOW_LABEL.to_owned() }
    }
}

/// The tray's context menu, kept so that its labels can be changed later.
#[derive(Debug, PartialEq, Eq)]
pub struct MenuState {
    pub menu: Menu,
}

impl View for MenuState {
    type V = MenuView;

    open spec fn view(&self) -> MenuView {
        self.menu@
    }
}

impl MenuState {
    /// The registered menu state, or the reason why there is none.
    pub fn try_borrow_from_app(app: &App) -> (borrowed: Result<&MenuState, MenuStateError>)
        ensures
            match borrowed {
                Ok(state) => app.menu_state == Some(*state),
                Err(error) => app.menu_state is None && error
                    == MenuStateError::RetrieveMenuStateFailed,
            },
    {
        match &app.menu_state {
            Some(state) => Ok(state),
            None => Err(MenuStateError::RetrieveMenuStateFailed),
        }
    }
}

/// The translation registry with the active locale.
pub struct TranslatorState {
    pub translator: Translator,
}

impl View for TranslatorState {
    type V = TranslatorView;

    open spec fn view(&self) -> TranslatorView {
        self.translator@
    }
}

impl TranslatorState {
    /// The registered translator state, or the reason why there is none.
    pub fn try_borrow_from_app(app: &App) -> (borrowed: Result<&TranslatorState, StateError>)
        ensures
            match borrowed {
                Ok(state) => app.translator_state == Some(*state),
                Err(error) => app.translator_state is None && error
                    == StateError::RetrieveTranslatorStateFailed,
            },
    {
        match &app.translator_state {
            Some(state) => Ok(state),
            None => Err(StateError::RetrieveTranslatorStateFailed),
        }
    }
}

/// The application as the controllers see it: the pieces of shared state
/// that have been registered so far, the kind of platform it runs on, and
/// what it does when its primary window is asked to close.
pub struct App {
    pub window_state: Option<WindowState>,
    pub menu_state: Option<MenuState>,
    pub translator_state: Option<TranslatorState>,
    pub chrome: PlatformChrome,
    pub close_policy: ClosePolicy,
}

/// The mathematical value of an [`App`].
pub struct AppView {
    pub window_state: Option<WindowStateView>,
    pub menu_state: Option<MenuView>,
    pub translator_state: Option<TranslatorView>,
    pub chrome: PlatformChrome,
    pub close_policy: ClosePolicy,
}

impl View for App {
    type V = AppView;

    open spec fn view(&self) -> AppView {
        AppView {
            window_state: match self.window_state {
                Some(state) => Some(state@),
                None => None,
            },
            menu_state: match self.menu_state {
                Some(state) => Some(state@),
                None => None,
            },
            translator_state: match self.translator_state {
                Some(state) => Some(state@),
                None => None,
            },
            chrome: self.chrome,
            close_policy: self.close_policy,
        }
    }
}

impl AppView {
    /// An application on the given platform, with the given answer to
    /// close requests and with nothing registered.
    pub open spec fn empty(chrome: PlatformChrome, close_policy: ClosePolicy) -> AppView {
        AppView {
            window_state: None,
            menu_state: None,
            translator_state: None,
            chrome,
            close_policy,
        }
    }

    /// The text of `key` in the active locale of the registered
    /// translator. Without a translator, or without such a text, it is
    /// `key` itself.
    pub open spec fn label(self, key: Seq<char>) -> Seq<char> {
        match self.translator_state {
            Some(translator) => translator.translate_or(key),
            None => key,
        }
    }
}

impl App {
    /// An application on the given platform, with the given answer to
    /// close requests and with nothing registered.
    pub fn new(chrome: PlatformChrome, close_policy: ClosePolicy) -> (app: App)
        ensures
            app@ == AppView::empty(chrome, close_policy),
    {
        App { window_state: None, menu_state: None, translator_state: None, chrome, close_policy }
    }

    /// Registers the window state, unless one is registered already, and
    /// says whether it did. What was registered first stays.
    pub fn manage_window_state(&mut self, state: WindowState) -> (registered: bool)
        ensures
            registered == (old(self)@.window_state is None),
            final(self)@ == (if registered {
                AppView { window_state: Some(state@), ..old(self)@ }
            } else {
                old(self)@
            }),
    {
        if self.window_state.is_none() {
            self.window_state = Some(state);
            true
        } else {
            false
        }
    }

    /// Registers the menu state, unless one is registered already, and
    /// says whether it did. What was registered first stays.
    pub fn manage_menu_state(&mut self, state: MenuState) -> (registered: bool)
        ensures
            registered == (old(self)@.menu_state is None),
            final(self)@ == (if registered {
                AppView { menu_state: Some(state@), ..old(self)@ }
            } else {
                old(self)@
            }),
    {
        if self.menu_state.is_none() {
            self.menu_state = Some(state);
            true
        } else {
            false
        }
    }

    /// Registers the translator state, unless one is registered already,
    /// and says whether it did. What was registered first stays.
    pub fn manage_translator_state(&mut self, state: TranslatorState) -> (registered: bool)
        ensures
            registered == (old(self)@.translator_state is None),
            final(self)@ == (if registered {
                AppView { translator_state: Some(state@), ..old(self)@ }
            } else {
                old(self)@
            }),
    {
        if self.translator_state.is_none() {
            self.translator_state = Some(state);
            true
        } else {
            false
        }
    }

    /// The text of `key` in the active locale of the registered
    /// translator, or `key` itself where there is none.
    pub fn label(&self, key: &str) -> (text: String)
        ensures
            text@ == self@.label(key@),
    {
        match &self.translator_state {
            Some(state) => state.translator.translate_or(key),
            None => key.to_owned(),
        }
    }
}

} // verus!
