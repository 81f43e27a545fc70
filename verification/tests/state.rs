use lavascope::host::{ClosePolicy, PlatformChrome};
use lavascope::locale::Locale;
use lavascope::menu::Menu;
use lavascope::state::{
    App, MenuState, MenuStateError, StateError, TranslatorState, WindowState, WindowStateError,
    MAIN_WINDOW_LABEL,
};
use lavascope::translator::Translator;

fn empty_app() -> App {
    App::new(PlatformChrome::Plain, ClosePolicy::KeepRunning)
}

#[test]
fn the_main_window_is_labelled_main() {
    assert_eq!(MAIN_WINDOW_LABEL, "main");
}

#[test]
fn a_new_window_state_waits_for_the_first_close() {
    let state = WindowState::new("settings");
    assert!(state.is_first_close_event);
    assert_eq!(state.main_window_label, "settings");
}

#[test]
fn the_default_window_state_is_for_the_main_window() {
    let state = WindowState::default();
    assert!(state.is_first_close_event);
    assert_eq!(state.main_window_label, "main");
}

#[test]
fn a_new_app_has_nothing_registered() {
    let app = App::new(PlatformChrome::Dock, ClosePolicy::Proceed);
    assert!(app.window_state.is_none());
    assert!(app.menu_state.is_none());
    assert!(app.translator_state.is_none());
    assert_eq!(app.chrome, PlatformChrome::Dock);
    assert_eq!(app.close_policy, ClosePolicy::Proceed);
}

#[test]
fn state_that_is_not_registered_cannot_be_borrowed() {
    let app = empty_app();
    assert_eq!(
        WindowState::try_borrow_from_app(&app).unwrap_err(),
        WindowStateError::RetrieveWindowStateFailed
    );
    assert_eq!(
        MenuState::try_borrow_from_app(&app).unwrap_err(),
        MenuStateError::RetrieveMenuStateFailed
    );
    assert!(matches!(
        TranslatorState::try_borrow_from_app(&app),
        Err(StateError::RetrieveTranslatorStateFailed)
    ));
}

#[test]
fn registered_state_can_be_borrowed() {
    let mut app = empty_app();
    assert!(app.manage_window_state(WindowState::new("main")));
    assert!(app.manage_menu_state(MenuState { menu: Menu::with_id_and_items("tray-menu", vec![]) }));
    let mut translator = Translator::new();
    translator.set_locale(Locale::ZH);
    assert!(app.manage_translator_state(TranslatorState { translator }));

    let window = WindowState::try_borrow_from_app(&app).unwrap();
    assert_eq!(window.main_window_label, "main");
    assert!(window.is_first_close_event);
    let menu = MenuState::try_borrow_from_app(&app).unwrap();
    assert_eq!(menu.menu.id, "tray-menu");
    let translator = TranslatorState::try_borrow_from_app(&app).ok().unwrap();
    assert_eq!(translator.translator.get_locale(), Some(Locale::ZH));
}

#[test]
fn what_was_registered_first_stays() {
    let mut app = empty_app();
    assert!(app.manage_window_state(WindowState::new("first")));
    assert!(!app.manage_window_state(WindowState::new("second")));
    assert_eq!(WindowState::try_borrow_from_app(&app).unwrap().main_window_label, "first");

    assert!(app.manage_menu_state(MenuState { menu: Menu::with_id_and_items("one", vec![]) }));
    assert!(!app.manage_menu_state(MenuState { menu: Menu::with_id_and_items("two", vec![]) }));
    assert_eq!(MenuState::try_borrow_from_app(&app).unwrap().menu.id, "one");

    let mut chinese = Translator::new();
    chinese.set_locale(Locale::ZH);
    assert!(app.manage_translator_state(TranslatorState { translator: chinese }));
    assert!(!app.manage_translator_state(TranslatorState { translator: Translator::new() }));
    let kept = TranslatorState::try_borrow_from_app(&app).ok().unwrap();
    assert_eq!(kept.translator.get_locale(), Some(Locale::ZH));
}

#[test]
fn label_falls_back_to_the_key() {
    let mut app = empty_app();
    assert_eq!(app.label("Hide"), "Hide");
    let mut translator = Translator::new();
    translator.set_locale(Locale::ZH);
    translator.insert_message(
        "Hide".to_string(),
        lavascope::translator::Message::from_pairs(vec![(Locale::ZH, "隐藏".to_string())]),
    );
    app.manage_translator_state(TranslatorState { translator });
    assert_eq!(app.label("Hide"), "隐藏");
    assert_eq!(app.label("Show"), "Show");
}

#[test]
fn state_errors_have_their_messages() {
    assert_eq!(
        WindowStateError::RetrieveWindowStateFailed.to_string(),
        "Failed to get window state"
    );
    assert_eq!(MenuStateError::RetrieveMenuStateFailed.to_string(), "Failed to get menu state");
    assert_eq!(
        StateError::RetrieveTranslatorStateFailed.to_string(),
        "Failed to get translator state"
    );
    assert_eq!(StateError::RetrieveMenuStateFailed.to_string(), "Failed to get menu state");
}
