use lavascope::commands::{initialize_translator, toggle_locale};
use lavascope::host::{ClosePolicy, PlatformChrome};
use lavascope::locale::Locale;
use lavascope::menu::{Menu, MenuItem};
use lavascope::state::{App, MenuState, TranslatorState};
use lavascope::translator::{Message, Translator};
use lavascope::tray::builder::create_tray;

fn texts(app: &App) -> Vec<(String, String)> {
    let menu = &MenuState::try_borrow_from_app(app).unwrap().menu;
    menu.items.iter().map(|item| (item.id.clone(), item.text.clone())).collect()
}

fn pair(id: &str, text: &str) -> (String, String) {
    (id.to_string(), text.to_string())
}

fn locale_of(app: &App) -> Option<Locale> {
    TranslatorState::try_borrow_from_app(app).ok().unwrap().translator.get_locale()
}

fn tray_app() -> App {
    let mut app = App::new(PlatformChrome::Plain, ClosePolicy::KeepRunning);
    initialize_translator(&mut app);
    create_tray(&mut app).unwrap();
    app
}

#[test]
fn the_translator_starts_in_english() {
    let mut app = App::new(PlatformChrome::Plain, ClosePolicy::KeepRunning);
    initialize_translator(&mut app);
    assert_eq!(locale_of(&app), Some(Locale::EN));
    let translator = &TranslatorState::try_borrow_from_app(&app).ok().unwrap().translator;
    assert_eq!(translator.translate_or("Hide"), "Hide");
    assert!(translator.resolve("Hide", Locale::EN).is_err());
}

#[test]
fn initializing_twice_keeps_the_first_translator() {
    let mut app = App::new(PlatformChrome::Plain, ClosePolicy::KeepRunning);
    initialize_translator(&mut app);
    if let Some(state) = &mut app.translator_state {
        state.translator.set_locale(Locale::ZH);
    }
    initialize_translator(&mut app);
    assert_eq!(locale_of(&app), Some(Locale::ZH));
}

#[test]
fn switching_the_locale_relabels_every_item() {
    let mut app = tray_app();
    assert_eq!(texts(&app), vec![pair("Hide", "Hide"), pair("Quit", "Quit")]);
    assert_eq!(toggle_locale(&mut app, "zh".to_string()), Ok(()));
    assert_eq!(locale_of(&app), Some(Locale::ZH));
    assert_eq!(texts(&app), vec![pair("Hide", "隐藏"), pair("Quit", "退出")]);
    assert_eq!(toggle_locale(&mut app, "zh-Hant".to_string()), Ok(()));
    assert_eq!(locale_of(&app), Some(Locale::ZhHant));
    assert_eq!(texts(&app), vec![pair("Hide", "隱藏"), pair("Quit", "退出")]);
    assert_eq!(toggle_locale(&mut app, "en".to_string()), Ok(()));
    assert_eq!(texts(&app), vec![pair("Hide", "Hide"), pair("Quit", "Quit")]);
}

#[test]
fn switch_locale_to_fr_is_an_error_and_changes_nothing() {
    let mut app = tray_app();
    toggle_locale(&mut app, "zh".to_string()).unwrap();
    let result = toggle_locale(&mut app, "fr".to_string());
    assert_eq!(result, Err("Invalid locale string `fr`".to_string()));
    assert_eq!(locale_of(&app), Some(Locale::ZH));
    assert_eq!(texts(&app), vec![pair("Hide", "隐藏"), pair("Quit", "退出")]);
}

#[test]
fn an_item_without_a_translation_keeps_its_text() {
    let mut app = App::new(PlatformChrome::Plain, ClosePolicy::KeepRunning);
    let mut translator = Translator::new();
    translator.insert_message(
        "Hide".to_string(),
        Message::from_pairs(vec![(Locale::ZH, "隐藏".to_string())]),
    );
    app.manage_translator_state(TranslatorState { translator });
    let menu = Menu::with_id_and_items(
        "m",
        vec![
            MenuItem::with_id("Hide", "Hide".to_string(), true, None),
            MenuItem::with_id("About", "About".to_string(), false, None),
        ],
    );
    app.manage_menu_state(MenuState { menu });
    assert_eq!(toggle_locale(&mut app, "zh".to_string()), Ok(()));
    assert_eq!(texts(&app), vec![pair("Hide", "隐藏"), pair("About", "About")]);
    assert_eq!(toggle_locale(&mut app, "en".to_string()), Ok(()));
    assert_eq!(locale_of(&app), Some(Locale::EN));
    assert_eq!(texts(&app), vec![pair("Hide", "隐藏"), pair("About", "About")]);
    let items = &MenuState::try_borrow_from_app(&app).unwrap().menu.items;
    assert!(items[0].enabled);
    assert!(!items[1].enabled);
}

#[test]
fn without_a_menu_state_the_switch_fails_first() {
    let mut app = App::new(PlatformChrome::Plain, ClosePolicy::KeepRunning);
    assert_eq!(
        toggle_locale(&mut app, "fr".to_string()),
        Err("Failed to get menu state".to_string())
    );
    initialize_translator(&mut app);
    assert_eq!(
        toggle_locale(&mut app, "zh".to_string()),
        Err("Failed to get menu state".to_string())
    );
    assert_eq!(locale_of(&app), Some(Locale::EN));
}

#[test]
fn without_a_translator_the_switch_fails_and_the_menu_stays() {
    let mut app = App::new(PlatformChrome::Plain, ClosePolicy::KeepRunning);
    let menu = Menu::with_id_and_items(
        "m",
        vec![MenuItem::with_id("Hide", "Hide".to_string(), true, None)],
    );
    app.manage_menu_state(MenuState { menu });
    assert_eq!(
        toggle_locale(&mut app, "zh".to_string()),
        Err("Failed to get translator state".to_string())
    );
    assert_eq!(texts(&app), vec![pair("Hide", "Hide")]);
    assert!(app.translator_state.is_none());
}
