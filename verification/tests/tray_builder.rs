use lavascope::host::{ClosePolicy, HostError, PlatformChrome};
use lavascope::locale::Locale;
use lavascope::menu::{Menu, MenuItem};
use lavascope::state::{App, MenuState, StateError, TranslatorState};
use lavascope::translator::Translator;
use lavascope::tray::builder::{
    create_tray, create_tray_menu, init_tray_menu_i18n, CreateTrayError, TrayIconBuilder,
    TrayIconMenuBuilder,
};

fn texts(menu: &Menu) -> Vec<(String, String)> {
    menu.items.iter().map(|item| (item.id.clone(), item.text.clone())).collect()
}

fn pair(id: &str, text: &str) -> (String, String) {
    (id.to_string(), text.to_string())
}

fn app_in(locale: Locale) -> App {
    let mut app = App::new(PlatformChrome::Plain, ClosePolicy::KeepRunning);
    let mut translator = Translator::new();
    translator.set_locale(locale);
    app.manage_translator_state(TranslatorState { translator });
    app
}

#[test]
fn the_tray_labels_are_entered_in_all_three_locales() {
    let mut translator = Translator::new();
    init_tray_menu_i18n(&mut translator);
    let expected = [
        ("Hide", "Hide", "隐藏", "隱藏"),
        ("Show", "Show", "显示", "顯示"),
        ("Quit", "Quit", "退出", "退出"),
    ];
    for (key, en, zh, zh_hant) in expected {
        assert_eq!(translator.resolve(key, Locale::EN), Ok(en.to_string()));
        assert_eq!(translator.resolve(key, Locale::ZH), Ok(zh.to_string()));
        assert_eq!(translator.resolve(key, Locale::ZhHant), Ok(zh_hant.to_string()));
    }
    assert_eq!(translator.get_locale(), None);
}

#[test]
fn entering_the_tray_labels_keeps_other_labels_and_the_locale() {
    let mut translator = Translator::new();
    translator.set_locale(Locale::ZH);
    translator.insert_message(
        "About".to_string(),
        lavascope::translator::Message::from_pairs(vec![(Locale::ZH, "关于".to_string())]),
    );
    init_tray_menu_i18n(&mut translator);
    assert_eq!(translator.get_locale(), Some(Locale::ZH));
    assert_eq!(translator.try_translate("About"), Ok("关于".to_string()));
    assert_eq!(translator.try_translate("Hide"), Ok("隐藏".to_string()));
}

#[test]
fn the_tray_menu_has_hide_then_quit() {
    let mut translator = Translator::new();
    init_tray_menu_i18n(&mut translator);
    translator.set_locale(Locale::ZhHant);
    let menu = create_tray_menu(&translator);
    assert_eq!(menu.id, "tray-menu");
    assert_eq!(texts(&menu), vec![pair("Hide", "隱藏"), pair("Quit", "退出")]);
    for item in &menu.items {
        assert!(item.enabled);
        assert_eq!(item.accelerator, None);
    }
}

#[test]
fn the_tray_menu_shows_labels_as_they_are_without_translations() {
    let menu = create_tray_menu(&Translator::new());
    assert_eq!(texts(&menu), vec![pair("Hide", "Hide"), pair("Quit", "Quit")]);
}

#[test]
fn the_menu_builder_reads_the_registered_translator() {
    let plain = TrayIconMenuBuilder::build(&App::new(PlatformChrome::Plain, ClosePolicy::KeepRunning));
    assert_eq!(texts(&plain), vec![pair("Hide", "Hide"), pair("Quit", "Quit")]);

    let mut app = app_in(Locale::ZH);
    if let Some(state) = &mut app.translator_state {
        init_tray_menu_i18n(&mut state.translator);
    }
    let menu = TrayIconMenuBuilder::build(&app);
    assert_eq!(menu.id, "tray-menu");
    assert_eq!(texts(&menu), vec![pair("Hide", "隐藏"), pair("Quit", "退出")]);
}

#[test]
fn the_tray_builder_registers_the_menu_and_describes_the_icon() {
    let mut app = App::new(PlatformChrome::Plain, ClosePolicy::KeepRunning);
    let icon = TrayIconBuilder::build(&mut app);
    assert_eq!(icon.id, "mainTray");
    assert_eq!(icon.tooltip, "LavaScope");
    assert!(!icon.show_menu_on_left_click);
    let menu = &MenuState::try_borrow_from_app(&app).unwrap().menu;
    assert_eq!(texts(menu), vec![pair("Hide", "Hide"), pair("Quit", "Quit")]);
    assert!(app.window_state.is_none());
    assert!(app.translator_state.is_none());
}

#[test]
fn the_tray_builder_keeps_a_menu_that_is_registered() {
    let mut app = App::new(PlatformChrome::Plain, ClosePolicy::KeepRunning);
    let own = Menu::with_id_and_items(
        "own",
        vec![MenuItem::with_id("About", "About".to_string(), true, None)],
    );
    app.manage_menu_state(MenuState { menu: own });
    let icon = TrayIconBuilder::build(&mut app);
    assert_eq!(icon.id, "mainTray");
    let menu = &MenuState::try_borrow_from_app(&app).unwrap().menu;
    assert_eq!(menu.id, "own");
    assert_eq!(texts(menu), vec![pair("About", "About")]);
}

#[test]
fn create_tray_needs_a_translator() {
    let mut app = App::new(PlatformChrome::Plain, ClosePolicy::KeepRunning);
    let error = create_tray(&mut app).unwrap_err();
    assert_eq!(error, CreateTrayError::StateError(StateError::RetrieveTranslatorStateFailed));
    assert_eq!(error.to_string(), "Failed to get translator state");
    assert!(app.menu_state.is_none());
    assert!(app.translator_state.is_none());
}

#[test]
fn create_tray_enters_the_labels_and_registers_the_menu() {
    let mut app = app_in(Locale::ZH);
    let icon = create_tray(&mut app).unwrap();
    assert_eq!(icon.id, "mainTray");
    assert_eq!(icon.tooltip, "LavaScope");
    assert!(!icon.show_menu_on_left_click);
    let menu = &MenuState::try_borrow_from_app(&app).unwrap().menu;
    assert_eq!(menu.id, "tray-menu");
    assert_eq!(texts(menu), vec![pair("Hide", "隐藏"), pair("Quit", "退出")]);
    let translator = &TranslatorState::try_borrow_from_app(&app).ok().unwrap().translator;
    assert_eq!(translator.get_locale(), Some(Locale::ZH));
    assert_eq!(translator.resolve("Show", Locale::ZhHant), Ok("顯示".to_string()));
}

#[test]
fn create_tray_keeps_a_menu_that_is_registered() {
    let mut app = app_in(Locale::EN);
    app.manage_menu_state(MenuState { menu: Menu::with_id_and_items("own", vec![]) });
    create_tray(&mut app).unwrap();
    assert_eq!(MenuState::try_borrow_from_app(&app).unwrap().menu.id, "own");
    let translator = &TranslatorState::try_borrow_from_app(&app).ok().unwrap().translator;
    assert_eq!(translator.try_translate("Quit"), Ok("Quit".to_string()));
}

#[test]
fn create_tray_errors_have_their_messages() {
    assert_eq!(
        CreateTrayError::StateError(StateError::RetrieveMenuStateFailed).to_string(),
        "Failed to get menu state"
    );
    assert_eq!(
        CreateTrayError::TauriError(HostError { message: "no tray".to_string() }).to_string(),
        "no tray"
    );
}
