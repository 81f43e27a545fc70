//! Setting up the tray: the labels of its menu, the menu itself, and the
//! icon that carries it.

use crate::host::HostError;
use crate::locale::Locale;
use crate::menu::{Menu, MenuItem, MenuItemView, MenuView};
use crate::state::{App, AppView, MenuState, StateError};
use crate::translator::{texts_of, Message, Translator, TranslatorView};
use crate::tray::event::{HIDE_LABEL, HIDE_OR_SHOW_ID, SHOW_LABEL};
use crate::tray::menu::QUIT_ID;
use vstd::prelude::*;

verus! {

/// The label of the entry that ends the application.
pub const QUIT_LABEL: &'static str = "Quit";

/// The identifier of the tray's context menu.
pub const TRAY_MENU_ID: &'static str = "tray-menu";

/// The identifier of the tray icon.
pub const TRAY_ICON_ID: &'static str = "mainTray";

/// The text shown when the pointer rests on the tray icon.
pub const TRAY_TOOLTIP: &'static str = "LavaScope";

/// The texts of a label that is known in all three locales.
pub open spec fn in_all_locales(en: Seq<char>, zh: Seq<char>, zh_hant: Seq<char>) -> Map<
    Locale,
    Seq<char>,
> {
    texts_of(seq![(Locale::EN, en), (Locale::ZH, zh), (Locale::ZhHant, zh_hant)])
}

/// The registry after the three labels of the tray menu have been entered.
pub open spec fn with_tray_labels(translator: TranslatorView) -> TranslatorView {
    translator.with_message(HIDE_LABEL@, in_all_locales("Hide"@, "隐藏"@, "隱藏"@)).with_message(
        SHOW_LABEL@,
        in_all_locales("Show"@, "显示"@, "顯示"@),
    ).with_message(QUIT_LABEL@, in_all_locales("Quit"@, "退出"@, "退出"@))
}

/// A message with a text in each of the three locales.
fn all_locales(en: &str, zh: &str, zh_hant: &str) -> (message: Message)
    ensures
        message@ == in_all_locales(en@, zh@, zh_hant@),
{
    let pairs = vec![
        (Locale::EN, en.to_owned()),
        (Locale::ZH, zh.to_owned()),
        (Locale::ZhHant, zh_hant.to_owned()),
    ];
    assert(crate::translator::pairs_view(pairs@) =~= seq![
        (Locale::EN, en@),
        (Locale::ZH, zh@),
        (Locale::ZhHant, zh_hant@),
    ]);
    Message::from_pairs(pairs)
}

/// Enters the labels of the tray menu into the registry: `Hide`, `Show`
/// and `Quit`, each in English, Simplified Chinese and Traditional
/// Chinese. Other labels and the active locale stay as they are.
pub fn init_tray_menu_i18n(translator: &mut Translator)
    ensures
        final(translator)@ == with_tray_labels(old(translator)@),
{
    translator.insert_message(HIDE_LABEL.to_owned(), all_locales("Hide", "隐藏", "隱藏"));
    translator.insert_message(SHOW_LABEL.to_owned(), all_locales("Show", "显示", "顯示"));
    translator.insert_message(QUIT_LABEL.to_owned(), all_locales("Quit", "退出", "退出"));
}

/// An enabled menu entry without a keyboard shortcut.
pub open spec fn plain_item(id: Seq<char>, text: Seq<char>) -> MenuItemView {
    MenuItemView { id, text, enabled: true, accelerator: None }
}

/// The tray's context menu: the hide-or-show entry, then the quit entry,
/// with the given texts.
pub open spec fn tray_menu(hide_text: Seq<char>, quit_text: Seq<char>) -> MenuView {
    MenuView {
        id: TRAY_MENU_ID@,
        items: seq![plain_item(HIDE_OR_SHOW_ID@, hide_text), plain_item(QUIT_ID@, quit_text)],
    }
}

/// The tray's context menu with the given texts on its two entries.
fn menu_with(hide_text: String, quit_text: String) -> (menu: Menu)
    ensures
        menu@ == tray_menu(hide_text@, quit_text@),
{
    let hide_or_show = MenuItem::with_id(HIDE_OR_SHOW_ID, hide_text, true, None);
    let quit = MenuItem::with_id(QUIT_ID, quit_text, true, None);
    let menu = Menu::with_id_and_items(TRAY_MENU_ID, vec![hide_or_show, quit]);
    assert(menu@.items =~= tray_menu(hide_text@, quit_text@).items);
    menu
}

/// The tray's context menu with its labels in the active locale of
/// `translator`. A label that the registry does not have is shown as it is.
pub fn create_tray_menu(translator: &Translator) -> (menu: Menu)
    ensures
        menu@ == tray_menu(
            translator@.translate_or(HIDE_LABEL@),
            translator@.translate_or(QUIT_LABEL@),
        ),
{
    menu_with(translator.translate_or(HIDE_LABEL), translator.translate_or(QUIT_LABEL))
}

/// Builds the tray's context menu from what the application has
/// registered.
pub struct TrayIconMenuBuilder {}

impl TrayIconMenuBuilder {
    /// The tray's context menu with its labels in the active locale of
    /// the registered translator. Without a translator, or without a text
    /// for a label, the label is shown as it is.
    pub fn build(app: &App) -> (menu: Menu)
        ensures
            menu@ == tray_menu(app@.label(HIDE_LABEL@), app@.label(QUIT_LABEL@)),
    {
        menu_with(app.label(HIDE_LABEL), app.label(QUIT_LABEL))
    }
}

/// What the host needs to know to put the tray icon up. The icon shows the
/// registered menu.
#[derive(Debug, PartialEq, Eq)]
pub struct TrayIcon {
    /// The identifier of the icon.
    pub id: String,
    /// The text shown when the pointer rests on the icon.
    pub tooltip: String,
    /// Whether a left click opens the menu.
    pub show_menu_on_left_click: bool,
}

/// The mathematical value of a [`TrayIcon`].
pub struct TrayIconView {
    pub id: Seq<char>,
    pub tooltip: Seq<char>,
    pub show_menu_on_left_click: bool,
}

impl View for TrayIcon {
    type V = TrayIconView;

    open spec fn view(&self) -> TrayIconView {
        TrayIconView {
            id: self.id@,
            tooltip: self.tooltip@,
            show_menu_on_left_click: self.show_menu_on_left_click,
        }
    }
}

/// The application's tray icon. A left click on it does not open the
/// menu: it toggles the window.
pub open spec fn main_tray() -> TrayIconView {
    TrayIconView { id: TRAY_ICON_ID@, tooltip: TRAY_TOOLTIP@, show_menu_on_left_click: false }
}

/// The description of the application's tray icon.
fn main_tray_icon() -> (icon: TrayIcon)
    ensures
        icon@ == main_tray(),
{
    TrayIcon {
        id: TRAY_ICON_ID.to_owned(),
        tooltip: TRAY_TOOLTIP.to_owned(),
        show_menu_on_left_click: false,
    }
}

/// Why the tray could not be set up.
#[derive(Debug, PartialEq, Eq)]
pub enum CreateTrayError {
    /// A piece of shared state is not registered.
    StateError(StateError),
    /// The host failed to put the menu or the icon up.
    TauriError(HostError),
}

/// The mathematical value of a [`CreateTrayError`].
pub enum CreateTrayErrorView {
    StateError(StateError),
    TauriError(Seq<char>),
}

impl View for CreateTrayError {
    type V = CreateTrayErrorView;

    open spec fn view(&self) -> CreateTrayErrorView {
        match self {
            CreateTrayError::StateError(error) => CreateTrayErrorView::StateError(*error),
            CreateTrayError::TauriError(error) => CreateTrayErrorView::TauriError(error@),
        }
    }
}

impl CreateTrayErrorView {
    /// The text a user is shown for this error.
    pub open spec fn message(self) -> Seq<char> {
        match self {
            CreateTrayErrorView::StateError(error) => error.message(),
            CreateTrayErrorView::TauriError(message) => message,
        }
    }
}

impl CreateTrayError {
    /// The text a user is shown for this error.
    pub fn to_string(&self) -> (text: String)
        ensures
            text@ == self@.message(),
    {
        match self {
            CreateTrayError::StateError(error) => error.to_string(),
            CreateTrayError::TauriError(error) => error.to_string(),
        }
    }
}

/// The application once `menu` has been offered as its menu state: it is
/// registered unless a menu state is registered already.
pub open spec fn with_menu_offered(app: AppView, menu: MenuView) -> AppView {
    if app.menu_state is None {
        AppView { menu_state: Some(menu), ..app }
    } else {
        app
    }
}

/// Sets the tray up from what the application has registered.
pub struct TrayIconBuilder {}

impl TrayIconBuilder {
    /// Builds the tray's context menu, registers it as the menu state
    /// unless one is registered already, and describes the tray icon.
    pub fn build(app: &mut App) -> (icon: TrayIcon)
        ensures
            icon@ == main_tray(),
            final(app)@ == with_menu_offered(
                old(app)@,
                tray_menu(old(app)@.label(HIDE_LABEL@), old(app)@.label(QUIT_LABEL@)),
            ),
    {
        let menu = TrayIconMenuBuilder::build(app);
        app.manage_menu_state(MenuState { menu });
        main_tray_icon()
    }
}

/// The application after the tray has been set up with the registered
/// translator `translator`: the registry holds the tray's labels, and the
/// menu built from them has been offered as the menu state.
pub open spec fn with_tray(app: AppView, translator: TranslatorView) -> AppView {
    let labelled = with_tray_labels(translator);
    with_menu_offered(
        AppView { translator_state: Some(labelled), ..app },
        tray_menu(labelled.translate_or(HIDE_LABEL@), labelled.translate_or(QUIT_LABEL@)),
    )
}

/// Sets the tray up: enters the menu's labels into the registered
/// translator, builds the menu in the active locale, registers it as the
/// menu state unless one is registered already, and describes the tray
/// icon. Without a registered translator nothing is changed.
pub fn create_tray(app: &mut App) -> (icon: Result<TrayIcon, CreateTrayError>)
    ensures
        match icon {
            Ok(tray) => old(app)@.translator_state is Some && tray@ == main_tray() && final(app)@
                == with_tray(old(app)@, old(app)@.translator_state->0),
            Err(error) => old(app)@.translator_state is None && final(app)@ == old(app)@ && error@
                == CreateTrayErrorView::StateError(StateError::RetrieveTranslatorStateFailed),
        },
{
    let menu = match &mut app.translator_state {
        None => {
            return Err(CreateTrayError::StateError(StateError::RetrieveTranslatorStateFailed));
        },
        Some(state) => {
            init_tray_menu_i18n(&mut state.translator);
            create_tray_menu(&state.translator)
        },
    };
    app.manage_menu_state(MenuState { menu });
    Ok(main_tray_icon())
}

} // verus!
