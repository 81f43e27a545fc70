//! The one operation that callers outside the event loop invoke: changing
//! the display language.

use crate::locale::{invalid_locale_message, Locale};
use crate::state::{App, AppView, MenuState, MenuStateError, StateError, TranslatorState};
use crate::translator::Translator;
use vstd::prelude::*;

verus! {

/// Why the locale cannot be switched to `locale_string`, as the message
/// given to the caller; `None` where the switch goes through.
///
/// The menu state and the translator state must be registered, and the
/// string must be the code of a locale.
pub open spec fn locale_switch_error(app: AppView, locale_string: Seq<char>) -> Option<Seq<char>> {
    if app.menu_state is None {
        Some(MenuStateError::RetrieveMenuStateFailed.message())
    } else if app.translator_state is None {
        Some(StateError::RetrieveTranslatorStateFailed.message())
    } else if Locale::parse(locale_string) is None {
        Some(invalid_locale_message(locale_string))
    } else {
        None
    }
}

/// The application after a switch to `locale`: it is the active locale,
/// and every entry of the menu shows the text that the registry has for
/// its identifier in that locale. An entry without such a text keeps the
/// text it shows. The menu keeps its entries, their order and their
/// identifiers, and the registry its messages.
pub open spec fn switched_to(app: AppView, locale: Locale) -> AppView {
    let translator = app.translator_state->0.with_locale(locale);
    AppView {
        translator_state: Some(translator),
        menu_state: Some(app.menu_state->0.translated(translator)),
        ..app
    }
}

/// What a switch to `locale` leaves and what it changes, entry by entry:
/// `locale` is the active locale and the registry holds what it held; the
/// menu has the same entries in the same order, each with its identifier,
/// and each entry shows the registry's text for its identifier in
/// `locale`, or, where the registry has none, the text it showed before.
pub proof fn lemma_switch_relabels_each_entry(app: AppView, locale: Locale)
    requires
        app.menu_state is Some,
        app.translator_state is Some,
    ensures
        switched_to(app, locale).translator_state->0.locale == Some(locale),
        switched_to(app, locale).translator_state->0.messages
            == app.translator_state->0.messages,
        switched_to(app, locale).window_state == app.window_state,
        switched_to(app, locale).menu_state->0.id == app.menu_state->0.id,
        switched_to(app, locale).menu_state->0.items.len() == app.menu_state->0.items.len(),
        forall|index: int|
            #![trigger switched_to(app, locale).menu_state->0.items[index]]
            0 <= index < app.menu_state->0.items.len() ==> {
                let before = app.menu_state->0.items[index];
                let after = switched_to(app, locale).menu_state->0.items[index];
                &&& after.id == before.id
                &&& after.enabled == before.enabled
                &&& after.accelerator == before.accelerator
                &&& after.text == (match app.translator_state->0.resolve(before.id, locale) {
                    Ok(text) => text,
                    Err(_) => before.text,
                })
            },
{
}

/// Switches the display language to the locale with the code
/// `locale_string` and relabels the tray menu. Where that is not possible
/// nothing is changed, and the reason comes back as a message.
pub fn toggle_locale(app: &mut App, locale_string: String) -> (switched: Result<(), String>)
    ensures
        match switched {
            Ok(_) => locale_switch_error(old(app)@, locale_string@) is None && final(app)@
                == switched_to(old(app)@, Locale::parse(locale_string@)->0),
            Err(message) => locale_switch_error(old(app)@, locale_string@) == Some(message@)
                && final(app)@ == old(app)@,
        },
{
    if let Err(error) = MenuState::try_borrow_from_app(app) {
        return Err(error.to_string());
    }
    if let Err(error) = TranslatorState::try_borrow_from_app(app) {
        return Err(error.to_string());
    }
    let locale = match Locale::from_str(locale_string.as_str()) {
        Ok(locale) => locale,
        Err(error) => {
            return Err(error.to_string());
        },
    };
    match &mut app.translator_state {
        Some(state) => {
            state.translator.set_locale(locale);
        },
        None => {},
    }
    match (&mut app.menu_state, &app.translator_state) {
        (Some(menu_state), Some(translator_state)) => {
            menu_state.menu.translate(&translator_state.translator);
        },
        _ => {},
    }
    Ok(())
}

/// Registers a translator with an empty registry and English as the
/// active locale, unless a translator is registered already.
pub fn initialize_translator(app: &mut App)
    ensures
        final(app)@ == (if old(app)@.translator_state is None {
            AppView {
                translator_state: Some(
                    crate::translator::TranslatorView {
                        locale: Some(Locale::EN),
                        messages: Map::empty(),
                    },
                ),
                ..old(app)@
            }
        } else {
            old(app)@
        }),
{
    let mut translator = Translator::new();
    translator.set_locale(Locale::EN);
    app.manage_translator_state(TranslatorState { translator });
}

} // verus!
