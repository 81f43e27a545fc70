//! The registry of translated labels and the active locale.

use crate::locale::Locale;
use crate::text::joined;
use vstd::hash_map::StringHashMap;
use vstd::prelude::*;

verus! {

/// The display texts of one label, by locale.
#[derive(Debug, PartialEq, Eq)]
pub struct Message {
    en: Option<String>,
    zh: Option<String>,
    zh_hant: Option<String>,
}

impl Message {
    /// The text stored for a locale, if there is one.
    pub closed spec fn slot(&self, locale: Locale) -> Option<String> {
        match locale {
            Locale::EN => self.en,
            Locale::ZH => self.zh,
            Locale::ZhHant => self.zh_hant,
        }
    }
}

impl View for Message {
    type V = Map<Locale, Seq<char>>;

    /// The locales that have a text, each with its text.
    closed spec fn view(&self) -> Map<Locale, Seq<char>> {
        Map::new(|locale: Locale| self.slot(locale) is Some, |locale: Locale| self.slot(locale)->0@)
    }
}

/// What a list of pairs holds when it is read from the front and a later
/// pair replaces an earlier one for the same locale.
pub open spec fn texts_of(pairs: Seq<(Locale, Seq<char>)>) -> Map<Locale, Seq<char>>
    decreases pairs.len(),
{
    if pairs.len() == 0 {
        Map::empty()
    } else {
        texts_of(pairs.drop_last()).insert(pairs.last().0, pairs.last().1)
    }
}

/// The pairs of a vector with their texts as sequences of characters.
pub open spec fn pairs_view(pairs: Seq<(Locale, String)>) -> Seq<(Locale, Seq<char>)> {
    pairs.map_values(|pair: (Locale, String)| (pair.0, pair.1@))
}

impl Clone for Message {
    /// A message with the same texts.
    fn clone(&self) -> (copy: Message)
        ensures
            copy@ == self@,
    {
        let copy = Message {
            en: copy_of(&self.en),
            zh: copy_of(&self.zh),
            zh_hant: copy_of(&self.zh_hant),
        };
        assert(copy@ =~= self@);
        copy
    }
}

/// A copy of an optional text.
fn copy_of(text: &Option<String>) -> (copy: Option<String>)
    ensures
        copy == *text,
{
    match text {
        Some(held) => Some(held.clone()),
        None => None,
    }
}

impl Message {
    /// A message without a text for any locale.
    pub fn new() -> (message: Message)
        ensures
            message@ == Map::<Locale, Seq<char>>::empty(),
    {
        let message = Message { en: None, zh: None, zh_hant: None };
        assert(message@ =~= Map::<Locale, Seq<char>>::empty());
        message
    }

    /// Stores `text` for `locale`, in place of any text it had.
    pub fn insert(&mut self, locale: Locale, text: String)
        ensures
            final(self)@ == old(self)@.insert(locale, text@),
    {
        match locale {
            Locale::EN => {
                self.en = Some(text);
            },
            Locale::ZH => {
                self.zh = Some(text);
            },
            Locale::ZhHant => {
                self.zh_hant = Some(text);
            },
        }
        assert(self@ =~= old(self)@.insert(locale, text@));
    }

    /// The text for `locale`, if there is one.
    pub fn get(&self, locale: Locale) -> (text: Option<&String>)
        ensures
            match text {
                Some(found) => self@.contains_key(locale) && found@ == self@[locale],
                None => !self@.contains_key(locale),
            },
    {
        match locale {
            Locale::EN => self.en.as_ref(),
            Locale::ZH => self.zh.as_ref(),
            Locale::ZhHant => self.zh_hant.as_ref(),
        }
    }

    /// The message that holds the given pairs. Where a locale occurs more
    /// than once, the last of its texts stays.
    pub fn from_pairs(pairs: Vec<(Locale, String)>) -> (message: Message)
        ensures
            message@ == texts_of(pairs_view(pairs@)),
    {
        let mut message = Message::new();
        let mut index: usize = 0;
        while index < pairs.len()
            invariant
                index <= pairs.len(),
                message@ == texts_of(pairs_view(pairs@.take(index as int))),
            decreases pairs.len() - index,
        {
            let text = pairs[index].1.clone();
            message.insert(pairs[index].0, text);
            proof {
                let before = pairs_view(pairs@.take(index as int));
                let after = pairs_view(pairs@.take(index + 1));
                assert(after.drop_last() =~= before);
                assert(after.last() == (pairs@[index as int].0, pairs@[index as int].1@));
            }
            index += 1;
        }
        assert(pairs@.take(pairs.len() as int) =~= pairs@);
        message
    }
}

/// Why a label could not be translated.
#[derive(Clone, Debug, PartialEq, Eq)]
pub enum TranslatorError {
    /// No locale has been chosen yet.
    LocaleNotSet,
    /// The registry has no entry for this label.
    NotInDictionary(String),
    /// The registry knows this label, but not in this locale.
    NoMatchLocale(String, Locale),
}

/// The mathematical value of a [`TranslatorError`].
pub enum TranslatorErrorView {
    LocaleNotSet,
    NotInDictionary(Seq<char>),
    NoMatchLocale(Seq<char>, Locale),
}

impl View for TranslatorError {
    type V = TranslatorErrorView;

    open spec fn view(&self) -> TranslatorErrorView {
        match self {
            TranslatorError::LocaleNotSet => TranslatorErrorView::LocaleNotSet,
            TranslatorError::NotInDictionary(key) => TranslatorErrorView::NotInDictionary(key@),
            TranslatorError::NoMatchLocale(key, locale) => TranslatorErrorView::NoMatchLocale(
                key@,
                *locale,
            ),
        }
    }
}

impl TranslatorErrorView {
    /// The text a user is shown for this error.
    pub open spec fn message(self) -> Seq<char> {
        match self {
            TranslatorErrorView::LocaleNotSet => "Locale of the translator is not set"@,
            TranslatorErrorView::NotInDictionary(key) => "`"@ + key + "` is not in the dictionary"@,
            TranslatorErrorView::NoMatchLocale(key, locale) => "No match locale string for `"@
                + key + "` with locale `"@ + locale.code() + "`"@,
        }
    }
}

impl TranslatorError {
    /// The text a user is shown for this error.
    pub fn to_string(&self) -> (text: String)
        ensures
            text@ == self@.message(),
    {
        match self {
            TranslatorError::LocaleNotSet => "Locale of the translator is not set".to_owned(),
            TranslatorError::NotInDictionary(key) => joined(
                "`",
                key.as_str(),
                "` is not in the dictionary",
            ),
            TranslatorError::NoMatchLocale(key, locale) => {
                let mut text = joined(
                    "No match locale string for `",
                    key.as_str(),
                    "` with locale `",
                );
                text.append(locale.as_str());
                text.append("`");
                text
            },
        }
    }
}

/// The registry of translated labels together with the active locale.
pub struct Translator {
    locale: Option<Locale>,
    messages: StringHashMap<Message>,
}

/// The mathematical value of a [`Translator`].
pub struct TranslatorView {
    /// The active locale, once one has been chosen.
    pub locale: Option<Locale>,
    /// For each registered label, its text in each locale that has one.
    pub messages: Map<Seq<char>, Map<Locale, Seq<char>>>,
}

impl View for Translator {
    type V = TranslatorView;

    closed spec fn view(&self) -> TranslatorView {
        TranslatorView {
            locale: self.locale,
            messages: self.messages@.map_values(|message: Message| message@),
        }
    }
}

/// What a list of entries registers when it is read from the front and a
/// later entry replaces an earlier one for the same label.
pub open spec fn registry_of(entries: Seq<(Seq<char>, Map<Locale, Seq<char>>)>) -> Map<
    Seq<char>,
    Map<Locale, Seq<char>>,
>
    decreases entries.len(),
{
    if entries.len() == 0 {
        Map::empty()
    } else {
        registry_of(entries.drop_last()).insert(entries.last().0, entries.last().1)
    }
}

/// The entries of a vector as mathematical values.
pub open spec fn entries_view(entries: Seq<(String, Message)>) -> Seq<
    (Seq<char>, Map<Locale, Seq<char>>),
> {
    entries.map_values(|entry: (String, Message)| (entry.0@, entry.1@))
}

impl TranslatorView {
    /// The text of `key` in `locale`. An unknown label and a label without
    /// a text in that locale are told apart.
    pub open spec fn resolve(self, key: Seq<char>, locale: Locale) -> Result<
        Seq<char>,
        TranslatorErrorView,
    > {
        if !self.messages.contains_key(key) {
            Err(TranslatorErrorView::NotInDictionary(key))
        } else if !self.messages[key].contains_key(locale) {
            Err(TranslatorErrorView::NoMatchLocale(key, locale))
        } else {
            Ok(self.messages[key][locale])
        }
    }

    /// The text of `key` in the active locale.
    pub open spec fn try_translate(self, key: Seq<char>) -> Result<Seq<char>, TranslatorErrorView> {
        match self.locale {
            None => Err(TranslatorErrorView::LocaleNotSet),
            Some(locale) => self.resolve(key, locale),
        }
    }

    /// The text of `key` in the active locale, or `default` where there is
    /// none.
    pub open spec fn translate_with_default(self, key: Seq<char>, default: Seq<char>) -> Seq<char> {
        match self.try_translate(key) {
            Ok(text) => text,
            Err(_) => default,
        }
    }

    /// The text of `key` in the active locale, or `key` itself where there
    /// is none.
    pub open spec fn translate_or(self, key: Seq<char>) -> Seq<char> {
        self.translate_with_default(key, key)
    }

    /// This value with `locale` as the active locale.
    pub open spec fn with_locale(self, locale: Locale) -> TranslatorView {
        TranslatorView { locale: Some(locale), messages: self.messages }
    }

    /// This value with `message` registered for `key`.
    pub open spec fn with_message(
        self,
        key: Seq<char>,
        message: Map<Locale, Seq<char>>,
    ) -> TranslatorView {
        TranslatorView { locale: self.locale, messages: self.messages.insert(key, message) }
    }
}

impl Translator {
    /// An empty registry without an active locale.
    pub fn new() -> (translator: Translator)
        ensures
            translator@ == (TranslatorView { locale: None, messages: Map::empty() }),
    {
        let translator = Translator { locale: None, messages: StringHashMap::new() };
        assert(translator@.messages =~= Map::empty());
        translator
    }

    /// The text of `key` in `locale`.
    pub fn resolve(&self, key: &str, locale: Locale) -> (text: Result<String, TranslatorError>)
        ensures
            match text {
                Ok(found) => self@.resolve(key@, locale) == Ok::<Seq<char>, TranslatorErrorView>(
                    found@,
                ),
                Err(error) => self@.resolve(key@, locale) == Err::<Seq<char>, TranslatorErrorView>(
                    error@,
                ),
            },
    {
        match self.messages.get(key) {
            None => Err(TranslatorError::NotInDictionary(key.to_owned())),
            Some(message) => match message.get(locale) {
                None => Err(TranslatorError::NoMatchLocale(key.to_owned(), locale)),
                Some(translation) => Ok(translation.clone()),
            },
        }
    }

    /// The text of `value` in the active locale.
    pub fn try_translate(&self, value: &str) -> (text: Result<String, TranslatorError>)
        ensures
            match text {
                Ok(found) => self@.try_translate(value@) == Ok::<Seq<char>, TranslatorErrorView>(
                    found@,
                ),
                Err(error) => self@.try_translate(value@) == Err::<Seq<char>, TranslatorErrorView>(
                    error@,
                ),
            },
    {
        match self.locale {
            None => Err(TranslatorError::LocaleNotSet),
            Some(locale) => self.resolve(value, locale),
        }
    }

    /// The text of `value` in the active locale, or `default` where the
    /// registry has none.
    pub fn translate_with_default(&self, value: &str, default: &str) -> (text: String)
        ensures
            text@ == self@.translate_with_default(value@, default@),
    {
        match self.try_translate(value) {
            Ok(found) => found,
            Err(_) => default.to_owned(),
        }
    }

    /// The text of `value` in the active locale, or `value` itself where
    /// the registry has none.
    pub fn translate_or(&self, value: &str) -> (text: String)
        ensures
            text@ == self@.translate_or(value@),
    {
        self.translate_with_default(value, value)
    }

    /// Makes `locale` the active locale. The registry stays as it is.
    pub fn set_locale(&mut self, locale: Locale)
        ensures
            final(self)@ == old(self)@.with_locale(locale),
    {
        self.locale = Some(locale);
    }

    /// The active locale, once one has been chosen.
    pub fn get_locale(&self) -> (locale: Option<Locale>)
        ensures
            locale == self@.locale,
    {
        self.locale
    }

    /// Registers `message` for the label `text`, in place of any message it
    /// had. Other labels and the active locale stay as they are.
    pub fn insert_message(&mut self, text: String, message: Message)
        ensures
            final(self)@ == old(self)@.with_message(text@, message@),
    {
        self.messages.insert(text, message);
        assert(self@.messages =~= old(self)@.messages.insert(text@, message@));
    }
}

impl From<Vec<(String, Message)>> for Translator {
    /// The registry that holds the given entries, without an active
    /// locale. Where a label occurs more than once, its last message stays.
    fn from(entries: Vec<(String, Message)>) -> (translator: Translator)
        ensures
            translator@ == (TranslatorView {
                locale: None,
                messages: registry_of(entries_view(entries@)),
            }),
    {
        let mut translator = Translator::new();
        let mut index: usize = 0;
        while index < entries.len()
            invariant
                index <= entries.len(),
                translator@.locale is None,
                translator@.messages == registry_of(entries_view(entries@.take(index as int))),
            decreases entries.len() - index,
        {
            let key = entries[index].0.clone();
            let message = entries[index].1.clone();
            translator.insert_message(key, message);
            proof {
                let before = entries_view(entries@.take(index as int));
                let after = entries_view(entries@.take(index + 1));
                assert(after.drop_last() =~= before);
                assert(after.last() == (entries@[index as int].0@, entries@[index as int].1@));
            }
            index += 1;
        }
        assert(entries@.take(entries.len() as int) =~= entries@);
        translator
    }
}

impl vstd::std_specs::convert::FromSpecImpl<Vec<(String, Message)>> for Translator {
    /// The conversion is specified by its own contract, over the view.
    open spec fn obeys_from_spec() -> bool {
        false
    }

    /// Not used: no registry can be written down as a mathematical value.
    open spec fn from_spec(entries: Vec<(String, Message)>) -> Translator {
        arbitrary()
    }
}

} // verus!
