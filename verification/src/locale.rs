//! The closed set of display languages and their canonical codes.

use crate::text::{joined, same_text};
use vstd::prelude::*;

verus! {

/// A display language the application can switch to.
#[derive(Clone, Copy, Debug, PartialEq, Eq, Hash, Structural)]
pub enum Locale {
    EN,
    ZH,
    ZhHant,
}

/// The reason a string was not accepted as a locale code.
#[derive(Clone, Debug, PartialEq, Eq)]
pub struct ParseLocaleError {
    message: String,
}

impl View for ParseLocaleError {
    type V = Seq<char>;

    /// The message carried by the error.
    closed spec fn view(&self) -> Seq<char> {
        self.message@
    }
}

/// The message reported for a string that is no locale code.
pub open spec fn invalid_locale_message(value: Seq<char>) -> Seq<char> {
    "Invalid locale string `"@ + value + "`"@
}

impl ParseLocaleError {
    /// The text a user is shown for this error.
    pub fn to_string(&self) -> (text: String)
        ensures
            text@ == self@,
    {
        self.message.clone()
    }
}

impl Locale {
    /// The canonical code of this locale as a sequence of characters.
    pub open spec fn code(self) -> Seq<char> {
        match self {
            Locale::EN => "en"@,
            Locale::ZH => "zh"@,
            Locale::ZhHant => "zh-Hant"@,
        }
    }

    /// The locale a code stands for; `None` for every string outside the
    /// closed set of codes.
    pub open spec fn parse(value: Seq<char>) -> Option<Locale> {
        if value == "en"@ {
            Some(Locale::EN)
        } else if value == "zh"@ {
            Some(Locale::ZH)
        } else if value == "zh-Hant"@ {
            Some(Locale::ZhHant)
        } else {
            None
        }
    }

    /// The canonical code of this locale.
    pub fn as_str(&self) -> (code: &str)
        ensures
            code@ == self.code(),
    {
        match self {
            Locale::EN => "en",
            Locale::ZH => "zh",
            Locale::ZhHant => "zh-Hant",
        }
    }

    /// The canonical code of this locale, owned.
    pub fn to_string(&self) -> (code: String)
        ensures
            code@ == self.code(),
    {
        self.as_str().to_owned()
    }

    /// Reads a locale from its canonical code. Every other string is
    /// rejected with a message that quotes it.
    pub fn from_str(value: &str) -> (parsed: Result<Locale, ParseLocaleError>)
        ensures
            match parsed {
                Ok(locale) => Locale::parse(value@) == Some(locale),
                Err(error) => Locale::parse(value@) is None && error@ == invalid_locale_message(
                    value@,
                ),
            },
    {
        if same_text(value, "en") {
            Ok(Locale::EN)
        } else if same_text(value, "zh") {
            Ok(Locale::ZH)
        } else if same_text(value, "zh-Hant") {
            Ok(Locale::ZhHant)
        } else {
            Err(ParseLocaleError { message: joined("Invalid locale string `", value, "`") })
        }
    }
}

impl std::str::FromStr for Locale {
    type Err = ParseLocaleError;

    /// Reads a locale from its canonical code, as [`Locale::from_str`] does.
    fn from_str(value: &str) -> (parsed: Result<Locale, ParseLocaleError>)
        ensures
            match parsed {
                Ok(locale) => Locale::parse(value@) == Some(locale),
                Err(error) => Locale::parse(value@) is None && error@ == invalid_locale_message(
                    value@,
                ),
            },
    {
        Locale::from_str(value)
    }
}

/// The three canonical codes are pairwise different.
pub proof fn lemma_codes_differ()
    ensures
        "en"@ != "zh"@,
        "en"@ != "zh-Hant"@,
        "zh"@ != "zh-Hant"@,
{
    reveal_strlit("en");
    reveal_strlit("zh");
    reveal_strlit("zh-Hant");
    assert("en"@[0] != "zh"@[0]);
    assert("en"@.len() != "zh-Hant"@.len());
    assert("zh"@.len() != "zh-Hant"@.len());
}

/// Codes and locales correspond one to one: the code of a locale parses
/// back to that locale, and a string that parses to a locale is exactly
/// that locale's code.
pub proof fn lemma_locale_round_trip(locale: Locale, value: Seq<char>)
    ensures
        Locale::parse(locale.code()) == Some(locale),
        Locale::parse(value) == Some(locale) ==> locale.code() == value,
        Locale::parse(value) is Some ==> Locale::parse(value).unwrap().code() == value,
{
    lemma_codes_differ();
}

} // verus!
