use lavascope::locale::{Locale, ParseLocaleError};

#[test]
fn as_str_gives_the_canonical_codes() {
    assert_eq!(Locale::EN.as_str(), "en");
    assert_eq!(Locale::ZH.as_str(), "zh");
    assert_eq!(Locale::ZhHant.as_str(), "zh-Hant");
}

#[test]
fn to_string_gives_the_canonical_codes() {
    assert_eq!(Locale::EN.to_string(), "en");
    assert_eq!(Locale::ZH.to_string(), "zh");
    assert_eq!(Locale::ZhHant.to_string(), "zh-Hant");
}

#[test]
fn from_str_reads_each_code() {
    assert_eq!(Locale::from_str("en"), Ok(Locale::EN));
    assert_eq!(Locale::from_str("zh"), Ok(Locale::ZH));
    assert_eq!(Locale::from_str("zh-Hant"), Ok(Locale::ZhHant));
}

#[test]
fn parse_goes_through_from_str() {
    assert_eq!("zh".parse::<Locale>(), Ok(Locale::ZH));
    assert!("de".parse::<Locale>().is_err());
}

#[test]
fn every_code_round_trips() {
    for locale in [Locale::EN, Locale::ZH, Locale::ZhHant] {
        let code = locale.as_str().to_string();
        let parsed = Locale::from_str(&code).unwrap();
        assert_eq!(parsed, locale);
        assert_eq!(parsed.as_str(), code);
    }
}

#[test]
fn unknown_codes_are_rejected_with_a_message_that_quotes_them() {
    let error: ParseLocaleError = Locale::from_str("fr").unwrap_err();
    assert_eq!(error.to_string(), "Invalid locale string `fr`");
}

#[test]
fn codes_are_case_sensitive_and_exact() {
    for value in ["", "EN", "En", "zh-hant", "zh_Hant", "zh-Hant ", " en", "zh-Hans"] {
        let error = Locale::from_str(value).unwrap_err();
        assert_eq!(error.to_string(), format!("Invalid locale string `{value}`"));
    }
}
