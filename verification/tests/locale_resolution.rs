use desktop_todo::locale::{is_simplified_chinese_locale, platform_locale, posix_locale, registry_text, ActiveLanguage, Language};

#[test]
fn system_language_follows_simplified_chinese_locales() {
    for locale in ["zh-CN", "zh_CN", "zh-CN.UTF-8", "zh-SG", "zh-Hans", "zh-Hans-CN", "zh-Hans-TW", "ZH-cn"] {
        assert_eq!(
            Language::System.resolve(locale),
            ActiveLanguage::SimplifiedChinese,
            "{locale} should resolve to Simplified Chinese"
        );
    }
}

#[test]
fn traditional_chinese_falls_back_to_english_in_v1() {
    for locale in ["zh-TW", "zh-HK", "zh-Hant", "zh-Hant-HK"] {
        assert_eq!(
            Language::System.resolve(locale),
            ActiveLanguage::English,
            "{locale} has no v1 catalog and must fall back to English"
        );
    }
}

#[test]
fn non_chinese_locales_resolve_to_english() {
    for locale in ["en-US", "ja-JP", "de-DE", "fr", "", "  "] {
        assert_eq!(Language::System.resolve(locale), ActiveLanguage::English);
    }
}

#[test]
fn explicit_choice_overrides_the_system_locale() {
    assert_eq!(Language::English.resolve("zh-CN"), ActiveLanguage::English);
    assert_eq!(Language::SimplifiedChinese.resolve("en-US"), ActiveLanguage::SimplifiedChinese);
    assert_eq!(Language::default(), Language::System);
}

#[test]
fn locale_helper_ignores_unknown_languages() {
    assert!(!is_simplified_chinese_locale("zhx-CN"));
    assert!(!is_simplified_chinese_locale("en-US"));
}

#[test]
fn collapse_label_is_collapse_to_orb_everywhere() {
    assert_eq!(ActiveLanguage::English.labels().collapse_floating, "Collapse to Orb");
    assert_eq!(ActiveLanguage::SimplifiedChinese.labels().collapse_floating, "折叠为悬浮球");
    for language in [ActiveLanguage::English, ActiveLanguage::SimplifiedChinese] {
        let label = language.labels().collapse_floating;
        assert_ne!(label, "Collapse to Avatar Orb");
        assert_ne!(label, "收起到头像球");
    }
}

#[test]
fn language_serializes_with_the_frontend_tags() {
    for (language, tag) in [
        (Language::System, "system"),
        (Language::English, "en"),
        (Language::SimplifiedChinese, "zh-Hans"),
    ] {
        assert_eq!(language.tag(), tag);
        assert_eq!(Language::from_tag(tag), Some(language));
    }
    assert_eq!(Language::from_tag("english"), None);
}

#[test]
fn the_posix_locale_is_the_first_usable_variable_reduced_to_its_tag() {
    let values = |v: &[Option<&str>]| v.iter().map(|o| o.map(|s| s.to_string())).collect::<Vec<_>>();
    assert_eq!(posix_locale(&values(&[None, Some("zh_CN.UTF-8"), Some("en_US.UTF-8")])), Some("zh_CN".to_string()));
    assert_eq!(posix_locale(&values(&[Some("C"), Some(" POSIX "), Some("en_US.UTF-8@euro")])), Some("en_US".to_string()));
    assert_eq!(posix_locale(&values(&[Some(""), Some(".UTF-8"), None])), None);
    assert_eq!(posix_locale(&values(&[])), None);
}

#[test]
fn registry_values_yield_their_first_entry_trimmed() {
    let units = |s: &str| s.encode_utf16().collect::<Vec<u16>>();
    assert_eq!(registry_text(&units("zh-CN\0en-US\0\0")), Some("zh-CN".to_string()));
    assert_eq!(registry_text(&units(" en-GB ")), Some("en-GB".to_string()));
    assert_eq!(registry_text(&units("\0zh-CN")), None);
    assert_eq!(registry_text(&units("  ")), None);
    assert_eq!(registry_text(&vec![0xd800, b'x' as u16, 0]), Some("\u{fffd}x".to_string()));
}

#[test]
fn the_locale_name_wins_over_the_ui_list_and_the_environment() {
    let some = |s: &str| Some(s.to_string());
    assert_eq!(platform_locale(some("zh-CN"), some("en-US"), some("de_DE")), some("zh-CN"));
    assert_eq!(platform_locale(None, some("en-US"), some("de_DE")), some("en-US"));
    assert_eq!(platform_locale(None, None, some("de_DE")), some("de_DE"));
    assert_eq!(platform_locale(None, None, None), None);
}
