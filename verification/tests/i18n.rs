use hex_go::i18n::{
    CatalogError, I18nStore, Language, is_mainland_china_locale, resolve_default_language, resolve_language,
};

fn entries(pairs: &[(&str, &str)]) -> Vec<(String, String)> {
    pairs.iter().map(|(k, v)| (k.to_string(), v.to_string())).collect()
}

fn store() -> I18nStore {
    I18nStore::new(
        entries(&[("game.turn", "轮到：{player}{role}"), ("player.black", "黑方")]),
        entries(&[("game.turn", "Turn: {player}{role}"), ("player.black", "Black")]),
    )
}

#[test]
fn format_substitutes_placeholders_correctly() {
    let store = store();
    let formatted = store.format(Language::ZhCn, "game.turn", &[("player", "P1"), ("role", "R1")]);
    assert!(formatted.contains("P1") && formatted.contains("R1"));

    let formatted_en = store.format(
        Language::EnUs,
        "game.turn",
        &[("player", "Black"), ("role", " (You)")],
    );
    assert_eq!(formatted_en, "Turn: Black (You)");
}

#[test]
fn language_toggle_alternates() {
    assert_eq!(Language::ZhCn.toggle(), Language::EnUs);
    assert_eq!(Language::EnUs.toggle(), Language::ZhCn);
}

#[test]
fn language_default_is_en_us() {
    assert_eq!(Language::default(), Language::EnUs);
}

#[test]
fn language_codes_are_bcp47() {
    assert_eq!(Language::ZhCn.code(), "zh-CN");
    assert_eq!(Language::EnUs.code(), "en-US");
}

#[test]
fn mainland_china_locales_are_detected() {
    assert!(is_mainland_china_locale("zh-CN"));
    assert!(is_mainland_china_locale("zh_CN"));
    assert!(is_mainland_china_locale("zh_CN.UTF-8"));
    assert!(is_mainland_china_locale("zh_CN.GBK"));
    assert!(is_mainland_china_locale("zh_CN.gb18030"));
    assert!(is_mainland_china_locale("zh_CN.utf8"));
    assert!(is_mainland_china_locale("zh-Hans-CN"));
    assert!(is_mainland_china_locale("zh-Hans_CN"));
    assert!(is_mainland_china_locale("zh-Hans-CN.UTF-8"));
    assert!(is_mainland_china_locale("zh-CN@pinyin"));
    assert!(is_mainland_china_locale("cmn-Hans-CN"));
    assert!(is_mainland_china_locale("cmn-CN"));
    assert!(is_mainland_china_locale("en-CN"));
    assert!(is_mainland_china_locale("en_CN.UTF-8"));
    assert!(is_mainland_china_locale("zh-156"));
    assert!(is_mainland_china_locale("cn"));
    assert!(is_mainland_china_locale("CN"));

    assert!(is_mainland_china_locale("zh-Hans"));
    assert!(is_mainland_china_locale("zh_Hans"));
}

#[test]
fn non_mainland_locales_are_rejected() {
    assert!(!is_mainland_china_locale("zh-TW"));
    assert!(!is_mainland_china_locale("zh_TW"));
    assert!(!is_mainland_china_locale("zh_TW.UTF-8"));
    assert!(!is_mainland_china_locale("zh-HK"));
    assert!(!is_mainland_china_locale("zh_HK"));
    assert!(!is_mainland_china_locale("zh_HK.UTF-8"));
    assert!(!is_mainland_china_locale("zh-MO"));
    assert!(!is_mainland_china_locale("zh_MO"));
    assert!(!is_mainland_china_locale("zh-SG"));
    assert!(!is_mainland_china_locale("zh_SG"));
    assert!(!is_mainland_china_locale("zh-Hans-SG"));
    assert!(!is_mainland_china_locale("zh-Hant"));
    assert!(!is_mainland_china_locale("zh-Hant-TW"));
    assert!(!is_mainland_china_locale("zh-Hant-HK"));

    assert!(!is_mainland_china_locale("en-US"));
    assert!(!is_mainland_china_locale("en-GB"));
    assert!(!is_mainland_china_locale("ja-JP"));
    assert!(!is_mainland_china_locale("ko-KR"));
    assert!(!is_mainland_china_locale("fr-FR"));
    assert!(!is_mainland_china_locale("de-DE"));
    assert!(!is_mainland_china_locale("ru-RU"));

    assert!(!is_mainland_china_locale(""));
    assert!(!is_mainland_china_locale("   "));
    assert!(!is_mainland_china_locale("C"));
    assert!(!is_mainland_china_locale("POSIX"));
}

#[test]
fn locale_edge_cases_follow_trimming_and_subtag_rules() {
    // Surrounding white space, including non-ASCII white space, is ignored.
    assert!(is_mainland_china_locale("  zh_CN.UTF-8\t"));
    assert!(is_mainland_china_locale("\u{3000}zh-CN\u{a0}"));
    // Empty subtags are skipped.
    assert!(is_mainland_china_locale("zh--CN"));
    assert!(is_mainland_china_locale("-cn"));
    // The region is only looked for before the encoding.
    assert!(!is_mainland_china_locale("en.CN"));
    assert!(!is_mainland_china_locale(".zh_CN"));
    assert!(!is_mainland_china_locale("@cn"));
    // "156" must match exactly; "Hans" alone is not enough with a third subtag.
    assert!(!is_mainland_china_locale("zh-1560"));
    assert!(!is_mainland_china_locale("zh-Hans-TW"));
    assert!(is_mainland_china_locale("ZH-HANS"));
    assert!(is_mainland_china_locale("156"));
    assert!(!is_mainland_china_locale("zh"));
}

#[test]
fn resolve_default_language_prioritizes_system_locale_and_falls_back_to_env() {
    let no_env = |_key: &str| None;

    assert_eq!(resolve_default_language(Some("zh-CN"), no_env), Language::ZhCn);
    assert_eq!(resolve_default_language(Some("zh_CN.UTF-8"), no_env), Language::ZhCn);

    assert_eq!(resolve_default_language(Some("en-US"), no_env), Language::EnUs);
    assert_eq!(resolve_default_language(Some("zh-TW"), no_env), Language::EnUs);
    assert_eq!(resolve_default_language(Some("ja-JP"), no_env), Language::EnUs);

    assert_eq!(
        resolve_default_language(None, |k| if k == "LANG" { Some("zh_CN.UTF-8") } else { None }),
        Language::ZhCn
    );
    assert_eq!(
        resolve_default_language(None, |k| if k == "LC_ALL" { Some("zh-Hans-CN") } else { None }),
        Language::ZhCn
    );
    assert_eq!(
        resolve_default_language(None, |k| if k == "LANGUAGE" { Some("zh_CN:en_US") } else { None }),
        Language::ZhCn
    );

    assert_eq!(
        resolve_default_language(None, |k| if k == "LANG" { Some("en_US.UTF-8") } else { None }),
        Language::EnUs
    );
    assert_eq!(
        resolve_default_language(None, |k| if k == "LANG" { Some("zh_TW.UTF-8") } else { None }),
        Language::EnUs
    );
    assert_eq!(resolve_default_language(None, no_env), Language::EnUs);
}

#[test]
fn resolve_language_checks_every_variable_and_language_list_entry() {
    assert_eq!(resolve_language(None, None, Some("zh_CN"), None, None), Language::ZhCn);
    assert_eq!(resolve_language(None, None, None, None, Some("en_US::zh_CN")), Language::ZhCn);
    assert_eq!(resolve_language(None, None, None, None, Some("en_US:ja_JP")), Language::EnUs);
    assert_eq!(resolve_language(Some("en_US"), Some("fr_FR"), None, Some("C"), None), Language::EnUs);
}

#[test]
fn translation_falls_back_to_the_key() {
    let store = store();
    assert_eq!(store.t(Language::ZhCn, "player.black"), "黑方");
    assert_eq!(store.t(Language::EnUs, "player.black"), "Black");
    assert_eq!(store.t(Language::EnUs, "missing.key"), "missing.key");
}

#[test]
fn format_replaces_every_occurrence_in_order() {
    let store = I18nStore::new(
        Vec::new(),
        entries(&[("k", "{a}-{a}-{b}")]),
    );
    assert_eq!(store.format(Language::EnUs, "k", &[("a", "x"), ("b", "{a}")]), "x-x-{a}");
    assert_eq!(store.format(Language::EnUs, "k", &[("b", "{a}"), ("a", "y")]), "y-y-y");
    assert_eq!(store.format(Language::ZhCn, "k{a}", &[("a", "z")]), "kz");
}

#[test]
fn catalog_is_read_from_json_objects() {
    let zh = r#"{"game.turn": "轮到：{player}{role}", "player.black": "黑方"}"#;
    let en = r#"{"player.black": "Black", "game.turn": "Turn: {player}{role}"}"#;
    let store = I18nStore::from_json(zh, en).expect("both catalogues are valid");
    assert_eq!(store.t(Language::ZhCn, "player.black"), "黑方");
    assert_eq!(store.t(Language::EnUs, "player.black"), "Black");
    assert_eq!(store.t(Language::EnUs, "missing.key"), "missing.key");
    assert_eq!(
        store.format(Language::EnUs, "game.turn", &[("player", "Black"), ("role", " (You)")]),
        "Turn: Black (You)"
    );
}

#[test]
fn repeated_json_key_keeps_last_text() {
    let store = I18nStore::from_json(r#"{"k": "first", "k": "second"}"#, "{}").unwrap();
    assert_eq!(store.t(Language::ZhCn, "k"), "second");
}

#[test]
fn invalid_catalog_is_reported_by_language() {
    assert!(matches!(
        I18nStore::from_json("not json", "{}"),
        Err(CatalogError::Invalid(Language::ZhCn))
    ));
    assert!(matches!(
        I18nStore::from_json("{}", r#"{"k": 1}"#),
        Err(CatalogError::Invalid(Language::EnUs))
    ));
    assert!(matches!(
        I18nStore::from_json("[]", "not json"),
        Err(CatalogError::Invalid(Language::ZhCn))
    ));
}

#[test]
fn environment_is_read_only_until_a_source_decides() {
    let seen = std::cell::RefCell::new(Vec::new());
    let lookup = |k: &str| {
        seen.borrow_mut().push(k.to_string());
        if k == "LC_MESSAGES" { Some("zh_CN.UTF-8") } else { None }
    };
    assert_eq!(resolve_default_language(Some("zh_CN"), lookup), Language::ZhCn);
    assert!(seen.borrow().is_empty());

    assert_eq!(resolve_default_language(Some("en_US"), lookup), Language::ZhCn);
    assert_eq!(*seen.borrow(), vec!["LC_ALL".to_string(), "LC_MESSAGES".to_string()]);

    seen.borrow_mut().clear();
    let none = |k: &str| -> Option<&str> {
        seen.borrow_mut().push(k.to_string());
        None
    };
    assert_eq!(resolve_default_language(None, none), Language::EnUs);
    assert_eq!(*seen.borrow(), vec!["LC_ALL", "LC_MESSAGES", "LANG", "LANGUAGE"]);
}

#[test]
fn cloned_catalog_translates_alike() {
    let store = store();
    let copy = store.clone();
    assert_eq!(copy.t(Language::EnUs, "player.black"), "Black");
    assert_eq!(copy.t(Language::ZhCn, "player.black"), store.t(Language::ZhCn, "player.black"));
}
