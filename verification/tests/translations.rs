use master_time::localization::{English, Key as UiKey, MISSING_TRANSLATION as UI_MISSING};
use master_time::translations::{
    Key, Language, MISSING_TRANSLATION, TranslationCatalog, all_keys,
};

#[test]
fn translates_known_keys() {
    assert_eq!(English::text(UiKey::Server), "Server");
    assert_eq!(English::text(UiKey::SyncStatus), "Sync status");
    assert_eq!(English::text(UiKey::RoundTripDelay), "Round-trip delay");
    assert_eq!(English::text(UiKey::PollingInterval), "Polling interval");
    assert_eq!(English::text(UiKey::Settings), "Settings");
    assert_eq!(English::text(UiKey::ConnectionError), "Connection error");
}

#[test]
fn resolves_ids_and_falls_back_safely() {
    assert_eq!(English::text_for(UiKey::Metrics.id()), "Metrics");
    assert_eq!(English::text_for("not_a_real_key"), UI_MISSING);
    assert_eq!(
        English::text_for("<script>alert(1)</script>"),
        UI_MISSING
    );
}

#[test]
fn every_typed_key_is_present_in_all_catalogs() {
    for key in all_keys() {
        if key == Key::MissingTranslation {
            continue;
        }
        assert_ne!(
            TranslationCatalog::new(Language::English).text(key),
            MISSING_TRANSLATION
        );
        assert_ne!(
            TranslationCatalog::new(Language::SimplifiedChinese).text(key),
            MISSING_TRANSLATION
        );
        assert_ne!(
            TranslationCatalog::new(Language::TraditionalChinese).text(key),
            MISSING_TRANSLATION
        );
    }
}

#[test]
fn locales_and_unknown_values_fail_safe() {
    assert_eq!(Language::from_locale("zh_CN"), Language::SimplifiedChinese);
    assert_eq!(Language::from_locale("zh-TW"), Language::TraditionalChinese);
    assert_eq!(Language::from_locale("xx-YY"), Language::English);
    let catalog = TranslationCatalog::for_locale("unknown");
    assert_eq!(catalog.text(Key::Settings), "Settings");
    assert_eq!(catalog.text_for("not_a_key"), MISSING_TRANSLATION);
    assert_eq!(
        catalog.text_for("<script>alert(1)</script>"),
        MISSING_TRANSLATION
    );
}

#[test]
fn keys_round_trip_through_external_identifiers() {
    let catalog = TranslationCatalog::new(Language::TraditionalChinese);
    assert_eq!(catalog.text_for(Key::Diagnostics.id()), "診斷");
    assert_eq!(
        catalog.text_for(Key::NtpTransportFailed.id()),
        "NTP 傳輸失敗"
    );
}

#[test]
fn every_key_round_trips_and_locales_are_normalized() {
    for language in [Language::English, Language::SimplifiedChinese, Language::TraditionalChinese] {
        let catalog = TranslationCatalog::new(language);
        assert_eq!(catalog.language(), language);
        for key in all_keys() {
            assert_eq!(catalog.text_for(key.id()), catalog.text(key));
        }
    }
    assert_eq!(Language::from_locale("  ZH_hant\t"), Language::TraditionalChinese);
    assert_eq!(Language::from_locale("zh-SG"), Language::SimplifiedChinese);
    assert_eq!(Language::from_locale("en_GB"), Language::English);
    assert_eq!(Language::default(), Language::English);
    assert_eq!(TranslationCatalog::for_locale("zh-hk").text(Key::Settings), "設定");
}
