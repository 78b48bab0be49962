use master_time::config::{
    AppConfig, ConfigError, PollingPreferences, ServerProfile, default_poll_interval,
    max_poll_interval, min_poll_interval, validate_hostname,
};
use master_time::settings::{
    apply_resets_history, apply_stops_polling, Language, LocalSettings, SettingsDraft,
    SettingsError, SettingsModel, Theme,
};
use master_time::time::Duration;

fn config() -> AppConfig {
    let mut config = AppConfig::default();
    config.add_server(ServerProfile::new("one", "one.example.test").unwrap());
    config.add_server(ServerProfile::new("two", "two.example.test").unwrap());
    config
}

#[test]
fn defaults_are_empty_and_poll_once_per_minute() {
    let config = AppConfig::default();

    assert!(config.servers().is_empty());
    assert_eq!(config.active_server_index(), None);
    assert_eq!(config.polling().interval(), default_poll_interval());
    assert_eq!(
        PollingPreferences::default().interval(),
        Duration::from_secs(60)
    );
}

#[test]
fn rejects_polling_intervals_outside_bounds() {
    assert_eq!(
        PollingPreferences::new(Duration::zero()).unwrap_err(),
        ConfigError::PollIntervalTooShort {
            minimum: min_poll_interval(),
            actual: Duration::zero(),
        }
    );
    assert!(matches!(
        PollingPreferences::new(max_poll_interval().checked_add(&Duration::from_secs(1)).unwrap()),
        Err(ConfigError::PollIntervalTooLong { .. })
    ));
}

#[test]
fn rejects_invalid_profiles_and_active_selection() {
    assert!(matches!(
        ServerProfile::new("", "time.example.test"),
        Err(ConfigError::EmptyServerName)
    ));
    assert!(matches!(
        ServerProfile::new("Example", "-invalid.example"),
        Err(ConfigError::InvalidHostnameLabel)
    ));

    let server = ServerProfile::new("Example", "time.example.test").unwrap();
    assert!(matches!(
        AppConfig::new(vec![server], Some(1), PollingPreferences::default()),
        Err(ConfigError::ActiveServerOutOfBounds { .. })
    ));
}

#[test]
fn hostname_and_name_rules_cover_each_error() {
    assert_eq!(validate_hostname(""), Err(ConfigError::EmptyHostname));
    assert_eq!(validate_hostname("tíme.example"), Err(ConfigError::InvalidHostname));
    assert_eq!(validate_hostname(".example"), Err(ConfigError::InvalidHostname));
    assert_eq!(validate_hostname("example."), Err(ConfigError::InvalidHostname));
    assert_eq!(validate_hostname("a..b"), Err(ConfigError::InvalidHostnameLabel));
    assert_eq!(validate_hostname("a_b.example"), Err(ConfigError::InvalidHostname));
    assert_eq!(validate_hostname(&"a".repeat(64)), Err(ConfigError::InvalidHostnameLabel));
    assert_eq!(validate_hostname(&"a".repeat(63)), Ok(()));
    assert_eq!(validate_hostname("pool.ntp.org"), Ok(()));
    assert!(matches!(ServerProfile::new(" \t", "a.b"), Err(ConfigError::EmptyServerName)));
    assert!(matches!(ServerProfile::new("a\u{7}", "a.b"), Err(ConfigError::InvalidServerName)));
    let profile = ServerProfile::new("Name = 日本", "a.b").unwrap();
    assert_eq!(profile.name(), "Name = 日本");
    assert_eq!(profile.hostname(), "a.b");
}

#[test]
fn adding_selects_the_first_server_and_selection_is_checked() {
    let mut config = config();
    assert_eq!(config.active_server_index(), Some(0));
    assert_eq!(config.active_server().unwrap().name(), "one");
    assert_eq!(
        config.set_active_server(Some(2)),
        Err(ConfigError::ActiveServerOutOfBounds { index: 2, server_count: 2 })
    );
    assert_eq!(config.active_server_index(), Some(0));
    assert_eq!(config.set_active_server(None), Ok(()));
    assert!(config.active_server().is_none());
    let mut polling = PollingPreferences::default();
    assert!(polling.set_interval(Duration::from_secs(4)).is_err());
    assert_eq!(polling.interval(), Duration::from_secs(60));
    assert!(polling.set_interval(Duration::from_secs(3600)).is_ok());
    assert_eq!(polling.interval(), Duration::from_secs(3600));
}

#[test]
fn draft_edits_do_not_change_config_until_apply() {
    let config = config();
    let local = LocalSettings::default();
    let mut draft = SettingsDraft::from_config(&config, local);

    draft.set_polling_interval(Duration::from_secs(30)).unwrap();
    draft.set_active_server(Some(1));
    draft.set_theme(Theme::Light);
    draft.set_language(Language::TraditionalChinese);
    draft.set_always_on_top(true);

    assert_eq!(config.active_server_index(), Some(0));
    assert_eq!(config.polling().interval(), Duration::from_secs(60));
    assert_eq!(local, LocalSettings::default());
    assert_eq!(draft.active_server(), Some(1));
    assert_eq!(draft.theme(), Theme::Light);
}

#[test]
fn apply_updates_config_and_local_settings() {
    let mut config = config();
    let mut local = LocalSettings::default();
    let mut model = SettingsModel::new(&config, local);
    model.draft_mut().set_active_server(Some(1));
    model
        .draft_mut()
        .set_polling_interval(Duration::from_secs(15))
        .unwrap();
    model.draft_mut().set_theme(Theme::System);
    model.draft_mut().set_language(Language::SimplifiedChinese);
    model.draft_mut().set_always_on_top(true);

    model.apply(&mut config, &mut local).unwrap();

    assert_eq!(config.active_server_index(), Some(1));
    assert_eq!(config.polling().interval(), Duration::from_secs(15));
    assert_eq!(
        local,
        LocalSettings::new(Theme::System, Language::SimplifiedChinese, true)
    );
}

#[test]
fn cancel_discards_unapplied_edits() {
    let config = config();
    let local = LocalSettings::default();
    let mut model = SettingsModel::new(&config, local);
    model.draft_mut().set_active_server(Some(1));
    model.draft_mut().set_theme(Theme::Light);
    model.cancel();

    assert_eq!(model.draft().active_server(), Some(0));
    assert_eq!(model.draft().theme(), Theme::Dark);
}

#[test]
fn invalid_polling_values_are_rejected_and_preserve_draft() {
    let config = config();
    let mut draft = SettingsDraft::from_config(&config, LocalSettings::default());
    let original = draft.polling_interval();

    assert!(
        draft
            .set_polling_interval(min_poll_interval().checked_sub(&Duration::from_secs(1)).unwrap())
            .is_err()
    );
    assert!(
        draft
            .set_polling_interval(max_poll_interval().checked_add(&Duration::from_secs(1)).unwrap())
            .is_err()
    );
    assert_eq!(draft.polling_interval(), original);
}

#[test]
fn failed_apply_changes_neither_target() {
    let mut config = config();
    let mut local = LocalSettings::default();
    let mut draft = SettingsDraft::from_config(&config, local);
    draft.set_active_server(Some(5));
    draft.set_theme(Theme::Light);
    assert_eq!(
        draft.apply(&mut config, &mut local),
        Err(SettingsError::Config(ConfigError::ActiveServerOutOfBounds {
            index: 5,
            server_count: 2
        }))
    );
    assert_eq!(config.active_server_index(), Some(0));
    assert_eq!(local.theme(), Theme::Dark);
    assert_eq!(SettingsError::from(ConfigError::EmptyHostname), SettingsError::Config(ConfigError::EmptyHostname));
}

#[test]
fn applying_a_new_interval_or_server_stops_polling_first() {
    let config = config();
    let local = LocalSettings::default();
    let mut draft = SettingsDraft::from_config(&config, local);
    assert!(!apply_stops_polling(&draft, &config));
    draft.set_theme(Theme::Dark);
    assert!(!apply_stops_polling(&draft, &config));
    draft.set_polling_interval(Duration::from_secs(30)).unwrap();
    assert!(apply_stops_polling(&draft, &config));
    let mut other = SettingsDraft::from_config(&config, local);
    other.set_active_server(Some(1));
    assert!(apply_stops_polling(&other, &config));
}

#[test]
fn only_a_changed_server_resets_the_history() {
    let before = config();
    let mut same = before.clone();
    assert!(!apply_resets_history(&before, &same));
    same.set_active_server(Some(1)).unwrap();
    assert!(apply_resets_history(&before, &same));
    let mut model = SettingsModel::new(&before, LocalSettings::default());
    model.draft_mut().set_polling_interval(Duration::from_secs(15)).unwrap();
    let mut after = before.clone();
    let mut local = LocalSettings::default();
    model.apply(&mut after, &mut local).unwrap();
    assert!(!apply_resets_history(&before, &after));
}
