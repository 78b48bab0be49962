//! UI-independent settings editing and application.
//!
//! `AppConfig` remains the source of truth for polling and server settings.
//! Theme, language, and always-on-top are kept here until they become part of
//! the persisted application configuration.

use vstd::prelude::*;
use crate::config::{AppConfig, ConfigError, PollingPreferences, interval_error};
use crate::time::Duration;

verus! {

/// The visual theme selected by the user.
#[derive(Debug, Clone, Copy, PartialEq, Eq, Structural)]
pub enum Theme {
    System,
    Light,
    Dark,
}

impl Default for Theme {
    fn default() -> (t: Self)
        ensures
            t == Theme::Dark,
    {
        Theme::Dark
    }
}

/// The language selected by the user.
#[derive(Debug, Clone, Copy, PartialEq, Eq, Structural)]
pub enum Language {
    English,
    SimplifiedChinese,
    TraditionalChinese,
}

impl Default for Language {
    fn default() -> (l: Self)
        ensures
            l == Language::English,
    {
        Language::English
    }
}

/// Settings that are local to this module because `AppConfig` does not yet
/// model them.
#[derive(Debug, Clone, Copy, PartialEq, Eq, Structural)]
pub struct LocalSettings {
    theme: Theme,
    language: Language,
    always_on_top: bool,
}

/// The abstract value of [`LocalSettings`].
pub struct LocalModel {
    pub theme: Theme,
    pub language: Language,
    pub always_on_top: bool,
}

impl View for LocalSettings {
    type V = LocalModel;

    closed spec fn view(&self) -> LocalModel {
        LocalModel {
            theme: self.theme,
            language: self.language,
            always_on_top: self.always_on_top,
        }
    }
}

impl Default for LocalSettings {
    fn default() -> (s: Self)
        ensures
            s@ == (LocalModel {
                theme: Theme::Dark,
                language: Language::English,
                always_on_top: false,
            }),
    {
        LocalSettings { theme: Theme::default(), language: Language::default(), always_on_top: false }
    }
}

impl LocalSettings {
    pub fn new(theme: Theme, language: Language, always_on_top: bool) -> (s: Self)
        ensures
            s@ == (LocalModel { theme, language, always_on_top }),
    {
        LocalSettings { theme, language, always_on_top }
    }

    pub fn theme(&self) -> (t: Theme)
        ensures
            t == self@.theme,
    {
        self.theme
    }

    pub fn language(&self) -> (l: Language)
        ensures
            l == self@.language,
    {
        self.language
    }

    pub fn always_on_top(&self) -> (b: bool)
        ensures
            b == self@.always_on_top,
    {
        self.always_on_top
    }
}

/// Errors produced while applying a settings draft.
#[derive(Debug, Clone, Copy, PartialEq, Eq, Structural)]
pub enum SettingsError {
    Config(ConfigError),
}

impl From<ConfigError> for SettingsError {
    fn from(error: ConfigError) -> (e: Self) {
        SettingsError::Config(error)
    }
}

impl vstd::std_specs::convert::FromSpecImpl<ConfigError> for SettingsError {
    open spec fn obeys_from_spec() -> bool {
        true
    }

    open spec fn from_spec(error: ConfigError) -> SettingsError {
        SettingsError::Config(error)
    }
}

/// A mutable copy of settings that can be edited without changing the
/// application's active configuration.
#[derive(Debug, Clone, Copy, PartialEq, Eq, Structural)]
pub struct SettingsDraft {
    polling_interval: Duration,
    active_server: Option<usize>,
    local: LocalSettings,
}

/// The abstract value of a [`SettingsDraft`].
pub struct DraftModel {
    pub polling_interval: Duration,
    pub active_server: Option<usize>,
    pub local: LocalModel,
}

impl View for SettingsDraft {
    type V = DraftModel;

    closed spec fn view(&self) -> DraftModel {
        DraftModel {
            polling_interval: self.polling_interval,
            active_server: self.active_server,
            local: self.local@,
        }
    }
}

/// The error that applying a draft with these values to `config` reports, if any.
pub open spec fn apply_error(
    polling_interval: Duration,
    active_server: Option<usize>,
    server_count: nat,
) -> Option<ConfigError> {
    match interval_error(polling_interval) {
        Some(e) => Some(e),
        None => match active_server {
            Some(index) => if index >= server_count {
                Some(
                    ConfigError::ActiveServerOutOfBounds {
                        index,
                        server_count: server_count as usize,
                    },
                )
            } else {
                None
            },
            None => None,
        },
    }
}

impl SettingsDraft {
    /// Starts a draft from the current application and local settings.
    pub fn from_config(config: &AppConfig, local: LocalSettings) -> (d: Self)
        ensures
            d@.polling_interval == config@.polling.interval_spec(),
            d@.active_server == config@.active_server,
            d@.local == local@,
    {
        SettingsDraft {
            polling_interval: config.polling().interval(),
            active_server: config.active_server_index(),
            local,
        }
    }

    pub fn polling_interval(&self) -> (d: Duration)
        ensures
            d == self@.polling_interval,
    {
        self.polling_interval
    }

    pub fn active_server(&self) -> (s: Option<usize>)
        ensures
            s == self@.active_server,
    {
        self.active_server
    }

    pub fn theme(&self) -> (t: Theme)
        ensures
            t == self@.local.theme,
    {
        self.local.theme()
    }

    pub fn language(&self) -> (l: Language)
        ensures
            l == self@.local.language,
    {
        self.local.language()
    }

    pub fn always_on_top(&self) -> (b: bool)
        ensures
            b == self@.local.always_on_top,
    {
        self.local.always_on_top()
    }

    /// Sets the polling interval, validating it with the configuration rules.
    pub fn set_polling_interval(&mut self, interval: Duration) -> (r: Result<(), ConfigError>)
        ensures
            match interval_error(interval) {
                Some(e) => r == Err::<(), ConfigError>(e) && final(self)@ == old(self)@,
                None => r is Ok && final(self)@ == (DraftModel {
                    polling_interval: interval,
                    ..old(self)@
                }),
            },
    {
        match PollingPreferences::new(interval) {
            Ok(_) => {},
            Err(e) => {
                return Err(e);
            },
        }
        self.polling_interval = interval;
        Ok(())
    }

    pub fn set_active_server(&mut self, server: Option<usize>)
        ensures
            final(self)@ == (DraftModel { active_server: server, ..old(self)@ }),
    {
        self.active_server = server;
    }

    pub fn set_theme(&mut self, theme: Theme)
        ensures
            final(self)@ == (DraftModel {
                local: LocalModel { theme, ..old(self)@.local },
                ..old(self)@
            }),
    {
        self.local.theme = theme;
    }

    pub fn set_language(&mut self, language: Language)
        ensures
            final(self)@ == (DraftModel {
                local: LocalModel { language, ..old(self)@.local },
                ..old(self)@
            }),
    {
        self.local.language = language;
    }

    pub fn set_always_on_top(&mut self, always_on_top: bool)
        ensures
            final(self)@ == (DraftModel {
                local: LocalModel { always_on_top, ..old(self)@.local },
                ..old(self)@
            }),
    {
        self.local.always_on_top = always_on_top;
    }

    /// Applies all draft values atomically. Neither target is changed when
    /// validation fails.
    pub fn apply(&self, config: &mut AppConfig, local: &mut LocalSettings) -> (r: Result<
        (),
        SettingsError,
    >)
        ensures
            match apply_error(
                self@.polling_interval,
                self@.active_server,
                old(config)@.servers.len(),
            ) {
                Some(e) => r == Err::<(), SettingsError>(SettingsError::Config(e)) && final(config)@ == old(config)@ && *final(local) == *old(local),
                None => r is Ok && final(config)@.servers == old(config)@.servers && final(config)@.active_server == self@.active_server && final(config)@.polling.interval_spec() == self@.polling_interval && final(local)@
                    == self@.local,
            },
    {
        let polling = match PollingPreferences::new(self.polling_interval) {
            Ok(p) => p,
            Err(e) => {
                return Err(SettingsError::Config(e));
            },
        };
        if let Some(index) = self.active_server {
            if index >= config.servers().len() {
                return Err(
                    SettingsError::Config(
                        ConfigError::ActiveServerOutOfBounds {
                            index,
                            server_count: config.servers().len(),
                        },
                    ),
                );
            }
        }
        match config.set_active_server(self.active_server) {
            Ok(()) => {},
            Err(e) => {
                return Err(SettingsError::Config(e));
            },
        }
        config.set_polling(polling);
        *local = self.local;
        Ok(())
    }

    /// Discards edits and reloads the draft from the last applied values.
    pub fn cancel(&mut self, config: &AppConfig, local: LocalSettings)
        ensures
            final(self)@.polling_interval == config@.polling.interval_spec(),
            final(self)@.active_server == config@.active_server,
            final(self)@.local == local@,
    {
        *self = Self::from_config(config, local);
    }
}

/// Coordinates a committed settings snapshot and its editable draft.
#[derive(Debug, Clone, Copy, PartialEq, Eq, Structural)]
pub struct SettingsModel {
    applied: SettingsDraft,
    draft: SettingsDraft,
}

impl SettingsModel {
    /// The last successfully applied settings.
    pub closed spec fn applied_spec(&self) -> SettingsDraft {
        self.applied
    }

    /// The settings being edited.
    pub closed spec fn draft_spec(&self) -> SettingsDraft {
        self.draft
    }

    pub fn new(config: &AppConfig, local: LocalSettings) -> (m: Self)
        ensures
            m.applied_spec() == m.draft_spec(),
            m.draft_spec()@.polling_interval == config@.polling.interval_spec(),
            m.draft_spec()@.active_server == config@.active_server,
            m.draft_spec()@.local == local@,
    {
        let applied = SettingsDraft::from_config(config, local);
        SettingsModel { applied, draft: applied }
    }

    pub fn draft(&self) -> (d: &SettingsDraft)
        ensures
            *d == self.draft_spec(),
    {
        &self.draft
    }

    pub fn draft_mut(&mut self) -> (d: &mut SettingsDraft)
        ensures
            *d == old(self).draft_spec(),
            final(self).draft_spec() == *final(d),
            final(self).applied_spec() == old(self).applied_spec(),
    {
        &mut self.draft
    }

    /// Applies the draft and records it as the committed settings snapshot.
    pub fn apply(&mut self, config: &mut AppConfig, local: &mut LocalSettings) -> (r: Result<
        (),
        SettingsError,
    >)
        ensures
            final(self).draft_spec() == old(self).draft_spec(),
            match apply_error(
                old(self).draft_spec()@.polling_interval,
                old(self).draft_spec()@.active_server,
                old(config)@.servers.len(),
            ) {
                Some(e) => r == Err::<(), SettingsError>(SettingsError::Config(e)) && final(config)@ == old(config)@ && *final(local) == *old(local) && final(self).applied_spec()
                    == old(self).applied_spec(),
                None => r is Ok && final(config)@.servers == old(config)@.servers && final(config)@.active_server == old(self).draft_spec()@.active_server && final(config)@.polling.interval_spec() == old(self).draft_spec()@.polling_interval && final(local)@ == old(self).draft_spec()@.local && final(self).applied_spec() == old(self).draft_spec(),
            },
    {
        match self.draft.apply(config, local) {
            Ok(()) => {},
            Err(e) => {
                return Err(e);
            },
        }
        self.applied = self.draft;
        Ok(())
    }

    /// Restores the draft to the last successfully applied values.
    pub fn cancel(&mut self)
        ensures
            final(self).draft_spec() == old(self).applied_spec(),
            final(self).applied_spec() == old(self).applied_spec(),
    {
        self.draft = self.applied;
    }
}

/// Whether applying `draft` over `config` must first stop polling: the
/// draft changes the polling interval or the selected server.
pub fn apply_stops_polling(draft: &SettingsDraft, config: &AppConfig) -> (b: bool)
    ensures
        b == (draft@.polling_interval != config@.polling.interval_spec()
            || draft@.active_server != config@.active_server),
{
    let interval = config.polling().interval();
    let same_server = match (draft.active_server(), config.active_server_index()) {
        (Some(a), Some(b)) => a == b,
        (None, None) => true,
        _ => false,
    };
    !(draft.polling_interval() == interval) || !same_server
}

/// Whether the configuration `after` that a successful apply produced
/// selects another server than `before`, so that the measurement history
/// starts afresh.
pub fn apply_resets_history(before: &AppConfig, after: &AppConfig) -> (b: bool)
    ensures
        b == (before@.active_server != after@.active_server),
{
    match (before.active_server_index(), after.active_server_index()) {
        (Some(a), Some(b)) => a != b,
        (None, None) => false,
        _ => true,
    }
}

} // verus!
