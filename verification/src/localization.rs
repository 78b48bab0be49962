//! Small, framework-neutral localization primitives for the desktop UI.
//!
//! English is represented as a match over the typed key set. This keeps the
//! default language complete without maintaining a large string table.

use vstd::prelude::*;
use crate::text::str_eq;

verus! {

/// Stable identifiers for text shown by the desktop application.
#[derive(Debug, Clone, Copy, PartialEq, Eq, Hash, Structural)]
pub enum Key {
    Server,
    ServerName,
    ServerAddress,
    SyncStatus,
    Synchronized,
    Uncertain,
    Unavailable,
    Metrics,
    Stratum,
    Offset,
    RoundTripDelay,
    RootDistance,
    Polling,
    PollingInterval,
    PollNow,
    PollingEnabled,
    Settings,
    SaveSettings,
    ResetSettings,
    Errors,
    Error,
    ConnectionError,
    InvalidPollingInterval,
    NoMeasurement,
}

/// The number of keys.
pub const KEY_COUNT: usize = 24;

/// The stable identifier of each key.
pub open spec fn key_id_spec(key: Key) -> &'static str {
    match key {
        Key::Server => "server",
        Key::ServerName => "server_name",
        Key::ServerAddress => "server_address",
        Key::SyncStatus => "sync_status",
        Key::Synchronized => "synchronized",
        Key::Uncertain => "uncertain",
        Key::Unavailable => "unavailable",
        Key::Metrics => "metrics",
        Key::Stratum => "stratum",
        Key::Offset => "offset",
        Key::RoundTripDelay => "round_trip_delay",
        Key::RootDistance => "root_distance",
        Key::Polling => "polling",
        Key::PollingInterval => "polling_interval",
        Key::PollNow => "poll_now",
        Key::PollingEnabled => "polling_enabled",
        Key::Settings => "settings",
        Key::SaveSettings => "save_settings",
        Key::ResetSettings => "reset_settings",
        Key::Errors => "errors",
        Key::Error => "error",
        Key::ConnectionError => "connection_error",
        Key::InvalidPollingInterval => "invalid_polling_interval",
        Key::NoMeasurement => "no_measurement",
    }
}

/// No two keys share an identifier.
pub proof fn lemma_key_ids_distinct(a: Key, b: Key)
    requires
        a != b,
    ensures
        key_id_spec(a)@ != key_id_spec(b)@,
{
    reveal_strlit("server");
    reveal_strlit("server_name");
    reveal_strlit("server_address");
    reveal_strlit("sync_status");
    reveal_strlit("synchronized");
    reveal_strlit("uncertain");
    reveal_strlit("unavailable");
    reveal_strlit("metrics");
    reveal_strlit("stratum");
    reveal_strlit("offset");
    reveal_strlit("round_trip_delay");
    reveal_strlit("root_distance");
    reveal_strlit("polling");
    reveal_strlit("polling_interval");
    reveal_strlit("poll_now");
    reveal_strlit("polling_enabled");
    reveal_strlit("settings");
    reveal_strlit("save_settings");
    reveal_strlit("reset_settings");
    reveal_strlit("errors");
    reveal_strlit("error");
    reveal_strlit("connection_error");
    reveal_strlit("invalid_polling_interval");
    reveal_strlit("no_measurement");
    let x = key_id_spec(a)@;
    let y = key_id_spec(b)@;
    assert(x == y ==> x.len() == y.len() && x[0] == y[0] && x[1] == y[1] && x[2] == y[2] && x[3] == y[3] && x[4] == y[4] && x[5] == y[5] && x[6] == y[6] && x[7] == y[7] && x[8] == y[8] && x[9] == y[9] && x[10] == y[10] && x[11] == y[11] && x[12] == y[12] && x[13] == y[13] && x[14] == y[14] && x[15] == y[15] && x[16] == y[16] && x[17] == y[17] && x[18] == y[18] && x[19] == y[19] && x[20] == y[20] && x[21] == y[21] && x[22] == y[22] && x[23] == y[23]);
}

/// The English text of each key.
pub open spec fn english_text(key: Key) -> &'static str {
    match key {
        Key::Server => "Server",
        Key::ServerName => "Server name",
        Key::ServerAddress => "Server address",
        Key::SyncStatus => "Sync status",
        Key::Synchronized => "Synchronized",
        Key::Uncertain => "Uncertain",
        Key::Unavailable => "Unavailable",
        Key::Metrics => "Metrics",
        Key::Stratum => "Stratum",
        Key::Offset => "Offset",
        Key::RoundTripDelay => "Round-trip delay",
        Key::RootDistance => "Root distance",
        Key::Polling => "Polling",
        Key::PollingInterval => "Polling interval",
        Key::PollNow => "Poll now",
        Key::PollingEnabled => "Polling enabled",
        Key::Settings => "Settings",
        Key::SaveSettings => "Save settings",
        Key::ResetSettings => "Reset settings",
        Key::Errors => "Errors",
        Key::Error => "Error",
        Key::ConnectionError => "Connection error",
        Key::InvalidPollingInterval => "Invalid polling interval",
        Key::NoMeasurement => "No measurement available",
    }
}

/// The keys in declaration order.
pub open spec fn key_at_spec(i: int) -> Key {
    if i == 0 {
        Key::Server
    } else if i == 1 {
        Key::ServerName
    } else if i == 2 {
        Key::ServerAddress
    } else if i == 3 {
        Key::SyncStatus
    } else if i == 4 {
        Key::Synchronized
    } else if i == 5 {
        Key::Uncertain
    } else if i == 6 {
        Key::Unavailable
    } else if i == 7 {
        Key::Metrics
    } else if i == 8 {
        Key::Stratum
    } else if i == 9 {
        Key::Offset
    } else if i == 10 {
        Key::RoundTripDelay
    } else if i == 11 {
        Key::RootDistance
    } else if i == 12 {
        Key::Polling
    } else if i == 13 {
        Key::PollingInterval
    } else if i == 14 {
        Key::PollNow
    } else if i == 15 {
        Key::PollingEnabled
    } else if i == 16 {
        Key::Settings
    } else if i == 17 {
        Key::SaveSettings
    } else if i == 18 {
        Key::ResetSettings
    } else if i == 19 {
        Key::Errors
    } else if i == 20 {
        Key::Error
    } else if i == 21 {
        Key::ConnectionError
    } else if i == 22 {
        Key::InvalidPollingInterval
    } else {
        Key::NoMeasurement
    }
}

/// The position of each key in declaration order.
pub open spec fn key_index(key: Key) -> int {
    match key {
        Key::Server => 0,
        Key::ServerName => 1,
        Key::ServerAddress => 2,
        Key::SyncStatus => 3,
        Key::Synchronized => 4,
        Key::Uncertain => 5,
        Key::Unavailable => 6,
        Key::Metrics => 7,
        Key::Stratum => 8,
        Key::Offset => 9,
        Key::RoundTripDelay => 10,
        Key::RootDistance => 11,
        Key::Polling => 12,
        Key::PollingInterval => 13,
        Key::PollNow => 14,
        Key::PollingEnabled => 15,
        Key::Settings => 16,
        Key::SaveSettings => 17,
        Key::ResetSettings => 18,
        Key::Errors => 19,
        Key::Error => 20,
        Key::ConnectionError => 21,
        Key::InvalidPollingInterval => 22,
        Key::NoMeasurement => 23,
    }
}

/// Every key has a position, and that position holds the key.
pub proof fn lemma_key_index(key: Key)
    ensures
        0 <= key_index(key) < KEY_COUNT,
        key_at_spec(key_index(key)) == key,
{
}

fn key_at(i: usize) -> (k: Key)
    requires
        i < KEY_COUNT,
    ensures
        k == key_at_spec(i as int),
{
    if i == 0 {
        Key::Server
    } else if i == 1 {
        Key::ServerName
    } else if i == 2 {
        Key::ServerAddress
    } else if i == 3 {
        Key::SyncStatus
    } else if i == 4 {
        Key::Synchronized
    } else if i == 5 {
        Key::Uncertain
    } else if i == 6 {
        Key::Unavailable
    } else if i == 7 {
        Key::Metrics
    } else if i == 8 {
        Key::Stratum
    } else if i == 9 {
        Key::Offset
    } else if i == 10 {
        Key::RoundTripDelay
    } else if i == 11 {
        Key::RootDistance
    } else if i == 12 {
        Key::Polling
    } else if i == 13 {
        Key::PollingInterval
    } else if i == 14 {
        Key::PollNow
    } else if i == 15 {
        Key::PollingEnabled
    } else if i == 16 {
        Key::Settings
    } else if i == 17 {
        Key::SaveSettings
    } else if i == 18 {
        Key::ResetSettings
    } else if i == 19 {
        Key::Errors
    } else if i == 20 {
        Key::Error
    } else if i == 21 {
        Key::ConnectionError
    } else if i == 22 {
        Key::InvalidPollingInterval
    } else {
        Key::NoMeasurement
    }
}

impl Key {
    /// Returns the stable identifier used when a key comes from UI metadata.
    pub fn id(self) -> (s: &'static str)
        ensures
            s == key_id_spec(self),
    {
        match self {
            Key::Server => "server",
            Key::ServerName => "server_name",
            Key::ServerAddress => "server_address",
            Key::SyncStatus => "sync_status",
            Key::Synchronized => "synchronized",
            Key::Uncertain => "uncertain",
            Key::Unavailable => "unavailable",
            Key::Metrics => "metrics",
            Key::Stratum => "stratum",
            Key::Offset => "offset",
            Key::RoundTripDelay => "round_trip_delay",
            Key::RootDistance => "root_distance",
            Key::Polling => "polling",
            Key::PollingInterval => "polling_interval",
            Key::PollNow => "poll_now",
            Key::PollingEnabled => "polling_enabled",
            Key::Settings => "settings",
            Key::SaveSettings => "save_settings",
            Key::ResetSettings => "reset_settings",
            Key::Errors => "errors",
            Key::Error => "error",
            Key::ConnectionError => "connection_error",
            Key::InvalidPollingInterval => "invalid_polling_interval",
            Key::NoMeasurement => "no_measurement",
        }
    }
}

/// Fixed text used when a dynamic or stale key has no translation.
pub const MISSING_TRANSLATION: &'static str = "Missing translation";

/// The complete built-in English language.
#[derive(Debug, Clone, Copy, Default)]
pub struct English;

impl English {
    /// Looks up a known, typed UI key.
    pub fn text(key: Key) -> (s: &'static str)
        ensures
            s == english_text(key),
    {
        match key {
            Key::Server => "Server",
            Key::ServerName => "Server name",
            Key::ServerAddress => "Server address",
            Key::SyncStatus => "Sync status",
            Key::Synchronized => "Synchronized",
            Key::Uncertain => "Uncertain",
            Key::Unavailable => "Unavailable",
            Key::Metrics => "Metrics",
            Key::Stratum => "Stratum",
            Key::Offset => "Offset",
            Key::RoundTripDelay => "Round-trip delay",
            Key::RootDistance => "Root distance",
            Key::Polling => "Polling",
            Key::PollingInterval => "Polling interval",
            Key::PollNow => "Poll now",
            Key::PollingEnabled => "Polling enabled",
            Key::Settings => "Settings",
            Key::SaveSettings => "Save settings",
            Key::ResetSettings => "Reset settings",
            Key::Errors => "Errors",
            Key::Error => "Error",
            Key::ConnectionError => "Connection error",
            Key::InvalidPollingInterval => "Invalid polling interval",
            Key::NoMeasurement => "No measurement available",
        }
    }

    /// Looks up a UI key supplied as metadata, using a safe fixed fallback.
    ///
    /// Unknown input is never rendered as UI text: it yields
    /// [`MISSING_TRANSLATION`].
    pub fn text_for(id: &str) -> (s: &'static str)
        ensures
            forall|key: Key| key_id_spec(key)@ == id@ ==> s == english_text(key),
            (forall|key: Key| key_id_spec(key)@ != id@) ==> s == MISSING_TRANSLATION,
    {
        let mut i: usize = 0;
        while i < KEY_COUNT
            invariant
                i <= KEY_COUNT,
                forall|j: int| 0 <= j < i ==> key_id_spec(key_at_spec(j))@ != id@,
            decreases KEY_COUNT - i,
        {
            let key = key_at(i);
            if str_eq(key.id(), id) {
                proof {
                    assert forall|k: Key| key_id_spec(k)@ == id@ implies english_text(k)
                        == english_text(key) by {
                        if k != key {
                            lemma_key_ids_distinct(k, key);
                        }
                    }
                }
                return English::text(key);
            }
            i = i + 1;
        }
        assert forall|key: Key| key_id_spec(key)@ != id@ by {
            lemma_key_index(key);
        }
        MISSING_TRANSLATION
    }
}

} // verus!
