//! Standalone, typed translations for the Master Time user interface.
//!
//! Callers use [`TranslationCatalog::text`] for typed keys, or
//! [`TranslationCatalog::text_for`] when reading a persisted or remote key.
//! Unknown locales and keys have safe, deterministic fallbacks and never
//! expose arbitrary input as UI text.

use vstd::prelude::*;
use crate::text::{chars_eq, chars_of, str_eq, trim_back, trim_chars, trim_front};

verus! {

/// Languages shipped with the application.
#[derive(Debug, Clone, Copy, PartialEq, Eq, Hash, Structural)]
pub enum Language {
    English,
    SimplifiedChinese,
    TraditionalChinese,
}

impl Default for Language {
    fn default() -> (l: Self)
        ensures
            l == Language::English,
    {
        Language::English
    }
}

/// `_` becomes `-` and ASCII capitals become lower case.
pub open spec fn normalize_char(c: char) -> char {
    if c == '_' {
        '-'
    } else if 'A' <= c && c <= 'Z' {
        ((c as u32) + 32) as char
    } else {
        c
    }
}

/// A locale identifier without surrounding white space, with `-` separators,
/// in ASCII lower case.
pub open spec fn normalize_locale(s: Seq<char>) -> Seq<char> {
    trim_back(trim_front(s)).map_values(|c: char| normalize_char(c))
}

/// The language that a normalized locale identifier selects.
pub open spec fn locale_language(n: Seq<char>) -> Language {
    if n == "zh-cn"@ || n == "zh-sg"@ || n == "zh-hans"@ {
        Language::SimplifiedChinese
    } else if n == "zh-tw"@ || n == "zh-hk"@ || n == "zh-mo"@ || n == "zh-hant"@ {
        Language::TraditionalChinese
    } else {
        Language::English
    }
}

fn normalize_locale_chars(s: &[char]) -> (n: Vec<char>)
    ensures
        n@ == normalize_locale(s@),
{
    let trimmed = trim_chars(s);
    let mut n: Vec<char> = Vec::new();
    let mut i: usize = 0;
    while i < trimmed.len()
        invariant
            i <= trimmed@.len(),
            trimmed@ == trim_back(trim_front(s@)),
            n@ =~= trimmed@.take(i as int).map_values(|c: char| normalize_char(c)),
        decreases trimmed.len() - i,
    {
        let c = trimmed[i];
        let m = if c == '_' {
            '-'
        } else if 'A' <= c && c <= 'Z' {
            let v = c as u32 + 32;
            (v as u8) as char
        } else {
            c
        };
        n.push(m);
        assert(trimmed@.take(i + 1) =~= trimmed@.take(i as int).push(c));
        i = i + 1;
    }
    assert(trimmed@.take(trimmed@.len() as int) =~= trimmed@);
    n
}

fn is_one_of(n: &[char], options: &[&str]) -> (r: bool)
    ensures
        r == exists|i: int| 0 <= i < options@.len() && n@ == (#[trigger] options@[i])@,
{
    let mut i: usize = 0;
    while i < options.len()
        invariant
            i <= options@.len(),
            forall|j: int| 0 <= j < i ==> n@ != (#[trigger] options@[j])@,
        decreases options.len() - i,
    {
        let o = chars_of(options[i]);
        if chars_eq(n, o.as_slice()) {
            return true;
        }
        i = i + 1;
    }
    false
}

impl Language {
    /// Maps common BCP-47 language identifiers to a supported language.
    ///
    /// Regional English and Chinese identifiers are accepted. Unsupported or
    /// malformed values deliberately fall back to English.
    pub fn from_locale(locale: &str) -> (l: Self)
        ensures
            l == locale_language(normalize_locale(locale@)),
    {
        let s = chars_of(locale);
        let n = normalize_locale_chars(s.as_slice());
        let simplified = ["zh-cn", "zh-sg", "zh-hans"];
        let traditional = ["zh-tw", "zh-hk", "zh-mo", "zh-hant"];
        if is_one_of(n.as_slice(), &simplified) {
            assert(simplified@ == seq!["zh-cn", "zh-sg", "zh-hans"]);
            Language::SimplifiedChinese
        } else if is_one_of(n.as_slice(), &traditional) {
            assert(simplified@ == seq!["zh-cn", "zh-sg", "zh-hans"]);
            assert(traditional@ == seq!["zh-tw", "zh-hk", "zh-mo", "zh-hant"]);
            assert(n@ != "zh-cn"@ && n@ != "zh-sg"@ && n@ != "zh-hans"@) by {
                assert(simplified@[0] == "zh-cn");
                assert(simplified@[1] == "zh-sg");
                assert(simplified@[2] == "zh-hans");
            }
            Language::TraditionalChinese
        } else {
            assert(simplified@ == seq!["zh-cn", "zh-sg", "zh-hans"]);
            assert(traditional@ == seq!["zh-tw", "zh-hk", "zh-mo", "zh-hant"]);
            assert(n@ != "zh-cn"@ && n@ != "zh-sg"@ && n@ != "zh-hans"@) by {
                assert(simplified@[0] == "zh-cn");
                assert(simplified@[1] == "zh-sg");
                assert(simplified@[2] == "zh-hans");
            }
            assert(n@ != "zh-tw"@ && n@ != "zh-hk"@ && n@ != "zh-mo"@ && n@ != "zh-hant"@) by {
                assert(traditional@[0] == "zh-tw");
                assert(traditional@[1] == "zh-hk");
                assert(traditional@[2] == "zh-mo");
                assert(traditional@[3] == "zh-hant");
            }
            Language::English
        }
    }
}

/// Stable identifiers for every static label shown by the desktop UI.
#[derive(Debug, Clone, Copy, PartialEq, Eq, Hash, Structural)]
pub enum Key {
    MasterTime,
    Time,
    Server,
    Network,
    Calibration,
    Diagnostics,
    GlobalServers,
    Settings,
    StartPolling,
    StopPolling,
    PollingActive,
    PollingStopped,
    Active,
    SyncStatus,
    Metrics,
    History,
    Stratum,
    Offset,
    RoundTripDelay,
    RootDistance,
    ConfiguredServers,
    ConfiguredProfiles,
    ServerProfilesValidated,
    NtpMeasurementPollingStatus,
    SyncPolicy,
    EligibleForCorrection,
    DisplayOnly,
    Unsafe,
    ClockCalibration,
    BeginCalibration,
    CalibrationWaitsForBoundary,
    TimeUntilBoundary,
    MarkBoundary,
    StopCalibration,
    Expected,
    Marked,
    Difference,
    Early,
    Late,
    GlobalServerCatalog,
    Search,
    All,
    UseServer,
    PollingIntervalSeconds,
    SetDraft,
    AllowedRangeSeconds,
    Theme,
    System,
    Light,
    Dark,
    Language,
    AlwaysOnTop,
    Apply,
    Cancel,
    LocalSettings,
    Uptime,
    CpuCount,
    CpuUtilization,
    CurrentOffset,
    Delay,
    Status,
    Synchronized,
    Uncertain,
    Unavailable,
    Error,
    MissingTranslation,
    NoServerConfigured,
    InvalidPollingInterval,
    InvalidServerProfile,
    ServerProfileAlreadyExists,
    ServerProfileNotFound,
    SelectAnotherServer,
    InvalidNtpResponse,
    NtpTransportFailed,
    NtpMeasurementFailed,
    UnsupportedNtpResponseMode,
    MissingTimestamp,
    ClockBeforeNtpEpoch,
    NtpTimestampOutOfRange,
    PollingWorkerPanicked,
    EmptyServerName,
    InvalidServerName,
    EmptyHostname,
    InvalidHostname,
    InvalidHostnameLabel,
    PollIntervalTooShort,
    PollIntervalTooLong,
    ActiveServerOutOfBounds,
}

/// The number of keys.
pub const KEY_COUNT: usize = 88;

/// The stable, storage-safe identifier of each key.
pub open spec fn key_id_spec(key: Key) -> &'static str {
    match key {
        Key::MasterTime => "master_time",
        Key::Time => "time",
        Key::Server => "server",
        Key::Network => "network",
        Key::Calibration => "calibration",
        Key::Diagnostics => "diagnostics",
        Key::GlobalServers => "global_servers",
        Key::Settings => "settings",
        Key::StartPolling => "start_polling",
        Key::StopPolling => "stop_polling",
        Key::PollingActive => "polling_active",
        Key::PollingStopped => "polling_stopped",
        Key::Active => "active",
        Key::SyncStatus => "sync_status",
        Key::Metrics => "metrics",
        Key::History => "history",
        Key::Stratum => "stratum",
        Key::Offset => "offset",
        Key::RoundTripDelay => "round_trip_delay",
        Key::RootDistance => "root_distance",
        Key::ConfiguredServers => "configured_servers",
        Key::ConfiguredProfiles => "configured_profiles",
        Key::ServerProfilesValidated => "server_profiles_validated",
        Key::NtpMeasurementPollingStatus => "ntp_measurement_polling_status",
        Key::SyncPolicy => "sync_policy",
        Key::EligibleForCorrection => "eligible_for_correction",
        Key::DisplayOnly => "display_only",
        Key::Unsafe => "unsafe",
        Key::ClockCalibration => "clock_calibration",
        Key::BeginCalibration => "begin_calibration",
        Key::CalibrationWaitsForBoundary => "calibration_waits_for_boundary",
        Key::TimeUntilBoundary => "time_until_boundary",
        Key::MarkBoundary => "mark_boundary",
        Key::StopCalibration => "stop_calibration",
        Key::Expected => "expected",
        Key::Marked => "marked",
        Key::Difference => "difference",
        Key::Early => "early",
        Key::Late => "late",
        Key::GlobalServerCatalog => "global_server_catalog",
        Key::Search => "search",
        Key::All => "all",
        Key::UseServer => "use_server",
        Key::PollingIntervalSeconds => "polling_interval_seconds",
        Key::SetDraft => "set_draft",
        Key::AllowedRangeSeconds => "allowed_range_seconds",
        Key::Theme => "theme",
        Key::System => "system",
        Key::Light => "light",
        Key::Dark => "dark",
        Key::Language => "language",
        Key::AlwaysOnTop => "always_on_top",
        Key::Apply => "apply",
        Key::Cancel => "cancel",
        Key::LocalSettings => "local_settings",
        Key::Uptime => "uptime",
        Key::CpuCount => "cpu_count",
        Key::CpuUtilization => "cpu_utilization",
        Key::CurrentOffset => "current_offset",
        Key::Delay => "delay",
        Key::Status => "status",
        Key::Synchronized => "synchronized",
        Key::Uncertain => "uncertain",
        Key::Unavailable => "unavailable",
        Key::Error => "error",
        Key::MissingTranslation => "missing_translation",
        Key::NoServerConfigured => "no_server_configured",
        Key::InvalidPollingInterval => "invalid_polling_interval",
        Key::InvalidServerProfile => "invalid_server_profile",
        Key::ServerProfileAlreadyExists => "server_profile_already_exists",
        Key::ServerProfileNotFound => "server_profile_not_found",
        Key::SelectAnotherServer => "select_another_server",
        Key::InvalidNtpResponse => "invalid_ntp_response",
        Key::NtpTransportFailed => "ntp_transport_failed",
        Key::NtpMeasurementFailed => "ntp_measurement_failed",
        Key::UnsupportedNtpResponseMode => "unsupported_ntp_response_mode",
        Key::MissingTimestamp => "missing_timestamp",
        Key::ClockBeforeNtpEpoch => "clock_before_ntp_epoch",
        Key::NtpTimestampOutOfRange => "ntp_timestamp_out_of_range",
        Key::PollingWorkerPanicked => "polling_worker_panicked",
        Key::EmptyServerName => "empty_server_name",
        Key::InvalidServerName => "invalid_server_name",
        Key::EmptyHostname => "empty_hostname",
        Key::InvalidHostname => "invalid_hostname",
        Key::InvalidHostnameLabel => "invalid_hostname_label",
        Key::PollIntervalTooShort => "poll_interval_too_short",
        Key::PollIntervalTooLong => "poll_interval_too_long",
        Key::ActiveServerOutOfBounds => "active_server_out_of_bounds",
    }
}

/// No two keys share an identifier.
pub proof fn lemma_key_ids_distinct(a: Key, b: Key)
    requires
        a != b,
    ensures
        key_id_spec(a)@ != key_id_spec(b)@,
{
    reveal_strlit("master_time");
    reveal_strlit("time");
    reveal_strlit("server");
    reveal_strlit("network");
    reveal_strlit("calibration");
    reveal_strlit("diagnostics");
    reveal_strlit("global_servers");
    reveal_strlit("settings");
    reveal_strlit("start_polling");
    reveal_strlit("stop_polling");
    reveal_strlit("polling_active");
    reveal_strlit("polling_stopped");
    reveal_strlit("active");
    reveal_strlit("sync_status");
    reveal_strlit("metrics");
    reveal_strlit("history");
    reveal_strlit("stratum");
    reveal_strlit("offset");
    reveal_strlit("round_trip_delay");
    reveal_strlit("root_distance");
    reveal_strlit("configured_servers");
    reveal_strlit("configured_profiles");
    reveal_strlit("server_profiles_validated");
    reveal_strlit("ntp_measurement_polling_status");
    reveal_strlit("sync_policy");
    reveal_strlit("eligible_for_correction");
    reveal_strlit("display_only");
    reveal_strlit("unsafe");
    reveal_strlit("clock_calibration");
    reveal_strlit("begin_calibration");
    reveal_strlit("calibration_waits_for_boundary");
    reveal_strlit("time_until_boundary");
    reveal_strlit("mark_boundary");
    reveal_strlit("stop_calibration");
    reveal_strlit("expected");
    reveal_strlit("marked");
    reveal_strlit("difference");
    reveal_strlit("early");
    reveal_strlit("late");
    reveal_strlit("global_server_catalog");
    reveal_strlit("search");
    reveal_strlit("all");
    reveal_strlit("use_server");
    reveal_strlit("polling_interval_seconds");
    reveal_strlit("set_draft");
    reveal_strlit("allowed_range_seconds");
    reveal_strlit("theme");
    reveal_strlit("system");
    reveal_strlit("light");
    reveal_strlit("dark");
    reveal_strlit("language");
    reveal_strlit("always_on_top");
    reveal_strlit("apply");
    reveal_strlit("cancel");
    reveal_strlit("local_settings");
    reveal_strlit("uptime");
    reveal_strlit("cpu_count");
    reveal_strlit("cpu_utilization");
    reveal_strlit("current_offset");
    reveal_strlit("delay");
    reveal_strlit("status");
    reveal_strlit("synchronized");
    reveal_strlit("uncertain");
    reveal_strlit("unavailable");
    reveal_strlit("error");
    reveal_strlit("missing_translation");
    reveal_strlit("no_server_configured");
    reveal_strlit("invalid_polling_interval");
    reveal_strlit("invalid_server_profile");
    reveal_strlit("server_profile_already_exists");
    reveal_strlit("server_profile_not_found");
    reveal_strlit("select_another_server");
    reveal_strlit("invalid_ntp_response");
    reveal_strlit("ntp_transport_failed");
    reveal_strlit("ntp_measurement_failed");
    reveal_strlit("unsupported_ntp_response_mode");
    reveal_strlit("missing_timestamp");
    reveal_strlit("clock_before_ntp_epoch");
    reveal_strlit("ntp_timestamp_out_of_range");
    reveal_strlit("polling_worker_panicked");
    reveal_strlit("empty_server_name");
    reveal_strlit("invalid_server_name");
    reveal_strlit("empty_hostname");
    reveal_strlit("invalid_hostname");
    reveal_strlit("invalid_hostname_label");
    reveal_strlit("poll_interval_too_short");
    reveal_strlit("poll_interval_too_long");
    reveal_strlit("active_server_out_of_bounds");
    let x = key_id_spec(a)@;
    let y = key_id_spec(b)@;
    assert(x == y ==> x.len() == y.len() && x[0] == y[0] && x[1] == y[1] && x[2] == y[2] && x[3] == y[3] && x[4] == y[4] && x[5] == y[5] && x[6] == y[6] && x[7] == y[7] && x[8] == y[8] && x[9] == y[9] && x[10] == y[10] && x[11] == y[11] && x[12] == y[12] && x[13] == y[13] && x[14] == y[14] && x[15] == y[15] && x[16] == y[16] && x[17] == y[17] && x[18] == y[18] && x[19] == y[19] && x[20] == y[20] && x[21] == y[21] && x[22] == y[22] && x[23] == y[23] && x[24] == y[24] && x[25] == y[25] && x[26] == y[26] && x[27] == y[27] && x[28] == y[28] && x[29] == y[29]);
}

/// The english text of each key.
pub open spec fn english_text(key: Key) -> &'static str {
    match key {
        Key::MasterTime => "Master Time",
        Key::Time => "Time",
        Key::Server => "Server",
        Key::Network => "Network",
        Key::Calibration => "Calibration",
        Key::Diagnostics => "Diagnostics",
        Key::GlobalServers => "Global Servers",
        Key::Settings => "Settings",
        Key::StartPolling => "Start polling",
        Key::StopPolling => "Stop polling",
        Key::PollingActive => "Polling active",
        Key::PollingStopped => "Polling stopped",
        Key::Active => "Active",
        Key::SyncStatus => "Sync status",
        Key::Metrics => "Metrics",
        Key::History => "History",
        Key::Stratum => "Stratum",
        Key::Offset => "Offset",
        Key::RoundTripDelay => "Round-trip delay",
        Key::RootDistance => "Root distance",
        Key::ConfiguredServers => "Configured servers",
        Key::ConfiguredProfiles => "configured profile(s)",
        Key::ServerProfilesValidated => "Server profiles are validated before they enter application state.",
        Key::NtpMeasurementPollingStatus => "NTP measurement and polling status",
        Key::SyncPolicy => "Sync policy",
        Key::EligibleForCorrection => "eligible for correction",
        Key::DisplayOnly => "display only",
        Key::Unsafe => "unsafe",
        Key::ClockCalibration => "Clock calibration",
        Key::BeginCalibration => "Begin calibration",
        Key::CalibrationWaitsForBoundary => "Calibration waits for the next minute boundary.",
        Key::TimeUntilBoundary => "Time until boundary: {seconds} seconds",
        Key::MarkBoundary => "Mark boundary",
        Key::StopCalibration => "Stop calibration",
        Key::Expected => "Expected",
        Key::Marked => "Marked",
        Key::Difference => "Difference",
        Key::Early => "early",
        Key::Late => "late",
        Key::GlobalServerCatalog => "Global server catalog",
        Key::Search => "Search",
        Key::All => "All",
        Key::UseServer => "Use server",
        Key::PollingIntervalSeconds => "Polling interval (seconds)",
        Key::SetDraft => "Set draft",
        Key::AllowedRangeSeconds => "Allowed range: {minimum}–{maximum} seconds",
        Key::Theme => "Theme",
        Key::System => "System",
        Key::Light => "Light",
        Key::Dark => "Dark",
        Key::Language => "Language",
        Key::AlwaysOnTop => "Always on top",
        Key::Apply => "Apply",
        Key::Cancel => "Cancel",
        Key::LocalSettings => "Local settings",
        Key::Uptime => "Uptime",
        Key::CpuCount => "CPU count",
        Key::CpuUtilization => "CPU utilization",
        Key::CurrentOffset => "Current offset",
        Key::Delay => "Delay",
        Key::Status => "Status",
        Key::Synchronized => "Synchronized",
        Key::Uncertain => "Uncertain",
        Key::Unavailable => "Unavailable",
        Key::Error => "Error",
        Key::MissingTranslation => MISSING_TRANSLATION,
        Key::NoServerConfigured => "No server is configured",
        Key::InvalidPollingInterval => "Polling interval must be an integer",
        Key::InvalidServerProfile => "invalid server profile",
        Key::ServerProfileAlreadyExists => "server profile already exists",
        Key::ServerProfileNotFound => "server profile {index} not found",
        Key::SelectAnotherServer => "select another server before removing the active server",
        Key::InvalidNtpResponse => "invalid NTP response",
        Key::NtpTransportFailed => "NTP transport failed",
        Key::NtpMeasurementFailed => "could not calculate NTP measurement",
        Key::UnsupportedNtpResponseMode => "unsupported NTP response mode {mode}; expected server mode",
        Key::MissingTimestamp => "missing {name} timestamp",
        Key::ClockBeforeNtpEpoch => "local clock is before the NTP epoch",
        Key::NtpTimestampOutOfRange => "local time cannot be represented as an NTP timestamp",
        Key::PollingWorkerPanicked => "polling worker thread panicked",
        Key::EmptyServerName => "server name cannot be empty",
        Key::InvalidServerName => "server name contains a control character",
        Key::EmptyHostname => "hostname cannot be empty",
        Key::InvalidHostname => "hostname contains invalid characters",
        Key::InvalidHostnameLabel => "hostname label is invalid",
        Key::PollIntervalTooShort => "poll interval {actual:?} is shorter than minimum {minimum:?}",
        Key::PollIntervalTooLong => "poll interval {actual:?} is longer than maximum {maximum:?}",
        Key::ActiveServerOutOfBounds => "active server index {index} is invalid for {server_count} servers",
    }
}

/// The simplified chinese text of each key.
pub open spec fn simplified_chinese_text(key: Key) -> &'static str {
    match key {
        Key::MasterTime => "主时间",
        Key::Time => "时间",
        Key::Server => "服务器",
        Key::Network => "网络",
        Key::Calibration => "校准",
        Key::Diagnostics => "诊断",
        Key::GlobalServers => "全球服务器",
        Key::Settings => "设置",
        Key::StartPolling => "开始轮询",
        Key::StopPolling => "停止轮询",
        Key::PollingActive => "轮询进行中",
        Key::PollingStopped => "轮询已停止",
        Key::Active => "当前",
        Key::SyncStatus => "同步状态",
        Key::Metrics => "指标",
        Key::History => "历史记录",
        Key::Stratum => "层级",
        Key::Offset => "偏移量",
        Key::RoundTripDelay => "往返延迟",
        Key::RootDistance => "根距离",
        Key::ConfiguredServers => "已配置的服务器",
        Key::ConfiguredProfiles => "个已配置的配置文件",
        Key::ServerProfilesValidated => "服务器配置文件在进入应用状态前会经过验证。",
        Key::NtpMeasurementPollingStatus => "NTP 测量和轮询状态",
        Key::SyncPolicy => "同步策略",
        Key::EligibleForCorrection => "可进行校正",
        Key::DisplayOnly => "仅显示",
        Key::Unsafe => "不安全",
        Key::ClockCalibration => "时钟校准",
        Key::BeginCalibration => "开始校准",
        Key::CalibrationWaitsForBoundary => "校准等待下一个整分钟边界。",
        Key::TimeUntilBoundary => "距离边界还有：{seconds} 秒",
        Key::MarkBoundary => "标记边界",
        Key::StopCalibration => "停止校准",
        Key::Expected => "预期",
        Key::Marked => "标记时间",
        Key::Difference => "差值",
        Key::Early => "提前",
        Key::Late => "延迟",
        Key::GlobalServerCatalog => "全球服务器目录",
        Key::Search => "搜索",
        Key::All => "全部",
        Key::UseServer => "使用服务器",
        Key::PollingIntervalSeconds => "轮询间隔（秒）",
        Key::SetDraft => "设置草稿",
        Key::AllowedRangeSeconds => "允许范围：{minimum}–{maximum} 秒",
        Key::Theme => "主题",
        Key::System => "系统",
        Key::Light => "浅色",
        Key::Dark => "深色",
        Key::Language => "语言",
        Key::AlwaysOnTop => "始终置顶",
        Key::Apply => "应用",
        Key::Cancel => "取消",
        Key::LocalSettings => "本地设置",
        Key::Uptime => "运行时间",
        Key::CpuCount => "CPU 数量",
        Key::CpuUtilization => "CPU 使用率",
        Key::CurrentOffset => "当前偏移量",
        Key::Delay => "延迟",
        Key::Status => "状态",
        Key::Synchronized => "已同步",
        Key::Uncertain => "不确定",
        Key::Unavailable => "不可用",
        Key::Error => "错误",
        Key::MissingTranslation => "缺少翻译",
        Key::NoServerConfigured => "未配置服务器",
        Key::InvalidPollingInterval => "轮询间隔必须是整数",
        Key::InvalidServerProfile => "服务器配置文件无效",
        Key::ServerProfileAlreadyExists => "服务器配置文件已存在",
        Key::ServerProfileNotFound => "找不到服务器配置文件 {index}",
        Key::SelectAnotherServer => "请先选择其他服务器，再移除当前服务器",
        Key::InvalidNtpResponse => "NTP 响应无效",
        Key::NtpTransportFailed => "NTP 传输失败",
        Key::NtpMeasurementFailed => "无法计算 NTP 测量结果",
        Key::UnsupportedNtpResponseMode => "不支持的 NTP 响应模式 {mode}；应为服务器模式",
        Key::MissingTimestamp => "缺少 {name} 时间戳",
        Key::ClockBeforeNtpEpoch => "本地时钟早于 NTP 纪元",
        Key::NtpTimestampOutOfRange => "本地时间无法表示为 NTP 时间戳",
        Key::PollingWorkerPanicked => "轮询工作线程发生崩溃",
        Key::EmptyServerName => "服务器名称不能为空",
        Key::InvalidServerName => "服务器名称包含控制字符",
        Key::EmptyHostname => "主机名不能为空",
        Key::InvalidHostname => "主机名包含无效字符",
        Key::InvalidHostnameLabel => "主机名标签无效",
        Key::PollIntervalTooShort => "轮询间隔 {actual:?} 短于最小值 {minimum:?}",
        Key::PollIntervalTooLong => "轮询间隔 {actual:?} 长于最大值 {maximum:?}",
        Key::ActiveServerOutOfBounds => "活动服务器索引 {index} 对 {server_count} 台服务器无效",
    }
}

/// The traditional chinese text of each key.
pub open spec fn traditional_chinese_text(key: Key) -> &'static str {
    match key {
        Key::MasterTime => "主時間",
        Key::Time => "時間",
        Key::Server => "伺服器",
        Key::Network => "網路",
        Key::Calibration => "校準",
        Key::Diagnostics => "診斷",
        Key::GlobalServers => "全球伺服器",
        Key::Settings => "設定",
        Key::StartPolling => "開始輪詢",
        Key::StopPolling => "停止輪詢",
        Key::PollingActive => "輪詢進行中",
        Key::PollingStopped => "輪詢已停止",
        Key::Active => "目前",
        Key::SyncStatus => "同步狀態",
        Key::Metrics => "指標",
        Key::History => "歷史記錄",
        Key::Stratum => "階層",
        Key::Offset => "偏移量",
        Key::RoundTripDelay => "往返延遲",
        Key::RootDistance => "根距離",
        Key::ConfiguredServers => "已設定的伺服器",
        Key::ConfiguredProfiles => "個已設定的設定檔",
        Key::ServerProfilesValidated => "伺服器設定檔在進入應用程式狀態前會經過驗證。",
        Key::NtpMeasurementPollingStatus => "NTP 測量與輪詢狀態",
        Key::SyncPolicy => "同步策略",
        Key::EligibleForCorrection => "可進行校正",
        Key::DisplayOnly => "僅顯示",
        Key::Unsafe => "不安全",
        Key::ClockCalibration => "時鐘校準",
        Key::BeginCalibration => "開始校準",
        Key::CalibrationWaitsForBoundary => "校準等待下一個整分鐘邊界。",
        Key::TimeUntilBoundary => "距離邊界還有：{seconds} 秒",
        Key::MarkBoundary => "標記邊界",
        Key::StopCalibration => "停止校準",
        Key::Expected => "預期",
        Key::Marked => "標記時間",
        Key::Difference => "差值",
        Key::Early => "提前",
        Key::Late => "延遲",
        Key::GlobalServerCatalog => "全球伺服器目錄",
        Key::Search => "搜尋",
        Key::All => "全部",
        Key::UseServer => "使用伺服器",
        Key::PollingIntervalSeconds => "輪詢間隔（秒）",
        Key::SetDraft => "設定草稿",
        Key::AllowedRangeSeconds => "允許範圍：{minimum}–{maximum} 秒",
        Key::Theme => "主題",
        Key::System => "系統",
        Key::Light => "淺色",
        Key::Dark => "深色",
        Key::Language => "語言",
        Key::AlwaysOnTop => "永遠置頂",
        Key::Apply => "套用",
        Key::Cancel => "取消",
        Key::LocalSettings => "本機設定",
        Key::Uptime => "執行時間",
        Key::CpuCount => "CPU 數量",
        Key::CpuUtilization => "CPU 使用率",
        Key::CurrentOffset => "目前偏移量",
        Key::Delay => "延遲",
        Key::Status => "狀態",
        Key::Synchronized => "已同步",
        Key::Uncertain => "不確定",
        Key::Unavailable => "無法使用",
        Key::Error => "錯誤",
        Key::MissingTranslation => "缺少翻譯",
        Key::NoServerConfigured => "未設定伺服器",
        Key::InvalidPollingInterval => "輪詢間隔必須是整數",
        Key::InvalidServerProfile => "伺服器設定檔無效",
        Key::ServerProfileAlreadyExists => "伺服器設定檔已存在",
        Key::ServerProfileNotFound => "找不到伺服器設定檔 {index}",
        Key::SelectAnotherServer => "請先選擇其他伺服器，再移除目前的伺服器",
        Key::InvalidNtpResponse => "NTP 回應無效",
        Key::NtpTransportFailed => "NTP 傳輸失敗",
        Key::NtpMeasurementFailed => "無法計算 NTP 測量結果",
        Key::UnsupportedNtpResponseMode => "不支援的 NTP 回應模式 {mode}；應為伺服器模式",
        Key::MissingTimestamp => "缺少 {name} 時間戳",
        Key::ClockBeforeNtpEpoch => "本機時鐘早於 NTP 紀元",
        Key::NtpTimestampOutOfRange => "本機時間無法表示為 NTP 時間戳",
        Key::PollingWorkerPanicked => "輪詢工作執行緒發生當機",
        Key::EmptyServerName => "伺服器名稱不可為空白",
        Key::InvalidServerName => "伺服器名稱包含控制字元",
        Key::EmptyHostname => "主機名稱不可為空白",
        Key::InvalidHostname => "主機名稱包含無效字元",
        Key::InvalidHostnameLabel => "主機名稱標籤無效",
        Key::PollIntervalTooShort => "輪詢間隔 {actual:?} 短於最小值 {minimum:?}",
        Key::PollIntervalTooLong => "輪詢間隔 {actual:?} 長於最大值 {maximum:?}",
        Key::ActiveServerOutOfBounds => "目前伺服器索引 {index} 對 {server_count} 台伺服器無效",
    }
}

/// The keys in declaration order.
pub open spec fn key_at_spec(i: int) -> Key {
    if i == 0 {
        Key::MasterTime
    } else if i == 1 {
        Key::Time
    } else if i == 2 {
        Key::Server
    } else if i == 3 {
        Key::Network
    } else if i == 4 {
        Key::Calibration
    } else if i == 5 {
        Key::Diagnostics
    } else if i == 6 {
        Key::GlobalServers
    } else if i == 7 {
        Key::Settings
    } else if i == 8 {
        Key::StartPolling
    } else if i == 9 {
        Key::StopPolling
    } else if i == 10 {
        Key::PollingActive
    } else if i == 11 {
        Key::PollingStopped
    } else if i == 12 {
        Key::Active
    } else if i == 13 {
        Key::SyncStatus
    } else if i == 14 {
        Key::Metrics
    } else if i == 15 {
        Key::History
    } else if i == 16 {
        Key::Stratum
    } else if i == 17 {
        Key::Offset
    } else if i == 18 {
        Key::RoundTripDelay
    } else if i == 19 {
        Key::RootDistance
    } else if i == 20 {
        Key::ConfiguredServers
    } else if i == 21 {
        Key::ConfiguredProfiles
    } else if i == 22 {
        Key::ServerProfilesValidated
    } else if i == 23 {
        Key::NtpMeasurementPollingStatus
    } else if i == 24 {
        Key::SyncPolicy
    } else if i == 25 {
        Key::EligibleForCorrection
    } else if i == 26 {
        Key::DisplayOnly
    } else if i == 27 {
        Key::Unsafe
    } else if i == 28 {
        Key::ClockCalibration
    } else if i == 29 {
        Key::BeginCalibration
    } else if i == 30 {
        Key::CalibrationWaitsForBoundary
    } else if i == 31 {
        Key::TimeUntilBoundary
    } else if i == 32 {
        Key::MarkBoundary
    } else if i == 33 {
        Key::StopCalibration
    } else if i == 34 {
        Key::Expected
    } else if i == 35 {
        Key::Marked
    } else if i == 36 {
        Key::Difference
    } else if i == 37 {
        Key::Early
    } else if i == 38 {
        Key::Late
    } else if i == 39 {
        Key::GlobalServerCatalog
    } else if i == 40 {
        Key::Search
    } else if i == 41 {
        Key::All
    } else if i == 42 {
        Key::UseServer
    } else if i == 43 {
        Key::PollingIntervalSeconds
    } else if i == 44 {
        Key::SetDraft
    } else if i == 45 {
        Key::AllowedRangeSeconds
    } else if i == 46 {
        Key::Theme
    } else if i == 47 {
        Key::System
    } else if i == 48 {
        Key::Light
    } else if i == 49 {
        Key::Dark
    } else if i == 50 {
        Key::Language
    } else if i == 51 {
        Key::AlwaysOnTop
    } else if i == 52 {
        Key::Apply
    } else if i == 53 {
        Key::Cancel
    } else if i == 54 {
        Key::LocalSettings
    } else if i == 55 {
        Key::Uptime
    } else if i == 56 {
        Key::CpuCount
    } else if i == 57 {
        Key::CpuUtilization
    } else if i == 58 {
        Key::CurrentOffset
    } else if i == 59 {
        Key::Delay
    } else if i == 60 {
        Key::Status
    } else if i == 61 {
        Key::Synchronized
    } else if i == 62 {
        Key::Uncertain
    } else if i == 63 {
        Key::Unavailable
    } else if i == 64 {
        Key::Error
    } else if i == 65 {
        Key::MissingTranslation
    } else if i == 66 {
        Key::NoServerConfigured
    } else if i == 67 {
        Key::InvalidPollingInterval
    } else if i == 68 {
        Key::InvalidServerProfile
    } else if i == 69 {
        Key::ServerProfileAlreadyExists
    } else if i == 70 {
        Key::ServerProfileNotFound
    } else if i == 71 {
        Key::SelectAnotherServer
    } else if i == 72 {
        Key::InvalidNtpResponse
    } else if i == 73 {
        Key::NtpTransportFailed
    } else if i == 74 {
        Key::NtpMeasurementFailed
    } else if i == 75 {
        Key::UnsupportedNtpResponseMode
    } else if i == 76 {
        Key::MissingTimestamp
    } else if i == 77 {
        Key::ClockBeforeNtpEpoch
    } else if i == 78 {
        Key::NtpTimestampOutOfRange
    } else if i == 79 {
        Key::PollingWorkerPanicked
    } else if i == 80 {
        Key::EmptyServerName
    } else if i == 81 {
        Key::InvalidServerName
    } else if i == 82 {
        Key::EmptyHostname
    } else if i == 83 {
        Key::InvalidHostname
    } else if i == 84 {
        Key::InvalidHostnameLabel
    } else if i == 85 {
        Key::PollIntervalTooShort
    } else if i == 86 {
        Key::PollIntervalTooLong
    } else {
        Key::ActiveServerOutOfBounds
    }
}

/// The position of each key in declaration order.
pub open spec fn key_index(key: Key) -> int {
    match key {
        Key::MasterTime => 0,
        Key::Time => 1,
        Key::Server => 2,
        Key::Network => 3,
        Key::Calibration => 4,
        Key::Diagnostics => 5,
        Key::GlobalServers => 6,
        Key::Settings => 7,
        Key::StartPolling => 8,
        Key::StopPolling => 9,
        Key::PollingActive => 10,
        Key::PollingStopped => 11,
        Key::Active => 12,
        Key::SyncStatus => 13,
        Key::Metrics => 14,
        Key::History => 15,
        Key::Stratum => 16,
        Key::Offset => 17,
        Key::RoundTripDelay => 18,
        Key::RootDistance => 19,
        Key::ConfiguredServers => 20,
        Key::ConfiguredProfiles => 21,
        Key::ServerProfilesValidated => 22,
        Key::NtpMeasurementPollingStatus => 23,
        Key::SyncPolicy => 24,
        Key::EligibleForCorrection => 25,
        Key::DisplayOnly => 26,
        Key::Unsafe => 27,
        Key::ClockCalibration => 28,
        Key::BeginCalibration => 29,
        Key::CalibrationWaitsForBoundary => 30,
        Key::TimeUntilBoundary => 31,
        Key::MarkBoundary => 32,
        Key::StopCalibration => 33,
        Key::Expected => 34,
        Key::Marked => 35,
        Key::Difference => 36,
        Key::Early => 37,
        Key::Late => 38,
        Key::GlobalServerCatalog => 39,
        Key::Search => 40,
        Key::All => 41,
        Key::UseServer => 42,
        Key::PollingIntervalSeconds => 43,
        Key::SetDraft => 44,
        Key::AllowedRangeSeconds => 45,
        Key::Theme => 46,
        Key::System => 47,
        Key::Light => 48,
        Key::Dark => 49,
        Key::Language => 50,
        Key::AlwaysOnTop => 51,
        Key::Apply => 52,
        Key::Cancel => 53,
        Key::LocalSettings => 54,
        Key::Uptime => 55,
        Key::CpuCount => 56,
        Key::CpuUtilization => 57,
        Key::CurrentOffset => 58,
        Key::Delay => 59,
        Key::Status => 60,
        Key::Synchronized => 61,
        Key::Uncertain => 62,
        Key::Unavailable => 63,
        Key::Error => 64,
        Key::MissingTranslation => 65,
        Key::NoServerConfigured => 66,
        Key::InvalidPollingInterval => 67,
        Key::InvalidServerProfile => 68,
        Key::ServerProfileAlreadyExists => 69,
        Key::ServerProfileNotFound => 70,
        Key::SelectAnotherServer => 71,
        Key::InvalidNtpResponse => 72,
        Key::NtpTransportFailed => 73,
        Key::NtpMeasurementFailed => 74,
        Key::UnsupportedNtpResponseMode => 75,
        Key::MissingTimestamp => 76,
        Key::ClockBeforeNtpEpoch => 77,
        Key::NtpTimestampOutOfRange => 78,
        Key::PollingWorkerPanicked => 79,
        Key::EmptyServerName => 80,
        Key::InvalidServerName => 81,
        Key::EmptyHostname => 82,
        Key::InvalidHostname => 83,
        Key::InvalidHostnameLabel => 84,
        Key::PollIntervalTooShort => 85,
        Key::PollIntervalTooLong => 86,
        Key::ActiveServerOutOfBounds => 87,
    }
}

/// Every key has a position, and that position holds the key.
pub proof fn lemma_key_index(key: Key)
    ensures
        0 <= key_index(key) < KEY_COUNT,
        key_at_spec(key_index(key)) == key,
{
}

fn key_at(i: usize) -> (k: Key)
    requires
        i < KEY_COUNT,
    ensures
        k == key_at_spec(i as int),
{
    if i == 0 {
        Key::MasterTime
    } else if i == 1 {
        Key::Time
    } else if i == 2 {
        Key::Server
    } else if i == 3 {
        Key::Network
    } else if i == 4 {
        Key::Calibration
    } else if i == 5 {
        Key::Diagnostics
    } else if i == 6 {
        Key::GlobalServers
    } else if i == 7 {
        Key::Settings
    } else if i == 8 {
        Key::StartPolling
    } else if i == 9 {
        Key::StopPolling
    } else if i == 10 {
        Key::PollingActive
    } else if i == 11 {
        Key::PollingStopped
    } else if i == 12 {
        Key::Active
    } else if i == 13 {
        Key::SyncStatus
    } else if i == 14 {
        Key::Metrics
    } else if i == 15 {
        Key::History
    } else if i == 16 {
        Key::Stratum
    } else if i == 17 {
        Key::Offset
    } else if i == 18 {
        Key::RoundTripDelay
    } else if i == 19 {
        Key::RootDistance
    } else if i == 20 {
        Key::ConfiguredServers
    } else if i == 21 {
        Key::ConfiguredProfiles
    } else if i == 22 {
        Key::ServerProfilesValidated
    } else if i == 23 {
        Key::NtpMeasurementPollingStatus
    } else if i == 24 {
        Key::SyncPolicy
    } else if i == 25 {
        Key::EligibleForCorrection
    } else if i == 26 {
        Key::DisplayOnly
    } else if i == 27 {
        Key::Unsafe
    } else if i == 28 {
        Key::ClockCalibration
    } else if i == 29 {
        Key::BeginCalibration
    } else if i == 30 {
        Key::CalibrationWaitsForBoundary
    } else if i == 31 {
        Key::TimeUntilBoundary
    } else if i == 32 {
        Key::MarkBoundary
    } else if i == 33 {
        Key::StopCalibration
    } else if i == 34 {
        Key::Expected
    } else if i == 35 {
        Key::Marked
    } else if i == 36 {
        Key::Difference
    } else if i == 37 {
        Key::Early
    } else if i == 38 {
        Key::Late
    } else if i == 39 {
        Key::GlobalServerCatalog
    } else if i == 40 {
        Key::Search
    } else if i == 41 {
        Key::All
    } else if i == 42 {
        Key::UseServer
    } else if i == 43 {
        Key::PollingIntervalSeconds
    } else if i == 44 {
        Key::SetDraft
    } else if i == 45 {
        Key::AllowedRangeSeconds
    } else if i == 46 {
        Key::Theme
    } else if i == 47 {
        Key::System
    } else if i == 48 {
        Key::Light
    } else if i == 49 {
        Key::Dark
    } else if i == 50 {
        Key::Language
    } else if i == 51 {
        Key::AlwaysOnTop
    } else if i == 52 {
        Key::Apply
    } else if i == 53 {
        Key::Cancel
    } else if i == 54 {
        Key::LocalSettings
    } else if i == 55 {
        Key::Uptime
    } else if i == 56 {
        Key::CpuCount
    } else if i == 57 {
        Key::CpuUtilization
    } else if i == 58 {
        Key::CurrentOffset
    } else if i == 59 {
        Key::Delay
    } else if i == 60 {
        Key::Status
    } else if i == 61 {
        Key::Synchronized
    } else if i == 62 {
        Key::Uncertain
    } else if i == 63 {
        Key::Unavailable
    } else if i == 64 {
        Key::Error
    } else if i == 65 {
        Key::MissingTranslation
    } else if i == 66 {
        Key::NoServerConfigured
    } else if i == 67 {
        Key::InvalidPollingInterval
    } else if i == 68 {
        Key::InvalidServerProfile
    } else if i == 69 {
        Key::ServerProfileAlreadyExists
    } else if i == 70 {
        Key::ServerProfileNotFound
    } else if i == 71 {
        Key::SelectAnotherServer
    } else if i == 72 {
        Key::InvalidNtpResponse
    } else if i == 73 {
        Key::NtpTransportFailed
    } else if i == 74 {
        Key::NtpMeasurementFailed
    } else if i == 75 {
        Key::UnsupportedNtpResponseMode
    } else if i == 76 {
        Key::MissingTimestamp
    } else if i == 77 {
        Key::ClockBeforeNtpEpoch
    } else if i == 78 {
        Key::NtpTimestampOutOfRange
    } else if i == 79 {
        Key::PollingWorkerPanicked
    } else if i == 80 {
        Key::EmptyServerName
    } else if i == 81 {
        Key::InvalidServerName
    } else if i == 82 {
        Key::EmptyHostname
    } else if i == 83 {
        Key::InvalidHostname
    } else if i == 84 {
        Key::InvalidHostnameLabel
    } else if i == 85 {
        Key::PollIntervalTooShort
    } else if i == 86 {
        Key::PollIntervalTooLong
    } else {
        Key::ActiveServerOutOfBounds
    }
}

/// Every key, in declaration order.
pub fn all_keys() -> (keys: Vec<Key>)
    ensures
        keys@.len() == KEY_COUNT,
        forall|i: int| 0 <= i < KEY_COUNT ==> keys@[i] == key_at_spec(i),
{
    let mut keys: Vec<Key> = Vec::new();
    let mut i: usize = 0;
    while i < KEY_COUNT
        invariant
            i <= KEY_COUNT,
            keys@.len() == i,
            forall|j: int| 0 <= j < i ==> keys@[j] == key_at_spec(j),
        decreases KEY_COUNT - i,
    {
        keys.push(key_at(i));
        i = i + 1;
    }
    keys
}

impl Key {
    /// Returns the stable, storage-safe identifier for this key.
    pub fn id(self) -> (s: &'static str)
        ensures
            s == key_id_spec(self),
    {
        match self {
            Key::MasterTime => "master_time",
            Key::Time => "time",
            Key::Server => "server",
            Key::Network => "network",
            Key::Calibration => "calibration",
            Key::Diagnostics => "diagnostics",
            Key::GlobalServers => "global_servers",
            Key::Settings => "settings",
            Key::StartPolling => "start_polling",
            Key::StopPolling => "stop_polling",
            Key::PollingActive => "polling_active",
            Key::PollingStopped => "polling_stopped",
            Key::Active => "active",
            Key::SyncStatus => "sync_status",
            Key::Metrics => "metrics",
            Key::History => "history",
            Key::Stratum => "stratum",
            Key::Offset => "offset",
            Key::RoundTripDelay => "round_trip_delay",
            Key::RootDistance => "root_distance",
            Key::ConfiguredServers => "configured_servers",
            Key::ConfiguredProfiles => "configured_profiles",
            Key::ServerProfilesValidated => "server_profiles_validated",
            Key::NtpMeasurementPollingStatus => "ntp_measurement_polling_status",
            Key::SyncPolicy => "sync_policy",
            Key::EligibleForCorrection => "eligible_for_correction",
            Key::DisplayOnly => "display_only",
            Key::Unsafe => "unsafe",
            Key::ClockCalibration => "clock_calibration",
            Key::BeginCalibration => "begin_calibration",
            Key::CalibrationWaitsForBoundary => "calibration_waits_for_boundary",
            Key::TimeUntilBoundary => "time_until_boundary",
            Key::MarkBoundary => "mark_boundary",
            Key::StopCalibration => "stop_calibration",
            Key::Expected => "expected",
            Key::Marked => "marked",
            Key::Difference => "difference",
            Key::Early => "early",
            Key::Late => "late",
            Key::GlobalServerCatalog => "global_server_catalog",
            Key::Search => "search",
            Key::All => "all",
            Key::UseServer => "use_server",
            Key::PollingIntervalSeconds => "polling_interval_seconds",
            Key::SetDraft => "set_draft",
            Key::AllowedRangeSeconds => "allowed_range_seconds",
            Key::Theme => "theme",
            Key::System => "system",
            Key::Light => "light",
            Key::Dark => "dark",
            Key::Language => "language",
            Key::AlwaysOnTop => "always_on_top",
            Key::Apply => "apply",
            Key::Cancel => "cancel",
            Key::LocalSettings => "local_settings",
            Key::Uptime => "uptime",
            Key::CpuCount => "cpu_count",
            Key::CpuUtilization => "cpu_utilization",
            Key::CurrentOffset => "current_offset",
            Key::Delay => "delay",
            Key::Status => "status",
            Key::Synchronized => "synchronized",
            Key::Uncertain => "uncertain",
            Key::Unavailable => "unavailable",
            Key::Error => "error",
            Key::MissingTranslation => "missing_translation",
            Key::NoServerConfigured => "no_server_configured",
            Key::InvalidPollingInterval => "invalid_polling_interval",
            Key::InvalidServerProfile => "invalid_server_profile",
            Key::ServerProfileAlreadyExists => "server_profile_already_exists",
            Key::ServerProfileNotFound => "server_profile_not_found",
            Key::SelectAnotherServer => "select_another_server",
            Key::InvalidNtpResponse => "invalid_ntp_response",
            Key::NtpTransportFailed => "ntp_transport_failed",
            Key::NtpMeasurementFailed => "ntp_measurement_failed",
            Key::UnsupportedNtpResponseMode => "unsupported_ntp_response_mode",
            Key::MissingTimestamp => "missing_timestamp",
            Key::ClockBeforeNtpEpoch => "clock_before_ntp_epoch",
            Key::NtpTimestampOutOfRange => "ntp_timestamp_out_of_range",
            Key::PollingWorkerPanicked => "polling_worker_panicked",
            Key::EmptyServerName => "empty_server_name",
            Key::InvalidServerName => "invalid_server_name",
            Key::EmptyHostname => "empty_hostname",
            Key::InvalidHostname => "invalid_hostname",
            Key::InvalidHostnameLabel => "invalid_hostname_label",
            Key::PollIntervalTooShort => "poll_interval_too_short",
            Key::PollIntervalTooLong => "poll_interval_too_long",
            Key::ActiveServerOutOfBounds => "active_server_out_of_bounds",
        }
    }
}

/// Text returned when an untrusted or stale key cannot be resolved.
pub const MISSING_TRANSLATION: &'static str = "Missing translation";

/// The text of a key in a language.
pub open spec fn catalog_text(language: Language, key: Key) -> &'static str {
    match language {
        Language::English => english_text(key),
        Language::SimplifiedChinese => simplified_chinese_text(key),
        Language::TraditionalChinese => traditional_chinese_text(key),
    }
}

fn english(key: Key) -> (s: &'static str)
    ensures
        s == english_text(key),
{
    match key {
        Key::MasterTime => "Master Time",
        Key::Time => "Time",
        Key::Server => "Server",
        Key::Network => "Network",
        Key::Calibration => "Calibration",
        Key::Diagnostics => "Diagnostics",
        Key::GlobalServers => "Global Servers",
        Key::Settings => "Settings",
        Key::StartPolling => "Start polling",
        Key::StopPolling => "Stop polling",
        Key::PollingActive => "Polling active",
        Key::PollingStopped => "Polling stopped",
        Key::Active => "Active",
        Key::SyncStatus => "Sync status",
        Key::Metrics => "Metrics",
        Key::History => "History",
        Key::Stratum => "Stratum",
        Key::Offset => "Offset",
        Key::RoundTripDelay => "Round-trip delay",
        Key::RootDistance => "Root distance",
        Key::ConfiguredServers => "Configured servers",
        Key::ConfiguredProfiles => "configured profile(s)",
        Key::ServerProfilesValidated => "Server profiles are validated before they enter application state.",
        Key::NtpMeasurementPollingStatus => "NTP measurement and polling status",
        Key::SyncPolicy => "Sync policy",
        Key::EligibleForCorrection => "eligible for correction",
        Key::DisplayOnly => "display only",
        Key::Unsafe => "unsafe",
        Key::ClockCalibration => "Clock calibration",
        Key::BeginCalibration => "Begin calibration",
        Key::CalibrationWaitsForBoundary => "Calibration waits for the next minute boundary.",
        Key::TimeUntilBoundary => "Time until boundary: {seconds} seconds",
        Key::MarkBoundary => "Mark boundary",
        Key::StopCalibration => "Stop calibration",
        Key::Expected => "Expected",
        Key::Marked => "Marked",
        Key::Difference => "Difference",
        Key::Early => "early",
        Key::Late => "late",
        Key::GlobalServerCatalog => "Global server catalog",
        Key::Search => "Search",
        Key::All => "All",
        Key::UseServer => "Use server",
        Key::PollingIntervalSeconds => "Polling interval (seconds)",
        Key::SetDraft => "Set draft",
        Key::AllowedRangeSeconds => "Allowed range: {minimum}–{maximum} seconds",
        Key::Theme => "Theme",
        Key::System => "System",
        Key::Light => "Light",
        Key::Dark => "Dark",
        Key::Language => "Language",
        Key::AlwaysOnTop => "Always on top",
        Key::Apply => "Apply",
        Key::Cancel => "Cancel",
        Key::LocalSettings => "Local settings",
        Key::Uptime => "Uptime",
        Key::CpuCount => "CPU count",
        Key::CpuUtilization => "CPU utilization",
        Key::CurrentOffset => "Current offset",
        Key::Delay => "Delay",
        Key::Status => "Status",
        Key::Synchronized => "Synchronized",
        Key::Uncertain => "Uncertain",
        Key::Unavailable => "Unavailable",
        Key::Error => "Error",
        Key::MissingTranslation => MISSING_TRANSLATION,
        Key::NoServerConfigured => "No server is configured",
        Key::InvalidPollingInterval => "Polling interval must be an integer",
        Key::InvalidServerProfile => "invalid server profile",
        Key::ServerProfileAlreadyExists => "server profile already exists",
        Key::ServerProfileNotFound => "server profile {index} not found",
        Key::SelectAnotherServer => "select another server before removing the active server",
        Key::InvalidNtpResponse => "invalid NTP response",
        Key::NtpTransportFailed => "NTP transport failed",
        Key::NtpMeasurementFailed => "could not calculate NTP measurement",
        Key::UnsupportedNtpResponseMode => "unsupported NTP response mode {mode}; expected server mode",
        Key::MissingTimestamp => "missing {name} timestamp",
        Key::ClockBeforeNtpEpoch => "local clock is before the NTP epoch",
        Key::NtpTimestampOutOfRange => "local time cannot be represented as an NTP timestamp",
        Key::PollingWorkerPanicked => "polling worker thread panicked",
        Key::EmptyServerName => "server name cannot be empty",
        Key::InvalidServerName => "server name contains a control character",
        Key::EmptyHostname => "hostname cannot be empty",
        Key::InvalidHostname => "hostname contains invalid characters",
        Key::InvalidHostnameLabel => "hostname label is invalid",
        Key::PollIntervalTooShort => "poll interval {actual:?} is shorter than minimum {minimum:?}",
        Key::PollIntervalTooLong => "poll interval {actual:?} is longer than maximum {maximum:?}",
        Key::ActiveServerOutOfBounds => "active server index {index} is invalid for {server_count} servers",
    }
}

fn simplified_chinese(key: Key) -> (s: &'static str)
    ensures
        s == simplified_chinese_text(key),
{
    match key {
        Key::MasterTime => "主时间",
        Key::Time => "时间",
        Key::Server => "服务器",
        Key::Network => "网络",
        Key::Calibration => "校准",
        Key::Diagnostics => "诊断",
        Key::GlobalServers => "全球服务器",
        Key::Settings => "设置",
        Key::StartPolling => "开始轮询",
        Key::StopPolling => "停止轮询",
        Key::PollingActive => "轮询进行中",
        Key::PollingStopped => "轮询已停止",
        Key::Active => "当前",
        Key::SyncStatus => "同步状态",
        Key::Metrics => "指标",
        Key::History => "历史记录",
        Key::Stratum => "层级",
        Key::Offset => "偏移量",
        Key::RoundTripDelay => "往返延迟",
        Key::RootDistance => "根距离",
        Key::ConfiguredServers => "已配置的服务器",
        Key::ConfiguredProfiles => "个已配置的配置文件",
        Key::ServerProfilesValidated => "服务器配置文件在进入应用状态前会经过验证。",
        Key::NtpMeasurementPollingStatus => "NTP 测量和轮询状态",
        Key::SyncPolicy => "同步策略",
        Key::EligibleForCorrection => "可进行校正",
        Key::DisplayOnly => "仅显示",
        Key::Unsafe => "不安全",
        Key::ClockCalibration => "时钟校准",
        Key::BeginCalibration => "开始校准",
        Key::CalibrationWaitsForBoundary => "校准等待下一个整分钟边界。",
        Key::TimeUntilBoundary => "距离边界还有：{seconds} 秒",
        Key::MarkBoundary => "标记边界",
        Key::StopCalibration => "停止校准",
        Key::Expected => "预期",
        Key::Marked => "标记时间",
        Key::Difference => "差值",
        Key::Early => "提前",
        Key::Late => "延迟",
        Key::GlobalServerCatalog => "全球服务器目录",
        Key::Search => "搜索",
        Key::All => "全部",
        Key::UseServer => "使用服务器",
        Key::PollingIntervalSeconds => "轮询间隔（秒）",
        Key::SetDraft => "设置草稿",
        Key::AllowedRangeSeconds => "允许范围：{minimum}–{maximum} 秒",
        Key::Theme => "主题",
        Key::System => "系统",
        Key::Light => "浅色",
        Key::Dark => "深色",
        Key::Language => "语言",
        Key::AlwaysOnTop => "始终置顶",
        Key::Apply => "应用",
        Key::Cancel => "取消",
        Key::LocalSettings => "本地设置",
        Key::Uptime => "运行时间",
        Key::CpuCount => "CPU 数量",
        Key::CpuUtilization => "CPU 使用率",
        Key::CurrentOffset => "当前偏移量",
        Key::Delay => "延迟",
        Key::Status => "状态",
        Key::Synchronized => "已同步",
        Key::Uncertain => "不确定",
        Key::Unavailable => "不可用",
        Key::Error => "错误",
        Key::MissingTranslation => "缺少翻译",
        Key::NoServerConfigured => "未配置服务器",
        Key::InvalidPollingInterval => "轮询间隔必须是整数",
        Key::InvalidServerProfile => "服务器配置文件无效",
        Key::ServerProfileAlreadyExists => "服务器配置文件已存在",
        Key::ServerProfileNotFound => "找不到服务器配置文件 {index}",
        Key::SelectAnotherServer => "请先选择其他服务器，再移除当前服务器",
        Key::InvalidNtpResponse => "NTP 响应无效",
        Key::NtpTransportFailed => "NTP 传输失败",
        Key::NtpMeasurementFailed => "无法计算 NTP 测量结果",
        Key::UnsupportedNtpResponseMode => "不支持的 NTP 响应模式 {mode}；应为服务器模式",
        Key::MissingTimestamp => "缺少 {name} 时间戳",
        Key::ClockBeforeNtpEpoch => "本地时钟早于 NTP 纪元",
        Key::NtpTimestampOutOfRange => "本地时间无法表示为 NTP 时间戳",
        Key::PollingWorkerPanicked => "轮询工作线程发生崩溃",
        Key::EmptyServerName => "服务器名称不能为空",
        Key::InvalidServerName => "服务器名称包含控制字符",
        Key::EmptyHostname => "主机名不能为空",
        Key::InvalidHostname => "主机名包含无效字符",
        Key::InvalidHostnameLabel => "主机名标签无效",
        Key::PollIntervalTooShort => "轮询间隔 {actual:?} 短于最小值 {minimum:?}",
        Key::PollIntervalTooLong => "轮询间隔 {actual:?} 长于最大值 {maximum:?}",
        Key::ActiveServerOutOfBounds => "活动服务器索引 {index} 对 {server_count} 台服务器无效",
    }
}

fn traditional_chinese(key: Key) -> (s: &'static str)
    ensures
        s == traditional_chinese_text(key),
{
    match key {
        Key::MasterTime => "主時間",
        Key::Time => "時間",
        Key::Server => "伺服器",
        Key::Network => "網路",
        Key::Calibration => "校準",
        Key::Diagnostics => "診斷",
        Key::GlobalServers => "全球伺服器",
        Key::Settings => "設定",
        Key::StartPolling => "開始輪詢",
        Key::StopPolling => "停止輪詢",
        Key::PollingActive => "輪詢進行中",
        Key::PollingStopped => "輪詢已停止",
        Key::Active => "目前",
        Key::SyncStatus => "同步狀態",
        Key::Metrics => "指標",
        Key::History => "歷史記錄",
        Key::Stratum => "階層",
        Key::Offset => "偏移量",
        Key::RoundTripDelay => "往返延遲",
        Key::RootDistance => "根距離",
        Key::ConfiguredServers => "已設定的伺服器",
        Key::ConfiguredProfiles => "個已設定的設定檔",
        Key::ServerProfilesValidated => "伺服器設定檔在進入應用程式狀態前會經過驗證。",
        Key::NtpMeasurementPollingStatus => "NTP 測量與輪詢狀態",
        Key::SyncPolicy => "同步策略",
        Key::EligibleForCorrection => "可進行校正",
        Key::DisplayOnly => "僅顯示",
        Key::Unsafe => "不安全",
        Key::ClockCalibration => "時鐘校準",
        Key::BeginCalibration => "開始校準",
        Key::CalibrationWaitsForBoundary => "校準等待下一個整分鐘邊界。",
        Key::TimeUntilBoundary => "距離邊界還有：{seconds} 秒",
        Key::MarkBoundary => "標記邊界",
        Key::StopCalibration => "停止校準",
        Key::Expected => "預期",
        Key::Marked => "標記時間",
        Key::Difference => "差值",
        Key::Early => "提前",
        Key::Late => "延遲",
        Key::GlobalServerCatalog => "全球伺服器目錄",
        Key::Search => "搜尋",
        Key::All => "全部",
        Key::UseServer => "使用伺服器",
        Key::PollingIntervalSeconds => "輪詢間隔（秒）",
        Key::SetDraft => "設定草稿",
        Key::AllowedRangeSeconds => "允許範圍：{minimum}–{maximum} 秒",
        Key::Theme => "主題",
        Key::System => "系統",
        Key::Light => "淺色",
        Key::Dark => "深色",
        Key::Language => "語言",
        Key::AlwaysOnTop => "永遠置頂",
        Key::Apply => "套用",
        Key::Cancel => "取消",
        Key::LocalSettings => "本機設定",
        Key::Uptime => "執行時間",
        Key::CpuCount => "CPU 數量",
        Key::CpuUtilization => "CPU 使用率",
        Key::CurrentOffset => "目前偏移量",
        Key::Delay => "延遲",
        Key::Status => "狀態",
        Key::Synchronized => "已同步",
        Key::Uncertain => "不確定",
        Key::Unavailable => "無法使用",
        Key::Error => "錯誤",
        Key::MissingTranslation => "缺少翻譯",
        Key::NoServerConfigured => "未設定伺服器",
        Key::InvalidPollingInterval => "輪詢間隔必須是整數",
        Key::InvalidServerProfile => "伺服器設定檔無效",
        Key::ServerProfileAlreadyExists => "伺服器設定檔已存在",
        Key::ServerProfileNotFound => "找不到伺服器設定檔 {index}",
        Key::SelectAnotherServer => "請先選擇其他伺服器，再移除目前的伺服器",
        Key::InvalidNtpResponse => "NTP 回應無效",
        Key::NtpTransportFailed => "NTP 傳輸失敗",
        Key::NtpMeasurementFailed => "無法計算 NTP 測量結果",
        Key::UnsupportedNtpResponseMode => "不支援的 NTP 回應模式 {mode}；應為伺服器模式",
        Key::MissingTimestamp => "缺少 {name} 時間戳",
        Key::ClockBeforeNtpEpoch => "本機時鐘早於 NTP 紀元",
        Key::NtpTimestampOutOfRange => "本機時間無法表示為 NTP 時間戳",
        Key::PollingWorkerPanicked => "輪詢工作執行緒發生當機",
        Key::EmptyServerName => "伺服器名稱不可為空白",
        Key::InvalidServerName => "伺服器名稱包含控制字元",
        Key::EmptyHostname => "主機名稱不可為空白",
        Key::InvalidHostname => "主機名稱包含無效字元",
        Key::InvalidHostnameLabel => "主機名稱標籤無效",
        Key::PollIntervalTooShort => "輪詢間隔 {actual:?} 短於最小值 {minimum:?}",
        Key::PollIntervalTooLong => "輪詢間隔 {actual:?} 長於最大值 {maximum:?}",
        Key::ActiveServerOutOfBounds => "目前伺服器索引 {index} 對 {server_count} 台伺服器無效",
    }
}

/// A language-bound translation catalog.
#[derive(Debug, Clone, Copy, PartialEq, Eq, Structural)]
pub struct TranslationCatalog {
    language: Language,
}

/// Alias useful to callers that prefer the shorter catalog name.
pub type Catalog = TranslationCatalog;

impl TranslationCatalog {
    pub closed spec fn language_spec(self) -> Language {
        self.language
    }

    pub fn new(language: Language) -> (c: Self)
        ensures
            c.language_spec() == language,
    {
        TranslationCatalog { language }
    }

    pub fn language(self) -> (l: Language)
        ensures
            l == self.language_spec(),
    {
        self.language
    }

    /// Creates a catalog from a locale, falling back to English safely.
    pub fn for_locale(locale: &str) -> (c: Self)
        ensures
            c.language_spec() == locale_language(normalize_locale(locale@)),
    {
        Self::new(Language::from_locale(locale))
    }

    /// Looks up a compile-time-known key.
    pub fn text(self, key: Key) -> (s: &'static str)
        ensures
            s == catalog_text(self.language_spec(), key),
    {
        match self.language {
            Language::English => english(key),
            Language::SimplifiedChinese => simplified_chinese(key),
            Language::TraditionalChinese => traditional_chinese(key),
        }
    }

    /// Resolves an external key without rendering the input on failure.
    pub fn text_for(self, id: &str) -> (s: &'static str)
        ensures
            forall|key: Key|
                key_id_spec(key)@ == id@ ==> s == catalog_text(self.language_spec(), key),
            (forall|key: Key| key_id_spec(key)@ != id@) ==> s == MISSING_TRANSLATION,
    {
        let mut i: usize = 0;
        while i < KEY_COUNT
            invariant
                i <= KEY_COUNT,
                forall|j: int| 0 <= j < i ==> key_id_spec(key_at_spec(j))@ != id@,
            decreases KEY_COUNT - i,
        {
            let key = key_at(i);
            if str_eq(key.id(), id) {
                proof {
                    assert forall|k: Key| key_id_spec(k)@ == id@ implies catalog_text(
                        self.language_spec(),
                        k,
                    ) == catalog_text(self.language_spec(), key) by {
                        if k != key {
                            lemma_key_ids_distinct(k, key);
                        }
                    }
                }
                return self.text(key);
            }
            i = i + 1;
        }
        assert forall|key: Key| key_id_spec(key)@ != id@ by {
            lemma_key_index(key);
        }
        MISSING_TRANSLATION
    }
}

} // verus!
