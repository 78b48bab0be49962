//! Framework-neutral presentation models for the desktop application.
//!
//! This module owns only display data; a user interface renders a
//! [`Presentation`] without formatting domain values itself. Measured values
//! arrive already written in milliseconds.
use vstd::prelude::*;

use crate::crash_diagnostics::{civil, civil_from_days, push_signed_padded, signed_padded};
use crate::health::HealthStatus;
use crate::text::{decimal_padded, push_decimal_padded, push_str, string_from_str};
use crate::time::{unix_epoch, SystemTime};

verus! {

pub open spec fn unavailable() -> Seq<char> {
    "Unavailable"@
}

fn unavailable_string() -> (s: String)
    ensures
        s@ == unavailable(),
{
    string_from_str("Unavailable")
}

/// All stable sections presented by the application.
#[derive(Debug, Clone, PartialEq, Eq)]
pub struct Presentation {
    pub current_time: CurrentTimeView,
    pub server_metrics: ServerMetricsView,
    pub status: StatusView,
    pub errors: ErrorView,
    pub history: HistoryView,
}

/// Current local time section.
#[derive(Debug, Clone, PartialEq, Eq)]
pub struct CurrentTimeView {
    pub value: String,
}

/// Server and measurement metrics section.
#[derive(Debug, Clone, PartialEq, Eq)]
pub struct ServerMetricsView {
    pub server: String,
    pub stratum: String,
    pub offset: String,
    pub round_trip_delay: String,
    pub root_distance: String,
}

/// The coarse status rendered by the user interface.
#[derive(Debug, Clone, Copy, PartialEq, Eq, Structural)]
pub enum StatusKind {
    Synchronized,
    Uncertain,
    Unavailable,
}

/// Status section, with a short human-readable explanation.
#[derive(Debug, Clone, PartialEq, Eq)]
pub struct StatusView {
    pub kind: StatusKind,
    pub label: String,
    pub detail: String,
}

/// Error section; `None` means that no error is currently shown.
#[derive(Debug, Clone, PartialEq, Eq)]
pub struct ErrorView {
    pub message: Option<String>,
}

/// History section, newest sample first.
#[derive(Debug, Clone, PartialEq, Eq)]
pub struct HistoryView {
    pub samples: Vec<String>,
    pub summary: Option<String>,
}

impl ServerMetricsView {
    /// Every metric unavailable.
    pub fn unavailable() -> (v: Self)
        ensures
            v.server@ == unavailable(),
            v.stratum@ == unavailable(),
            v.offset@ == unavailable(),
            v.round_trip_delay@ == unavailable(),
            v.root_distance@ == unavailable(),
    {
        ServerMetricsView {
            server: unavailable_string(),
            stratum: unavailable_string(),
            offset: unavailable_string(),
            round_trip_delay: unavailable_string(),
            root_distance: unavailable_string(),
        }
    }
}

impl HistoryView {
    /// No samples and no summary.
    pub fn unavailable() -> (v: Self)
        ensures
            v.samples@.len() == 0,
            v.summary is None,
    {
        HistoryView { samples: Vec::new(), summary: None }
    }
}

/// The UTC text of the time `t` nanoseconds after the epoch, to the
/// millisecond, or unavailable before the epoch.
pub open spec fn current_time_text(t: int) -> Seq<char> {
    if t < 0 {
        unavailable()
    } else {
        let seconds = t / 1_000_000_000;
        let today = seconds % 86_400;
        let (y, m, d) = civil(seconds / 86_400);
        signed_padded(y, 4) + "-"@ + signed_padded(m, 2) + "-"@ + signed_padded(d, 2) + " "@ + decimal_padded((today / 3_600) as nat, 2) + ":"@ + decimal_padded(
            ((today / 60) % 60) as nat,
            2,
        ) + ":"@ + decimal_padded((today % 60) as nat, 2) + "."@ + decimal_padded(
            ((t % 1_000_000_000) / 1_000_000) as nat,
            3,
        ) + " UTC"@
    }
}

/// Formats a time as stable UTC text: `YYYY-MM-DD HH:MM:SS.mmm UTC`.
pub fn format_current_time(time: SystemTime) -> (s: String)
    ensures
        s@ == current_time_text(time@),
{
    let duration = match time.duration_since(unix_epoch()) {
        Ok(d) => d,
        Err(_) => { return unavailable_string() },
    };
    let seconds = duration.as_secs();
    let millis = duration.subsec_nanos() / 1_000_000;
    let days = seconds / 86_400;
    let today = seconds % 86_400;
    proof {
        crate::time::lemma_time_bounded(time);
        assert(seconds <= 9_223_372_036_854_775_807) by (nonlinear_arith)
            requires
                seconds == duration@ / 1_000_000_000,
                duration@ == time@,
                time@ <= 9_223_372_036_854_775_807int * 1_000_000_000 + 999_999_999,
        ;
    }
    let (year, month, day) = civil_from_days(days as i64);
    let mut s = String::new();
    push_signed_padded(&mut s, year, 4);
    push_str(&mut s, "-");
    push_signed_padded(&mut s, month, 2);
    push_str(&mut s, "-");
    push_signed_padded(&mut s, day, 2);
    push_str(&mut s, " ");
    push_decimal_padded(&mut s, today / 3_600, 2);
    push_str(&mut s, ":");
    push_decimal_padded(&mut s, (today / 60) % 60, 2);
    push_str(&mut s, ":");
    push_decimal_padded(&mut s, today % 60, 2);
    push_str(&mut s, ".");
    push_decimal_padded(&mut s, millis as u64, 3);
    push_str(&mut s, " UTC");
    s
}

pub open spec fn status_kind(health: HealthStatus) -> StatusKind {
    match health {
        HealthStatus::Synchronized => StatusKind::Synchronized,
        HealthStatus::Uncertain => StatusKind::Uncertain,
        HealthStatus::Unavailable => StatusKind::Unavailable,
    }
}

pub open spec fn status_label(health: HealthStatus) -> Seq<char> {
    match health {
        HealthStatus::Synchronized => "Synchronized"@,
        HealthStatus::Uncertain => "Uncertain"@,
        HealthStatus::Unavailable => unavailable(),
    }
}

pub open spec fn status_detail(health: HealthStatus) -> Seq<char> {
    match health {
        HealthStatus::Synchronized => "Server time is within the configured health thresholds"@,
        HealthStatus::Uncertain =>
            "Measurement is available but synchronization quality needs attention"@,
        HealthStatus::Unavailable => "Measurement cannot establish clock health"@,
    }
}

fn unavailable_status(detail: &str) -> (v: StatusView)
    ensures
        v.kind == StatusKind::Unavailable,
        v.label@ == unavailable(),
        v.detail@ == detail@,
{
    StatusView { kind: StatusKind::Unavailable, label: unavailable_string(), detail: string_from_str(detail) }
}

/// The status shown for a successful measurement of the given health.
pub fn status_view(health: HealthStatus) -> (v: StatusView)
    ensures
        v.kind == status_kind(health),
        v.label@ == status_label(health),
        v.detail@ == status_detail(health),
{
    match health {
        HealthStatus::Synchronized => StatusView {
            kind: StatusKind::Synchronized,
            label: string_from_str("Synchronized"),
            detail: string_from_str("Server time is within the configured health thresholds"),
        },
        HealthStatus::Uncertain => StatusView {
            kind: StatusKind::Uncertain,
            label: string_from_str("Uncertain"),
            detail: string_from_str(
                "Measurement is available but synchronization quality needs attention",
            ),
        },
        HealthStatus::Unavailable => unavailable_status("Measurement cannot establish clock health"),
    }
}

/// Assembles the presentation. `health` is that of the latest successful
/// measurement, whose metrics are `metrics`; without one, the metrics are
/// unavailable and the status says that no measurement succeeded.
pub fn present(
    current_time: Option<SystemTime>,
    metrics: Option<ServerMetricsView>,
    health: Option<HealthStatus>,
    error: Option<String>,
    history: Option<HistoryView>,
) -> (p: Presentation)
    ensures
        p.current_time.value@ == match current_time {
            Some(t) => current_time_text(t@),
            None => unavailable(),
        },
        metrics matches Some(m) ==> p.server_metrics == m,
        metrics is None ==> p.server_metrics.server@ == unavailable() && p.server_metrics.stratum@
            == unavailable() && p.server_metrics.offset@ == unavailable()
            && p.server_metrics.round_trip_delay@ == unavailable()
            && p.server_metrics.root_distance@ == unavailable(),
        match health {
            Some(h) => p.status.kind == status_kind(h) && p.status.label@ == status_label(h)
                && p.status.detail@ == status_detail(h),
            None => p.status.kind == StatusKind::Unavailable && p.status.label@ == unavailable()
                && p.status.detail@ == "No successful measurement"@,
        },
        p.errors.message == error,
        history matches Some(h) ==> p.history == h,
        history is None ==> p.history.samples@.len() == 0 && p.history.summary is None,
{
    let value = match current_time {
        Some(t) => format_current_time(t),
        None => unavailable_string(),
    };
    let server_metrics = match metrics {
        Some(m) => m,
        None => ServerMetricsView::unavailable(),
    };
    let status = match health {
        Some(h) => status_view(h),
        None => unavailable_status("No successful measurement"),
    };
    let history = match history {
        Some(h) => h,
        None => HistoryView::unavailable(),
    };
    Presentation {
        current_time: CurrentTimeView { value },
        server_metrics,
        status,
        errors: ErrorView { message: error },
        history,
    }
}

} // verus!
