//! Presentation of the application's diagnostics as labelled rows.
//!
//! The rows always come in the same order with the same labels, so a user
//! interface can render them without knowing how values were collected.
//! Measured values arrive already written in milliseconds.
use vstd::prelude::*;

use crate::health::HealthStatus;
use crate::system::{format_span, span_text};
use crate::text::{decimal, push_decimal, string_from_str};
use crate::time::Duration;

verus! {

/// One labelled value.
#[derive(Clone, Debug, PartialEq, Eq)]
pub struct DiagnosticsRow {
    pub label: &'static str,
    pub value: String,
}

/// The latest measurement, each value written in milliseconds with three
/// decimals and the unit.
#[derive(Clone, Debug)]
pub struct MeasurementMillis {
    pub offset: String,
    pub round_trip_delay: String,
    pub root_distance: String,
}

/// The diagnostics rows.
#[derive(Clone, Debug, PartialEq, Eq)]
pub struct DiagnosticsView {
    rows: Vec<DiagnosticsRow>,
}

impl View for DiagnosticsView {
    type V = Seq<DiagnosticsRow>;

    closed spec fn view(&self) -> Seq<DiagnosticsRow> {
        self.rows@
    }
}

pub open spec fn unavailable() -> Seq<char> {
    "unavailable"@
}

/// The labels of the rows, in order.
pub open spec fn row_labels() -> Seq<Seq<char>> {
    seq![
        "Uptime"@,
        "CPU count"@,
        "CPU utilization"@,
        "Current offset"@,
        "Delay"@,
        "Root distance"@,
        "Stratum"@,
        "Status"@,
    ]
}

pub open spec fn status_text(status: HealthStatus) -> Seq<char> {
    match status {
        HealthStatus::Synchronized => "Synchronized"@,
        HealthStatus::Uncertain => "Uncertain"@,
        HealthStatus::Unavailable => "Unavailable"@,
    }
}

/// The values of the rows, in order.
pub open spec fn row_values(
    uptime: Option<Duration>,
    logical_cpu_count: Option<usize>,
    cpu_utilization: Option<String>,
    measurement: Option<MeasurementMillis>,
    stratum: Option<u8>,
    status: HealthStatus,
) -> Seq<Seq<char>> {
    seq![
        match uptime {
            Some(d) => span_text(d@ / 1_000_000_000),
            None => unavailable(),
        },
        match logical_cpu_count {
            Some(n) => decimal(n as nat),
            None => unavailable(),
        },
        match cpu_utilization {
            Some(t) => t@,
            None => unavailable(),
        },
        match measurement {
            Some(m) => m.offset@,
            None => unavailable(),
        },
        match measurement {
            Some(m) => m.round_trip_delay@,
            None => unavailable(),
        },
        match measurement {
            Some(m) => m.root_distance@,
            None => unavailable(),
        },
        match stratum {
            Some(s) => decimal(s as nat),
            None => unavailable(),
        },
        status_text(status),
    ]
}

fn unavailable_string() -> (s: String)
    ensures
        s@ == unavailable(),
{
    string_from_str("unavailable")
}

fn number_or_unavailable(n: Option<u64>) -> (s: String)
    ensures
        s@ == match n {
            Some(v) => decimal(v as nat),
            None => unavailable(),
        },
{
    match n {
        Some(v) => {
            let mut s = String::new();
            push_decimal(&mut s, v);
            assert(s@ =~= decimal(v as nat));
            s
        },
        None => unavailable_string(),
    }
}

impl DiagnosticsView {
    /// Builds the rows. The measurement values and the stratum are
    /// unavailable when there is no current result; the status is always
    /// shown, as it describes the current health.
    pub fn new(
        uptime: Option<Duration>,
        logical_cpu_count: Option<usize>,
        cpu_utilization: Option<String>,
        measurement: Option<MeasurementMillis>,
        stratum: Option<u8>,
        status: HealthStatus,
    ) -> (v: Self)
        ensures
            v@.map_values(|r: DiagnosticsRow| r.label@) == row_labels(),
            v@.map_values(|r: DiagnosticsRow| r.value@) == row_values(
                uptime,
                logical_cpu_count,
                cpu_utilization,
                measurement,
                stratum,
                status,
            ),
    {
        let ghost cpu = cpu_utilization;
        let ghost m = measurement;
        let uptime_text = match uptime {
            Some(d) => format_span(d.as_secs()),
            None => unavailable_string(),
        };
        let count_text = number_or_unavailable(
            match logical_cpu_count {
                Some(n) => Some(n as u64),
                None => None,
            },
        );
        let cpu_text = match cpu_utilization {
            Some(t) => t,
            None => unavailable_string(),
        };
        let (offset, delay, distance) = match measurement {
            Some(m) => (m.offset, m.round_trip_delay, m.root_distance),
            None => (unavailable_string(), unavailable_string(), unavailable_string()),
        };
        let stratum_text = number_or_unavailable(
            match stratum {
                Some(s) => Some(s as u64),
                None => None,
            },
        );
        let status_string = match status {
            HealthStatus::Synchronized => string_from_str("Synchronized"),
            HealthStatus::Uncertain => string_from_str("Uncertain"),
            HealthStatus::Unavailable => string_from_str("Unavailable"),
        };
        let rows = vec![
            DiagnosticsRow { label: "Uptime", value: uptime_text },
            DiagnosticsRow { label: "CPU count", value: count_text },
            DiagnosticsRow { label: "CPU utilization", value: cpu_text },
            DiagnosticsRow { label: "Current offset", value: offset },
            DiagnosticsRow { label: "Delay", value: delay },
            DiagnosticsRow { label: "Root distance", value: distance },
            DiagnosticsRow { label: "Stratum", value: stratum_text },
            DiagnosticsRow { label: "Status", value: status_string },
        ];
        let v = DiagnosticsView { rows };
        assert(v.rows@.map_values(|r: DiagnosticsRow| r.label@) =~= row_labels());
        assert(v.rows@.map_values(|r: DiagnosticsRow| r.value@) =~= row_values(
            uptime,
            logical_cpu_count,
            cpu,
            m,
            stratum,
            status,
        ));
        v
    }

    /// The rows in their stable display order.
    pub fn rows(&self) -> (r: &[DiagnosticsRow])
        ensures
            r@ == self@,
    {
        self.rows.as_slice()
    }
}

} // verus!
