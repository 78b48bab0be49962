//! Collection of host diagnostics: uptime, logical processors and processor
//! usage.
//!
//! Only Windows exposes the counters read here; elsewhere every value is
//! unavailable. Reading the counters is the caller's part: the collector keeps
//! the previous processor times and turns two readings into the busy share
//! of the interval between them.
use vstd::prelude::*;

use crate::system::{format_span, span_text};
use crate::text::{decimal, push_decimal, push_str};
use crate::time::Duration;

verus! {

/// Cumulative processor times, in 100-nanosecond ticks.
#[derive(Clone, Copy, Debug, PartialEq, Eq, Structural)]
pub struct CpuTimes {
    pub idle: u64,
    pub kernel: u64,
    pub user: u64,
}

/// The tick counts between two readings from which processor usage is
/// computed: idle ticks and total (kernel and user) ticks, the total never
/// zero. `None` when a counter went backwards, the total overflows, or no
/// time passed.
pub open spec fn usage_ticks(old: CpuTimes, current: CpuTimes) -> Option<(u64, u64)> {
    let idle = current.idle - old.idle;
    let total = (current.kernel - old.kernel) + (current.user - old.user);
    if current.idle < old.idle || current.kernel < old.kernel || current.user < old.user
        || total > u64::MAX || total == 0 {
        None
    } else {
        Some((idle as u64, total as u64))
    }
}

/// Keeps the processor times of the previous reading.
#[derive(Debug)]
pub struct DiagnosticsCollector {
    previous_cpu_times: Option<CpuTimes>,
}

impl DiagnosticsCollector {
    pub closed spec fn previous(&self) -> Option<CpuTimes> {
        self.previous_cpu_times
    }

    /// A collector that has seen no reading yet.
    pub fn new() -> (c: Self)
        ensures
            c.previous() is None,
    {
        DiagnosticsCollector { previous_cpu_times: None }
    }

    /// Records a reading and gives the idle and total ticks since the
    /// previous one, if there was one.
    pub fn record_cpu_times(&mut self, current: CpuTimes) -> (r: Option<(u64, u64)>)
        ensures
            final(self).previous() == Some(current),
            r == match old(self).previous() {
                Some(p) => usage_ticks(p, current),
                None => None,
            },
    {
        let previous = self.previous_cpu_times;
        self.previous_cpu_times = Some(current);
        match previous {
            None => None,
            Some(old) => {
                if current.idle < old.idle || current.kernel < old.kernel || current.user
                    < old.user {
                    return None;
                }
                let idle = current.idle - old.idle;
                let kernel = current.kernel - old.kernel;
                let user = current.user - old.user;
                match kernel.checked_add(user) {
                    None => None,
                    Some(total) => if total == 0 {
                        None
                    } else {
                        Some((idle, total))
                    },
                }
            },
        }
    }
}

pub open spec fn unavailable() -> Seq<char> {
    "unavailable"@
}

/// The one-line summary of a snapshot.
pub open spec fn summary_text(
    uptime: Option<Duration>,
    logical_cpu_count: Option<usize>,
    cpu_usage: Option<String>,
) -> Seq<char> {
    "uptime="@ + match uptime {
        Some(d) => span_text(d@ / 1_000_000_000),
        None => unavailable(),
    } + ", logical CPUs="@ + match logical_cpu_count {
        Some(n) => decimal(n as nat),
        None => unavailable(),
    } + ", CPU usage="@ + match cpu_usage {
        Some(t) => t@,
        None => unavailable(),
    }
}

/// Writes the one-line summary of a snapshot; the processor usage arrives
/// written with one decimal and the percent sign.
pub fn summary(uptime: Option<Duration>, logical_cpu_count: Option<usize>, cpu_usage: Option<String>) -> (s: String)
    ensures
        s@ == summary_text(uptime, logical_cpu_count, cpu_usage),
{
    let ghost usage = cpu_usage;
    let mut s = String::new();
    push_str(&mut s, "uptime=");
    match uptime {
        Some(d) => {
            let t = format_span(d.as_secs());
            push_str(&mut s, t.as_str());
        },
        None => push_str(&mut s, "unavailable"),
    }
    push_str(&mut s, ", logical CPUs=");
    match logical_cpu_count {
        Some(n) => push_decimal(&mut s, n as u64),
        None => push_str(&mut s, "unavailable"),
    }
    push_str(&mut s, ", CPU usage=");
    match cpu_usage {
        Some(t) => push_str(&mut s, t.as_str()),
        None => push_str(&mut s, "unavailable"),
    }
    assert(s@ =~= summary_text(uptime, logical_cpu_count, usage));
    s
}

} // verus!
