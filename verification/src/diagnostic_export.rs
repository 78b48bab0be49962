//! Stable exports of the application's current diagnostic state.
//!
//! Field names and their order are part of the format contract. Values that
//! are measured in fractions of a second arrive here already written with six
//! decimals; a value that was missing or not finite arrives as `None` and is
//! exported as unavailable. Writing the export to a file is the caller's part.
use vstd::prelude::*;

use crate::health::HealthStatus;
use crate::text::{
    chars_of, decimal, is_control, is_control_spec, push_char, push_decimal, push_str,
    string_from_str,
};
use crate::time::Duration;

verus! {

/// A file system path, carried opaquely.
#[verifier::external_type_specification]
#[verifier::external_body]
pub struct ExPathBuf(std::path::PathBuf);

/// The server identity shown in an export.
#[derive(Debug, Clone, PartialEq, Eq)]
pub struct ServerInfo {
    pub name: String,
    pub address: String,
}

impl ServerInfo {
    pub fn new(name: &str, address: &str) -> (r: Self)
        ensures
            r.name@ == name@,
            r.address@ == address@,
    {
        ServerInfo { name: string_from_str(name), address: string_from_str(address) }
    }
}

/// Errors returned while writing an export.
#[derive(Debug)]
pub enum ExportError {
    Io { operation: &'static str, path: std::path::PathBuf, source: std::io::Error },
}

/// How `Path::display` writes a path.
///
/// Paths that are not valid Unicode are written lossily; the text is not stated.
#[verifier::external_body]
fn path_text(path: &std::path::PathBuf) -> (s: String) {
    path.display().to_string()
}

impl ExportError {
    /// The message of the error: the operation comes first, then the path in
    /// quotes and the operating system's description.
    pub fn to_string(&self) -> (s: String)
        ensures
            match self {
                ExportError::Io { operation, .. } => {
                    let head = "failed to "@ + operation@ + " '"@;
                    s@.len() >= head.len() && s@.subrange(0, head.len() as int) == head
                },
            },
    {
        let mut s = String::new();
        match self {
            ExportError::Io { operation, path, source } => {
                push_str(&mut s, "failed to ");
                push_str(&mut s, operation);
                push_str(&mut s, " '");
                let ghost head = s@;
                let shown = path_text(path);
                push_str(&mut s, shown.as_str());
                push_str(&mut s, "': ");
                let text = crate::storage::io_error_text(source);
                push_str(&mut s, text.as_str());
                assert(s@.subrange(0, head.len() as int) =~= head);
            },
        }
        s
    }
}

/// The state of the host system.
#[derive(Debug, Clone)]
pub struct SystemSection {
    pub uptime: Option<Duration>,
    pub logical_cpu_count: Option<usize>,
    /// The processor usage in percent, written with six decimals.
    pub cpu_usage_percent: Option<String>,
}

/// The latest measurement, each value in seconds written with six decimals.
#[derive(Debug, Clone)]
pub struct MeasurementSection {
    pub offset: String,
    pub round_trip_delay: String,
    pub root_distance: String,
}

/// Summary statistics of one series, each written with six decimals.
#[derive(Debug, Clone)]
pub struct StatisticsSection {
    pub min: String,
    pub max: String,
    pub mean: String,
    pub standard_deviation: String,
}

/// The network statistics; a series without samples has no statistics.
#[derive(Debug, Clone)]
pub struct NetworkSection {
    pub offset: Option<StatisticsSection>,
    pub round_trip_time: Option<StatisticsSection>,
    pub jitter: Option<StatisticsSection>,
    pub frequency_error: Option<StatisticsSection>,
    pub packet_loss_percent: Option<String>,
}

/// The current state included in a diagnostic export.
#[derive(Debug, Clone)]
pub struct DiagnosticSnapshot {
    pub diagnostics: SystemSection,
    pub health: Option<HealthStatus>,
    pub measurement: Option<MeasurementSection>,
    pub server: Option<ServerInfo>,
    pub network: Option<NetworkSection>,
}

impl Default for DiagnosticSnapshot {
    fn default() -> (r: Self)
        ensures
            r.diagnostics.uptime is None,
            r.diagnostics.logical_cpu_count is None,
            r.diagnostics.cpu_usage_percent is None,
            r.health is None,
            r.measurement is None,
            r.server is None,
            r.network is None,
    {
        DiagnosticSnapshot {
            diagnostics: SystemSection {
                uptime: None,
                logical_cpu_count: None,
                cpu_usage_percent: None,
            },
            health: None,
            measurement: None,
            server: None,
            network: None,
        }
    }
}

// ---------------------------------------------------------------------------
// The plain-text form
// ---------------------------------------------------------------------------
pub open spec fn unavailable() -> Seq<char> {
    "unavailable"@
}

/// One `key=value` line.
pub open spec fn text_line(key: Seq<char>, value: Seq<char>) -> Seq<char> {
    key + "="@ + value + "\n"@
}

pub open spec fn text_or_unavailable(value: Option<String>) -> Seq<char> {
    match value {
        Some(t) => t@,
        None => unavailable(),
    }
}

/// Whole seconds of the uptime, or unavailable.
pub open spec fn uptime_text(uptime: Option<Duration>) -> Seq<char> {
    match uptime {
        Some(d) => decimal(d@ / 1_000_000_000),
        None => unavailable(),
    }
}

pub open spec fn count_text(count: Option<usize>) -> Seq<char> {
    match count {
        Some(n) => decimal(n as nat),
        None => unavailable(),
    }
}

/// The name under which a health state is exported.
pub open spec fn health_name(health: Option<HealthStatus>) -> Seq<char> {
    match health {
        Some(HealthStatus::Synchronized) => "synchronized"@,
        Some(HealthStatus::Uncertain) => "uncertain"@,
        Some(HealthStatus::Unavailable) => "unavailable"@,
        None => "unavailable"@,
    }
}

pub open spec fn system_lines(d: SystemSection) -> Seq<char> {
    text_line("uptime"@, uptime_text(d.uptime)) + text_line(
        "logical_cpu_count"@,
        count_text(d.logical_cpu_count),
    ) + text_line("cpu_usage_percent"@, text_or_unavailable(d.cpu_usage_percent))
}

pub open spec fn measurement_lines(m: Option<MeasurementSection>) -> Seq<char> {
    match m {
        Some(m) => text_line("offset_seconds"@, m.offset@) + text_line(
            "round_trip_delay_seconds"@,
            m.round_trip_delay@,
        ) + text_line("root_distance_seconds"@, m.root_distance@),
        None => text_line("offset_seconds"@, unavailable()) + text_line(
            "round_trip_delay_seconds"@,
            unavailable(),
        ) + text_line("root_distance_seconds"@, unavailable()),
    }
}

pub open spec fn server_lines(s: Option<ServerInfo>) -> Seq<char> {
    match s {
        Some(s) => text_line("name"@, s.name@) + text_line("address"@, s.address@),
        None => text_line("name"@, unavailable()) + text_line("address"@, unavailable()),
    }
}

/// The four lines of one series' statistics, each key prefixed by `name`.
pub open spec fn statistics_lines(name: Seq<char>, s: Option<StatisticsSection>) -> Seq<char> {
    match s {
        Some(s) => text_line(name + "_min"@, s.min@) + text_line(name + "_max"@, s.max@)
            + text_line(name + "_mean"@, s.mean@) + text_line(
            name + "_standard_deviation"@,
            s.standard_deviation@,
        ),
        None => text_line(name + "_min"@, unavailable()) + text_line(
            name + "_max"@,
            unavailable(),
        ) + text_line(name + "_mean"@, unavailable()) + text_line(
            name + "_standard_deviation"@,
            unavailable(),
        ),
    }
}

pub open spec fn network_lines(n: Option<NetworkSection>) -> Seq<char> {
    match n {
        Some(n) => statistics_lines("offset"@, n.offset) + statistics_lines(
            "round_trip_time"@,
            n.round_trip_time,
        ) + statistics_lines("jitter"@, n.jitter) + statistics_lines(
            "frequency_error"@,
            n.frequency_error,
        ) + text_line("packet_loss_percent"@, text_or_unavailable(n.packet_loss_percent)),
        None => text_line("offset"@, unavailable()) + text_line(
            "round_trip_time"@,
            unavailable(),
        ) + text_line("jitter"@, unavailable()) + text_line("frequency_error"@, unavailable())
            + text_line("packet_loss_percent"@, unavailable()),
    }
}

/// The whole plain-text export.
pub open spec fn plain_text(s: DiagnosticSnapshot) -> Seq<char> {
    "master-time diagnostics\nversion=1\n\n[diagnostics]\n"@ + system_lines(s.diagnostics)
        + "\n[health]\n"@ + text_line("status"@, health_name(s.health)) + "\n[measurement]\n"@
        + measurement_lines(s.measurement) + "\n[server]\n"@ + server_lines(s.server)
        + "\n[network]\n"@ + network_lines(s.network)
}

fn push_line(out: &mut String, key: &str, value: &str)
    ensures
        final(out)@ == old(out)@ + text_line(key@, value@),
{
    push_str(out, key);
    push_str(out, "=");
    push_str(out, value);
    push_str(out, "\n");
    assert(final(out)@ =~= old(out)@ + text_line(key@, value@));
}

fn push_text_or_unavailable(out: &mut String, key: &str, value: &Option<String>)
    ensures
        final(out)@ == old(out)@ + text_line(key@, text_or_unavailable(*value)),
{
    match value {
        Some(t) => push_line(out, key, t.as_str()),
        None => push_line(out, key, "unavailable"),
    }
}

fn uptime_string(uptime: Option<Duration>) -> (s: String)
    ensures
        s@ == uptime_text(uptime),
{
    let mut s = String::new();
    match uptime {
        Some(d) => push_decimal(&mut s, d.as_secs()),
        None => push_str(&mut s, "unavailable"),
    }
    assert(s@ =~= uptime_text(uptime));
    s
}

fn count_string(count: Option<usize>) -> (s: String)
    ensures
        s@ == count_text(count),
{
    let mut s = String::new();
    match count {
        Some(n) => push_decimal(&mut s, n as u64),
        None => push_str(&mut s, "unavailable"),
    }
    assert(s@ =~= count_text(count));
    s
}

fn health_str(health: Option<HealthStatus>) -> (s: &'static str)
    ensures
        s@ == health_name(health),
{
    match health {
        Some(HealthStatus::Synchronized) => "synchronized",
        Some(HealthStatus::Uncertain) => "uncertain",
        Some(HealthStatus::Unavailable) => "unavailable",
        None => "unavailable",
    }
}

fn push_statistics_lines(out: &mut String, name: &str, stats: &Option<StatisticsSection>)
    ensures
        final(out)@ == old(out)@ + statistics_lines(name@, *stats),
{
    let mut min_key = String::new();
    push_str(&mut min_key, name);
    push_str(&mut min_key, "_min");
    let mut max_key = String::new();
    push_str(&mut max_key, name);
    push_str(&mut max_key, "_max");
    let mut mean_key = String::new();
    push_str(&mut mean_key, name);
    push_str(&mut mean_key, "_mean");
    let mut deviation_key = String::new();
    push_str(&mut deviation_key, name);
    push_str(&mut deviation_key, "_standard_deviation");
    match stats {
        Some(s) => {
            push_line(out, min_key.as_str(), s.min.as_str());
            push_line(out, max_key.as_str(), s.max.as_str());
            push_line(out, mean_key.as_str(), s.mean.as_str());
            push_line(out, deviation_key.as_str(), s.standard_deviation.as_str());
        },
        None => {
            push_line(out, min_key.as_str(), "unavailable");
            push_line(out, max_key.as_str(), "unavailable");
            push_line(out, mean_key.as_str(), "unavailable");
            push_line(out, deviation_key.as_str(), "unavailable");
        },
    }
    assert(final(out)@ =~= old(out)@ + statistics_lines(name@, *stats));
}

fn push_network_lines(out: &mut String, network: &Option<NetworkSection>)
    ensures
        final(out)@ == old(out)@ + network_lines(*network),
{
    match network {
        Some(n) => {
            push_statistics_lines(out, "offset", &n.offset);
            push_statistics_lines(out, "round_trip_time", &n.round_trip_time);
            push_statistics_lines(out, "jitter", &n.jitter);
            push_statistics_lines(out, "frequency_error", &n.frequency_error);
            push_text_or_unavailable(out, "packet_loss_percent", &n.packet_loss_percent);
        },
        None => {
            push_line(out, "offset", "unavailable");
            push_line(out, "round_trip_time", "unavailable");
            push_line(out, "jitter", "unavailable");
            push_line(out, "frequency_error", "unavailable");
            push_line(out, "packet_loss_percent", "unavailable");
        },
    }
    assert(final(out)@ =~= old(out)@ + network_lines(*network));
}

impl DiagnosticSnapshot {
    /// Renders the deterministic, human-readable plain-text export.
    pub fn to_plain_text(&self) -> (s: String)
        ensures
            s@ == plain_text(*self),
    {
        let mut out = String::new();
        push_str(&mut out, "master-time diagnostics\nversion=1\n\n[diagnostics]\n");
        let ghost start = out@;
        let uptime = uptime_string(self.diagnostics.uptime);
        push_line(&mut out, "uptime", uptime.as_str());
        let count = count_string(self.diagnostics.logical_cpu_count);
        push_line(&mut out, "logical_cpu_count", count.as_str());
        push_text_or_unavailable(&mut out, "cpu_usage_percent", &self.diagnostics.cpu_usage_percent);
        assert(out@ =~= start + system_lines(self.diagnostics));
        push_str(&mut out, "\n[health]\n");
        push_line(&mut out, "status", health_str(self.health));
        push_str(&mut out, "\n[measurement]\n");
        let ghost before = out@;
        match &self.measurement {
            Some(m) => {
                push_line(&mut out, "offset_seconds", m.offset.as_str());
                push_line(&mut out, "round_trip_delay_seconds", m.round_trip_delay.as_str());
                push_line(&mut out, "root_distance_seconds", m.root_distance.as_str());
            },
            None => {
                push_line(&mut out, "offset_seconds", "unavailable");
                push_line(&mut out, "round_trip_delay_seconds", "unavailable");
                push_line(&mut out, "root_distance_seconds", "unavailable");
            },
        }
        assert(out@ =~= before + measurement_lines(self.measurement));
        push_str(&mut out, "\n[server]\n");
        let ghost before = out@;
        match &self.server {
            Some(s) => {
                push_line(&mut out, "name", s.name.as_str());
                push_line(&mut out, "address", s.address.as_str());
            },
            None => {
                push_line(&mut out, "name", "unavailable");
                push_line(&mut out, "address", "unavailable");
            },
        }
        assert(out@ =~= before + server_lines(self.server));
        push_str(&mut out, "\n[network]\n");
        push_network_lines(&mut out, &self.network);
        assert(out@ =~= plain_text(*self));
        out
    }
}


// ---------------------------------------------------------------------------
// The JSON form
// ---------------------------------------------------------------------------
/// The lower-case hexadecimal digit of `v`.
pub open spec fn lower_hex(v: u32) -> char {
    if v < 10 {
        (0x30 + v) as char
    } else {
        (0x61 + v - 10) as char
    }
}

/// How one character is written inside a JSON string.
pub open spec fn escape_char(c: char) -> Seq<char> {
    if c == '"' {
        seq!['\\', '"']
    } else if c == '\\' {
        seq!['\\', '\\']
    } else if c == '\n' {
        seq!['\\', 'n']
    } else if c == '\r' {
        seq!['\\', 'r']
    } else if c == '\t' {
        seq!['\\', 't']
    } else if is_control_spec(c) {
        seq!['\\', 'u', '0', '0', lower_hex((c as u32) / 16), lower_hex((c as u32) % 16)]
    } else {
        seq![c]
    }
}

/// The characters of `s`, each escaped.
pub open spec fn json_escape(s: Seq<char>) -> Seq<char>
    decreases s.len(),
{
    if s.len() == 0 {
        Seq::empty()
    } else {
        json_escape(s.drop_last()) + escape_char(s.last())
    }
}

/// `s` as a JSON string literal.
pub open spec fn json_string(s: Seq<char>) -> Seq<char> {
    seq!['"'] + json_escape(s) + seq!['"']
}

pub open spec fn separator(first: bool) -> Seq<char> {
    if first {
        Seq::empty()
    } else {
        seq![',']
    }
}

/// A member whose value is a string.
pub open spec fn field_string(key: Seq<char>, value: Seq<char>, first: bool) -> Seq<char> {
    separator(first) + json_string(key) + seq![':'] + json_string(value)
}

/// A member whose value is a number, already written.
pub open spec fn field_number(key: Seq<char>, value: Seq<char>, first: bool) -> Seq<char> {
    separator(first) + json_string(key) + seq![':'] + value
}

/// A member whose value is `null`.
pub open spec fn field_null(key: Seq<char>, first: bool) -> Seq<char> {
    separator(first) + json_string(key) + ":null"@
}

/// A member holding one series' statistics, or `null`.
pub open spec fn json_stats(name: Seq<char>, s: Option<StatisticsSection>, first: bool) -> Seq<
    char,
> {
    separator(first) + json_string(name) + seq![':'] + match s {
        Some(s) => seq!['{'] + field_number("min"@, s.min@, true) + field_number(
            "max"@,
            s.max@,
            false,
        ) + field_number("mean"@, s.mean@, false) + field_number(
            "standard_deviation"@,
            s.standard_deviation@,
            false,
        ) + seq!['}'],
        None => "null"@,
    }
}

pub open spec fn json_measurement(m: Option<MeasurementSection>) -> Seq<char> {
    match m {
        Some(m) => field_number("offset_seconds"@, m.offset@, true) + field_number(
            "round_trip_delay_seconds"@,
            m.round_trip_delay@,
            false,
        ) + field_number("root_distance_seconds"@, m.root_distance@, false),
        None => field_null("offset_seconds"@, true) + field_null(
            "round_trip_delay_seconds"@,
            false,
        ) + field_null("root_distance_seconds"@, false),
    }
}

pub open spec fn json_server(s: Option<ServerInfo>) -> Seq<char> {
    match s {
        Some(s) => "{\"name\":"@ + json_string(s.name@) + ",\"address\":"@ + json_string(
            s.address@,
        ) + seq!['}'],
        None => "null"@,
    }
}

/// The statistics of a network section, when there is one.
pub open spec fn stats_of(
    n: Option<NetworkSection>,
    pick: spec_fn(NetworkSection) -> Option<StatisticsSection>,
) -> Option<StatisticsSection> {
    match n {
        Some(n) => pick(n),
        None => None,
    }
}

pub open spec fn json_network(n: Option<NetworkSection>) -> Seq<char> {
    json_stats("offset"@, stats_of(n, |x: NetworkSection| x.offset), true) + json_stats(
        "round_trip_time"@,
        stats_of(n, |x: NetworkSection| x.round_trip_time),
        false,
    ) + json_stats("jitter"@, stats_of(n, |x: NetworkSection| x.jitter), false) + json_stats(
        "frequency_error"@,
        stats_of(n, |x: NetworkSection| x.frequency_error),
        false,
    ) + match n {
        Some(NetworkSection { packet_loss_percent: Some(p), .. }) => field_number(
            "packet_loss_percent"@,
            p@,
            false,
        ),
        _ => field_null("packet_loss_percent"@, false),
    }
}

/// The whole JSON export.
pub open spec fn json(s: DiagnosticSnapshot) -> Seq<char> {
    "{\"version\":1,\"diagnostics\":{"@ + field_string(
        "uptime"@,
        uptime_text(s.diagnostics.uptime),
        true,
    ) + field_string("logical_cpu_count"@, count_text(s.diagnostics.logical_cpu_count), false)
        + field_string(
        "cpu_usage_percent"@,
        text_or_unavailable(s.diagnostics.cpu_usage_percent),
        false,
    ) + "},\"health\":{"@ + field_string("status"@, health_name(s.health), true)
        + "},\"measurement\":{"@ + json_measurement(s.measurement) + "},\"server\":"@
        + json_server(s.server) + ",\"network\":{"@ + json_network(s.network) + "}}"@
}

/// An escaped string holds no control character, so every JSON string the
/// export writes is a valid JSON string body.
pub proof fn lemma_escaped_has_no_control(s: Seq<char>)
    ensures
        forall|i: int| 0 <= i < json_escape(s).len() ==> !is_control_spec(#[trigger] json_escape(s)[i]),
    decreases s.len(),
{
    if s.len() > 0 {
        lemma_escaped_has_no_control(s.drop_last());
        let c = s.last();
        let e = escape_char(c);
        if is_control_spec(c) && c != '\n' && c != '\r' && c != '\t' {
            let v = c as u32;
            assert(v / 16 < 10);
            assert(v % 16 < 16);
        }
        assert forall|i: int| 0 <= i < e.len() implies !is_control_spec(#[trigger] e[i]) by {}
        let prefix = json_escape(s.drop_last());
        assert forall|i: int| 0 <= i < json_escape(s).len() implies !is_control_spec(
            #[trigger] json_escape(s)[i],
        ) by {
            if i < prefix.len() {
                assert(json_escape(s)[i] == prefix[i]);
            } else {
                assert(json_escape(s)[i] == e[i - prefix.len()]);
            }
        }
    }
}

/// Text without quotes, backslashes or control characters is written as it
/// is.
pub proof fn lemma_plain_text_is_unescaped(s: Seq<char>)
    requires
        forall|i: int|
            0 <= i < s.len() ==> #[trigger] s[i] != '"' && s[i] != '\\' && !is_control_spec(s[i]),
    ensures
        json_escape(s) == s,
    decreases s.len(),
{
    if s.len() > 0 {
        lemma_plain_text_is_unescaped(s.drop_last());
        assert(s.last() == s[s.len() - 1]);
        assert(json_escape(s) =~= s);
    }
}

fn lower_hex_exec(v: u32) -> (c: char)
    requires
        v < 16,
    ensures
        c == lower_hex(v),
{
    let b = v as u8;
    if v < 10 {
        (0x30u8 + b) as char
    } else {
        (0x61u8 + b - 10) as char
    }
}

fn push_escaped(out: &mut String, c: char)
    ensures
        final(out)@ == old(out)@ + escape_char(c),
{
    if c == '"' {
        push_char(out, '\\');
        push_char(out, '"');
    } else if c == '\\' {
        push_char(out, '\\');
        push_char(out, '\\');
    } else if c == '\n' {
        push_char(out, '\\');
        push_char(out, 'n');
    } else if c == '\r' {
        push_char(out, '\\');
        push_char(out, 'r');
    } else if c == '\t' {
        push_char(out, '\\');
        push_char(out, 't');
    } else if is_control(c) {
        let v = c as u32;
        push_char(out, '\\');
        push_char(out, 'u');
        push_char(out, '0');
        push_char(out, '0');
        push_char(out, lower_hex_exec(v / 16));
        push_char(out, lower_hex_exec(v % 16));
    } else {
        push_char(out, c);
    }
    assert(final(out)@ =~= old(out)@ + escape_char(c));
}

/// Appends `value` as a JSON string literal.
fn push_json_string(out: &mut String, value: &str)
    ensures
        final(out)@ == old(out)@ + json_string(value@),
{
    let chars = chars_of(value);
    push_char(out, '"');
    let ghost start = out@;
    let mut i: usize = 0;
    while i < chars.len()
        invariant
            i <= chars@.len(),
            chars@ == value@,
            start == old(out)@ + seq!['"'],
            out@ == start + json_escape(chars@.take(i as int)),
        decreases chars.len() - i,
    {
        let c = chars[i];
        push_escaped(out, c);
        proof {
            let t = chars@.take(i + 1);
            assert(t.drop_last() =~= chars@.take(i as int));
            assert(t.last() == c);
        }
        i = i + 1;
    }
    assert(chars@.take(chars@.len() as int) =~= chars@);
    push_char(out, '"');
    assert(final(out)@ =~= old(out)@ + json_string(value@));
}

fn push_separator(out: &mut String, first: bool)
    ensures
        final(out)@ == old(out)@ + separator(first),
{
    if !first {
        push_char(out, ',');
    }
    assert(final(out)@ =~= old(out)@ + separator(first));
}

fn push_field_string(out: &mut String, key: &str, value: &str, first: bool)
    ensures
        final(out)@ == old(out)@ + field_string(key@, value@, first),
{
    push_separator(out, first);
    push_json_string(out, key);
    push_char(out, ':');
    push_json_string(out, value);
    assert(final(out)@ =~= old(out)@ + field_string(key@, value@, first));
}

fn push_field_number(out: &mut String, key: &str, value: &str, first: bool)
    ensures
        final(out)@ == old(out)@ + field_number(key@, value@, first),
{
    push_separator(out, first);
    push_json_string(out, key);
    push_char(out, ':');
    push_str(out, value);
    assert(final(out)@ =~= old(out)@ + field_number(key@, value@, first));
}

fn push_field_null(out: &mut String, key: &str, first: bool)
    ensures
        final(out)@ == old(out)@ + field_null(key@, first),
{
    push_separator(out, first);
    push_json_string(out, key);
    push_str(out, ":null");
    assert(final(out)@ =~= old(out)@ + field_null(key@, first));
}

fn push_json_stats(out: &mut String, name: &str, stats: Option<&StatisticsSection>, first: bool)
    ensures
        final(out)@ == old(out)@ + json_stats(
            name@,
            match stats {
                Some(s) => Some(*s),
                None => None,
            },
            first,
        ),
{
    push_separator(out, first);
    push_json_string(out, name);
    push_char(out, ':');
    let ghost head = out@;
    match stats {
        Some(s) => {
            push_char(out, '{');
            push_field_number(out, "min", s.min.as_str(), true);
            push_field_number(out, "max", s.max.as_str(), false);
            push_field_number(out, "mean", s.mean.as_str(), false);
            push_field_number(out, "standard_deviation", s.standard_deviation.as_str(), false);
            push_char(out, '}');
        },
        None => push_str(out, "null"),
    }
    assert(final(out)@ =~= old(out)@ + json_stats(
        name@,
        match stats {
            Some(s) => Some(*s),
            None => None,
        },
        first,
    ));
}

fn section_stats<'a>(n: &'a Option<NetworkSection>, which: u8) -> (r: Option<&'a StatisticsSection>)
    requires
        which < 4,
    ensures
        match r {
            Some(s) => Some(*s),
            None => None,
        } == stats_of(
            *n,
            if which == 0 {
                |x: NetworkSection| x.offset
            } else if which == 1 {
                |x: NetworkSection| x.round_trip_time
            } else if which == 2 {
                |x: NetworkSection| x.jitter
            } else {
                |x: NetworkSection| x.frequency_error
            },
        ),
{
    match n {
        Some(n) => {
            let s = if which == 0 {
                &n.offset
            } else if which == 1 {
                &n.round_trip_time
            } else if which == 2 {
                &n.jitter
            } else {
                &n.frequency_error
            };
            match s {
                Some(s) => Some(s),
                None => None,
            }
        },
        None => None,
    }
}

fn push_json_network(out: &mut String, network: &Option<NetworkSection>)
    ensures
        final(out)@ == old(out)@ + json_network(*network),
{
    push_json_stats(out, "offset", section_stats(network, 0), true);
    push_json_stats(out, "round_trip_time", section_stats(network, 1), false);
    push_json_stats(out, "jitter", section_stats(network, 2), false);
    push_json_stats(out, "frequency_error", section_stats(network, 3), false);
    match network {
        Some(NetworkSection { packet_loss_percent: Some(p), .. }) => push_field_number(
            out,
            "packet_loss_percent",
            p.as_str(),
            false,
        ),
        _ => push_field_null(out, "packet_loss_percent", false),
    }
    assert(final(out)@ =~= old(out)@ + json_network(*network));
}

impl DiagnosticSnapshot {
    /// Renders the deterministic export in valid JSON syntax.
    pub fn to_json(&self) -> (s: String)
        ensures
            s@ == json(*self),
    {
        let mut out = String::new();
        push_str(&mut out, "{\"version\":1,\"diagnostics\":{");
        let uptime = uptime_string(self.diagnostics.uptime);
        push_field_string(&mut out, "uptime", uptime.as_str(), true);
        let count = count_string(self.diagnostics.logical_cpu_count);
        push_field_string(&mut out, "logical_cpu_count", count.as_str(), false);
        match &self.diagnostics.cpu_usage_percent {
            Some(t) => push_field_string(&mut out, "cpu_usage_percent", t.as_str(), false),
            None => push_field_string(&mut out, "cpu_usage_percent", "unavailable", false),
        }
        push_str(&mut out, "},\"health\":{");
        push_field_string(&mut out, "status", health_str(self.health), true);
        push_str(&mut out, "},\"measurement\":{");
        let ghost before = out@;
        match &self.measurement {
            Some(m) => {
                push_field_number(&mut out, "offset_seconds", m.offset.as_str(), true);
                push_field_number(
                    &mut out,
                    "round_trip_delay_seconds",
                    m.round_trip_delay.as_str(),
                    false,
                );
                push_field_number(&mut out, "root_distance_seconds", m.root_distance.as_str(), false);
            },
            None => {
                push_field_null(&mut out, "offset_seconds", true);
                push_field_null(&mut out, "round_trip_delay_seconds", false);
                push_field_null(&mut out, "root_distance_seconds", false);
            },
        }
        assert(out@ =~= before + json_measurement(self.measurement));
        push_str(&mut out, "},\"server\":");
        let ghost before = out@;
        match &self.server {
            Some(s) => {
                push_str(&mut out, "{\"name\":");
                push_json_string(&mut out, s.name.as_str());
                push_str(&mut out, ",\"address\":");
                push_json_string(&mut out, s.address.as_str());
                push_char(&mut out, '}');
            },
            None => push_str(&mut out, "null"),
        }
        assert(out@ =~= before + json_server(self.server));
        push_str(&mut out, ",\"network\":{");
        push_json_network(&mut out, &self.network);
        push_str(&mut out, "}}");
        assert(out@ =~= json(*self));
        out
    }
}

} // verus!
