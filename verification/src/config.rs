//! In-memory application configuration.
//!
//! This module contains no persistence code. It provides validated values
//! that a user interface or persistence layer can build on.

use vstd::prelude::*;
use crate::text::{chars_of, is_control, is_control_spec, is_whitespace, is_whitespace_spec, string_from_chars};
use crate::time::{Duration, duration_debug, duration_debug_text};
use crate::text::{decimal, push_decimal, push_str};

verus! {

/// The default interval between polling attempts, in seconds.
pub const DEFAULT_POLL_INTERVAL_SECS: u64 = 60;

/// The shortest interval accepted for polling, in seconds.
pub const MIN_POLL_INTERVAL_SECS: u64 = 5;

/// The longest interval accepted for polling, in seconds.
pub const MAX_POLL_INTERVAL_SECS: u64 = 3600;

pub open spec fn default_poll_nanos() -> nat {
    60_000_000_000
}

pub open spec fn min_poll_nanos() -> nat {
    5_000_000_000
}

pub open spec fn max_poll_nanos() -> nat {
    3_600_000_000_000
}

/// The default interval between polling attempts.
pub fn default_poll_interval() -> (d: Duration)
    ensures
        d@ == default_poll_nanos(),
{
    Duration::from_secs(DEFAULT_POLL_INTERVAL_SECS)
}

/// The shortest interval accepted for polling.
pub fn min_poll_interval() -> (d: Duration)
    ensures
        d@ == min_poll_nanos(),
{
    Duration::from_secs(MIN_POLL_INTERVAL_SECS)
}

/// The longest interval accepted for polling.
pub fn max_poll_interval() -> (d: Duration)
    ensures
        d@ == max_poll_nanos(),
{
    Duration::from_secs(MAX_POLL_INTERVAL_SECS)
}

/// Errors returned when configuration values are invalid.
#[derive(Debug, Clone, Copy, PartialEq, Eq, Structural)]
pub enum ConfigError {
    EmptyServerName,
    InvalidServerName,
    EmptyHostname,
    InvalidHostname,
    InvalidHostnameLabel,
    PollIntervalTooShort { minimum: Duration, actual: Duration },
    PollIntervalTooLong { maximum: Duration, actual: Duration },
    ActiveServerOutOfBounds { index: usize, server_count: usize },
}

impl ConfigError {
    /// The message for this error.
    pub open spec fn message(self) -> Seq<char> {
        match self {
            ConfigError::EmptyServerName => "server name cannot be empty"@,
            ConfigError::InvalidServerName => "server name contains a control character"@,
            ConfigError::EmptyHostname => "hostname cannot be empty"@,
            ConfigError::InvalidHostname => "hostname contains invalid characters"@,
            ConfigError::InvalidHostnameLabel => "hostname label is invalid"@,
            ConfigError::PollIntervalTooShort { minimum, actual } => "poll interval "@
                + duration_debug_text(actual@) + " is shorter than minimum "@
                + duration_debug_text(minimum@),
            ConfigError::PollIntervalTooLong { maximum, actual } => "poll interval "@
                + duration_debug_text(actual@) + " is longer than maximum "@
                + duration_debug_text(maximum@),
            ConfigError::ActiveServerOutOfBounds { index, server_count } =>
                "active server index "@ + decimal(index as nat) + " is invalid for "@ + decimal(
                server_count as nat,
            ) + " servers"@,
        }
    }

    pub fn to_string(&self) -> (s: String)
        ensures
            s@ == self.message(),
    {
        let mut s = String::new();
        match self {
            ConfigError::EmptyServerName => push_str(&mut s, "server name cannot be empty"),
            ConfigError::InvalidServerName => push_str(
                &mut s,
                "server name contains a control character",
            ),
            ConfigError::EmptyHostname => push_str(&mut s, "hostname cannot be empty"),
            ConfigError::InvalidHostname => push_str(&mut s, "hostname contains invalid characters"),
            ConfigError::InvalidHostnameLabel => push_str(&mut s, "hostname label is invalid"),
            ConfigError::PollIntervalTooShort { minimum, actual } => {
                push_str(&mut s, "poll interval ");
                push_str(&mut s, duration_debug(actual).as_str());
                push_str(&mut s, " is shorter than minimum ");
                push_str(&mut s, duration_debug(minimum).as_str());
            },
            ConfigError::PollIntervalTooLong { maximum, actual } => {
                push_str(&mut s, "poll interval ");
                push_str(&mut s, duration_debug(actual).as_str());
                push_str(&mut s, " is longer than maximum ");
                push_str(&mut s, duration_debug(maximum).as_str());
            },
            ConfigError::ActiveServerOutOfBounds { index, server_count } => {
                push_str(&mut s, "active server index ");
                push_decimal(&mut s, *index as u64);
                push_str(&mut s, " is invalid for ");
                push_decimal(&mut s, *server_count as u64);
                push_str(&mut s, " servers");
            },
        }
        s
    }
}

/// Why an interval is not accepted for polling, if it is not.
pub open spec fn interval_error(interval: Duration) -> Option<ConfigError> {
    if interval@ < min_poll_nanos() {
        Some(
            ConfigError::PollIntervalTooShort {
                minimum: Duration::spec_from_secs(MIN_POLL_INTERVAL_SECS),
                actual: interval,
            },
        )
    } else if interval@ > max_poll_nanos() {
        Some(
            ConfigError::PollIntervalTooLong {
                maximum: Duration::spec_from_secs(MAX_POLL_INTERVAL_SECS),
                actual: interval,
            },
        )
    } else {
        None
    }
}

fn validate_interval(interval: Duration) -> (r: Result<(), ConfigError>)
    ensures
        match interval_error(interval) {
            Some(e) => r == Err::<(), ConfigError>(e),
            None => r is Ok,
        },
{
    if interval.lt(&min_poll_interval()) {
        return Err(
            ConfigError::PollIntervalTooShort {
                minimum: Duration::from_secs(MIN_POLL_INTERVAL_SECS),
                actual: interval,
            },
        );
    }
    if max_poll_interval().lt(&interval) {
        return Err(
            ConfigError::PollIntervalTooLong {
                maximum: Duration::from_secs(MAX_POLL_INTERVAL_SECS),
                actual: interval,
            },
        );
    }
    Ok(())
}

/// Whether `c` may appear in a hostname label.
pub open spec fn label_char(c: char) -> bool {
    crate::text::is_ascii_alphanumeric_spec(c) || c == '-'
}

/// Why one dot-separated hostname label is refused, if it is.
pub open spec fn label_error(label: Seq<char>) -> Option<ConfigError> {
    if label.len() == 0 || label.len() > 63 || label[0] == '-' || label.last() == '-' {
        Some(ConfigError::InvalidHostnameLabel)
    } else if exists|i: int| 0 <= i < label.len() && !label_char(#[trigger] label[i]) {
        Some(ConfigError::InvalidHostname)
    } else {
        None
    }
}

/// The first position of `c` in `s`.
pub open spec fn first_index_of(s: Seq<char>, c: char) -> Option<int>
    decreases s.len(),
{
    if s.len() == 0 {
        None
    } else if s[0] == c {
        Some(0)
    } else {
        match first_index_of(s.drop_first(), c) {
            Some(i) => Some(i + 1),
            None => None,
        }
    }
}

/// The first error among the dot-separated labels of `s`, left to right.
pub open spec fn labels_error(s: Seq<char>) -> Option<ConfigError>
    decreases s.len(),
{
    match first_index_of(s, '.') {
        None => label_error(s),
        Some(k) => if 0 <= k < s.len() {
            match label_error(s.take(k)) {
                Some(e) => Some(e),
                None => labels_error(s.skip(k + 1)),
            }
        } else {
            None
        },
    }
}

/// Why a hostname is refused, if it is.
pub open spec fn hostname_error(h: Seq<char>) -> Option<ConfigError> {
    if h.len() == 0 {
        Some(ConfigError::EmptyHostname)
    } else if exists|i: int| 0 <= i < h.len() && (#[trigger] h[i] as u32) >= 128 {
        Some(ConfigError::InvalidHostname)
    } else if h[0] == '.' || h.last() == '.' {
        Some(ConfigError::InvalidHostname)
    } else {
        labels_error(h)
    }
}

/// Why a server name is refused, if it is.
pub open spec fn name_error(n: Seq<char>) -> Option<ConfigError> {
    if forall|i: int| 0 <= i < n.len() ==> is_whitespace_spec(#[trigger] n[i]) {
        Some(ConfigError::EmptyServerName)
    } else if exists|i: int| 0 <= i < n.len() && is_control_spec(#[trigger] n[i]) {
        Some(ConfigError::InvalidServerName)
    } else {
        None
    }
}

pub proof fn lemma_first_index_in_range(s: Seq<char>, c: char)
    ensures
        first_index_of(s, c) matches Some(k) ==> 0 <= k < s.len() && s[k] == c && forall|j: int|
            0 <= j < k ==> s[j] != c,
        first_index_of(s, c) is None ==> forall|j: int| 0 <= j < s.len() ==> s[j] != c,
    decreases s.len(),
{
    if s.len() > 0 && s[0] != c {
        lemma_first_index_in_range(s.drop_first(), c);
        assert forall|j: int| 0 < j < s.len() implies s[j] == s.drop_first()[j - 1] by {}
    }
}

pub proof fn lemma_first_index_unique(s: Seq<char>, c: char, k: int)
    requires
        0 <= k < s.len(),
        s[k] == c,
        forall|j: int| 0 <= j < k ==> s[j] != c,
    ensures
        first_index_of(s, c) == Some(k),
    decreases s.len(),
{
    if k > 0 {
        assert forall|j: int| 0 <= j < k - 1 implies s.drop_first()[j] != c by {
            assert(s.drop_first()[j] == s[j + 1]);
        }
        lemma_first_index_unique(s.drop_first(), c, k - 1);
    }
}

/// A label that is not refused holds label characters only.
pub proof fn lemma_label_chars(label: Seq<char>)
    requires
        label_error(label) is None,
    ensures
        forall|i: int| 0 <= i < label.len() ==> label_char(#[trigger] label[i]),
{
}

/// A dot-separated name whose labels are not refused holds only label
/// characters and dots.
pub proof fn lemma_labels_chars(s: Seq<char>)
    requires
        labels_error(s) is None,
    ensures
        forall|i: int| 0 <= i < s.len() ==> label_char(#[trigger] s[i]) || s[i] == '.',
    decreases s.len(),
{
    lemma_first_index_in_range(s, '.');
    match first_index_of(s, '.') {
        None => {
            lemma_label_chars(s);
        },
        Some(k) => {
            lemma_label_chars(s.take(k));
            lemma_labels_chars(s.skip(k + 1));
            assert forall|i: int| 0 <= i < s.len() implies label_char(#[trigger] s[i]) || s[i]
                == '.' by {
                if i < k {
                    assert(s[i] == s.take(k)[i]);
                } else if i > k {
                    assert(s[i] == s.skip(k + 1)[i - k - 1]);
                }
            }
        },
    }
}

/// A valid hostname is not empty, holds only letters, digits, hyphens and
/// dots, and ends with a letter, digit or hyphen.
pub proof fn lemma_valid_hostname_chars(h: Seq<char>)
    requires
        hostname_error(h) is None,
    ensures
        h.len() > 0,
        forall|i: int| 0 <= i < h.len() ==> label_char(#[trigger] h[i]) || h[i] == '.',
        label_char(h.last()),
{
    lemma_labels_chars(h);
    assert(label_char(h[h.len() - 1]) || h[h.len() - 1] == '.');
}

fn check_label(s: &[char], from: usize, to: usize) -> (r: Option<ConfigError>)
    requires
        from <= to <= s@.len(),
    ensures
        r == label_error(s@.subrange(from as int, to as int)),
{
    let ghost label = s@.subrange(from as int, to as int);
    if from < to {
        assert(label[0] == s@[from as int]);
        assert(label.last() == s@[to - 1]);
    }
    if from == to || to - from > 63 || s[from] == '-' || s[to - 1] == '-' {
        return Some(ConfigError::InvalidHostnameLabel);
    }
    let mut i = from;
    while i < to
        invariant
            from <= i <= to <= s@.len(),
            label == s@.subrange(from as int, to as int),
            !(label.len() == 0 || label.len() > 63 || label[0] == '-' || label.last() == '-'),
            forall|j: int| 0 <= j < i - from ==> label_char(#[trigger] label[j]),
        decreases to - i,
    {
        let c = s[i];
        if !(('0' <= c && c <= '9') || ('a' <= c && c <= 'z') || ('A' <= c && c <= 'Z') || c
            == '-') {
            assert(!label_char(label[i - from]));
            return Some(ConfigError::InvalidHostname);
        }
        i = i + 1;
    }
    None
}

fn validate_hostname_chars(s: &[char]) -> (r: Result<(), ConfigError>)
    ensures
        match hostname_error(s@) {
            Some(e) => r == Err::<(), ConfigError>(e),
            None => r is Ok,
        },
{
    if s.len() == 0 {
        return Err(ConfigError::EmptyHostname);
    }
    let mut i: usize = 0;
    while i < s.len()
        invariant
            i <= s@.len(),
            forall|j: int| 0 <= j < i ==> ((#[trigger] s@[j]) as u32) < 128,
        decreases s.len() - i,
    {
        if s[i] as u32 >= 128 {
            return Err(ConfigError::InvalidHostname);
        }
        i = i + 1;
    }
    if s[0] == '.' || s[s.len() - 1] == '.' {
        return Err(ConfigError::InvalidHostname);
    }
    let mut start: usize = 0;
    let mut k: usize = 0;
    assert(s@.skip(0) =~= s@);
    assert(hostname_error(s@) == labels_error(s@));
    while k < s.len()
        invariant
            hostname_error(s@) == labels_error(s@),
            start <= k <= s@.len(),
            labels_error(s@) == labels_error(s@.skip(start as int)),
            forall|j: int| start <= j < k ==> s@[j] != '.',
        decreases s.len() - k,
    {
        if s[k] == '.' {
            proof {
                let rest = s@.skip(start as int);
                assert forall|j: int| 0 <= j < k - start implies rest[j] != '.' by {
                    assert(rest[j] == s@[start + j]);
                }
                lemma_first_index_unique(rest, '.', k - start);
                assert(rest.take(k - start) =~= s@.subrange(start as int, k as int));
                assert(rest.skip(k - start + 1) =~= s@.skip(k + 1));
            }
            match check_label(s, start, k) {
                Some(e) => {
                    return Err(e);
                },
                None => {},
            }
            start = k + 1;
        }
        k = k + 1;
    }
    proof {
        let rest = s@.skip(start as int);
        assert forall|j: int| 0 <= j < rest.len() implies rest[j] != '.' by {
            assert(rest[j] == s@[start + j]);
        }
        lemma_first_index_in_range(rest, '.');
        if first_index_of(rest, '.') is Some {
            assert(false);
        }
        assert(rest =~= s@.subrange(start as int, s@.len() as int));
    }
    match check_label(s, start, s.len()) {
        Some(e) => Err(e),
        None => Ok(()),
    }
}

/// Validates a hostname as dot-separated ASCII labels of letters, digits and
/// inner hyphens, each 1 to 63 characters long.
pub fn validate_hostname(hostname: &str) -> (r: Result<(), ConfigError>)
    ensures
        match hostname_error(hostname@) {
            Some(e) => r == Err::<(), ConfigError>(e),
            None => r is Ok,
        },
{
    let s = chars_of(hostname);
    validate_hostname_chars(s.as_slice())
}

fn validate_name(s: &[char]) -> (r: Result<(), ConfigError>)
    ensures
        match name_error(s@) {
            Some(e) => r == Err::<(), ConfigError>(e),
            None => r is Ok,
        },
{
    let mut blank = true;
    let mut i: usize = 0;
    while i < s.len()
        invariant
            i <= s@.len(),
            blank == forall|j: int| 0 <= j < i ==> is_whitespace_spec(#[trigger] s@[j]),
        decreases s.len() - i,
    {
        if !is_whitespace(s[i]) {
            blank = false;
        }
        i = i + 1;
    }
    if blank {
        return Err(ConfigError::EmptyServerName);
    }
    let mut i: usize = 0;
    while i < s.len()
        invariant
            i <= s@.len(),
            !(forall|j: int| 0 <= j < s@.len() ==> is_whitespace_spec(#[trigger] s@[j])),
            forall|j: int| 0 <= j < i ==> !is_control_spec(#[trigger] s@[j]),
        decreases s.len() - i,
    {
        if is_control(s[i]) {
            return Err(ConfigError::InvalidServerName);
        }
        i = i + 1;
    }
    Ok(())
}

/// A named NTP server that can be selected by the application.
#[derive(Debug, PartialEq, Eq)]
pub struct ServerProfile {
    name: String,
    hostname: String,
}

impl View for ServerProfile {
    type V = (Seq<char>, Seq<char>);

    /// The profile's name and hostname.
    closed spec fn view(&self) -> (Seq<char>, Seq<char>) {
        (self.name@, self.hostname@)
    }
}

impl Clone for ServerProfile {
    fn clone(&self) -> (c: Self)
        ensures
            c@ == self@,
    {
        ServerProfile { name: self.name.clone(), hostname: self.hostname.clone() }
    }
}

/// Why a profile is refused: first its name, then its hostname.
pub open spec fn profile_error(name: Seq<char>, hostname: Seq<char>) -> Option<ConfigError> {
    match name_error(name) {
        Some(e) => Some(e),
        None => hostname_error(hostname),
    }
}

impl ServerProfile {
    /// Creates a server profile after validating its name and hostname.
    pub fn new(name: &str, hostname: &str) -> (r: Result<Self, ConfigError>)
        ensures
            match profile_error(name@, hostname@) {
                Some(e) => r == Err::<Self, ConfigError>(e),
                None => r matches Ok(p) && p@ == (name@, hostname@),
            },
    {
        let name_chars = chars_of(name);
        match validate_name(name_chars.as_slice()) {
            Ok(()) => {},
            Err(e) => {
                return Err(e);
            },
        }
        match validate_hostname(hostname) {
            Ok(()) => {},
            Err(e) => {
                return Err(e);
            },
        }
        Ok(
            ServerProfile {
                name: string_from_chars(name_chars.as_slice()),
                hostname: crate::text::string_from_str(hostname),
            },
        )
    }

    pub fn name(&self) -> (r: &str)
        ensures
            r@ == self@.0,
    {
        self.name.as_str()
    }

    pub fn hostname(&self) -> (r: &str)
        ensures
            r@ == self@.1,
    {
        self.hostname.as_str()
    }

    /// Whether both profiles have the same name and hostname.
    pub fn same_as(&self, other: &ServerProfile) -> (r: bool)
        ensures
            r == (self@ == other@),
    {
        crate::text::str_eq(self.name.as_str(), other.name.as_str()) && crate::text::str_eq(
            self.hostname.as_str(),
            other.hostname.as_str(),
        )
    }
}

/// User preferences controlling how often the active server is polled.
#[derive(Debug, Clone, Copy, PartialEq, Eq, Structural)]
pub struct PollingPreferences {
    interval: Duration,
}

impl PollingPreferences {
    /// Every stored interval lies within the accepted bounds.
    pub closed spec fn interval_spec(&self) -> Duration {
        self.interval
    }
}

impl Default for PollingPreferences {
    fn default() -> (p: Self)
        ensures
            p.interval_spec()@ == default_poll_nanos(),
    {
        PollingPreferences { interval: default_poll_interval() }
    }
}

impl PollingPreferences {
    /// Creates preferences with an interval inside the supported bounds.
    pub fn new(interval: Duration) -> (r: Result<Self, ConfigError>)
        ensures
            match interval_error(interval) {
                Some(e) => r == Err::<Self, ConfigError>(e),
                None => r matches Ok(p) && p.interval_spec() == interval,
            },
    {
        match validate_interval(interval) {
            Ok(()) => Ok(PollingPreferences { interval }),
            Err(e) => Err(e),
        }
    }

    pub fn interval(&self) -> (d: Duration)
        ensures
            d == self.interval_spec(),
    {
        self.interval
    }

    /// Updates the interval, leaving the existing value unchanged on failure.
    pub fn set_interval(&mut self, interval: Duration) -> (r: Result<(), ConfigError>)
        ensures
            match interval_error(interval) {
                Some(e) => r == Err::<(), ConfigError>(e) && *final(self) == *old(self),
                None => r is Ok && final(self).interval_spec() == interval,
            },
    {
        match validate_interval(interval) {
            Ok(()) => {
                self.interval = interval;
                Ok(())
            },
            Err(e) => Err(e),
        }
    }
}

/// A validated, in-memory application configuration.
#[derive(Debug, PartialEq, Eq)]
pub struct AppConfig {
    servers: Vec<ServerProfile>,
    active_server: Option<usize>,
    polling: PollingPreferences,
}

/// The abstract value of an [`AppConfig`].
pub struct ConfigModel {
    pub servers: Seq<(Seq<char>, Seq<char>)>,
    pub active_server: Option<usize>,
    pub polling: PollingPreferences,
}

impl View for AppConfig {
    type V = ConfigModel;

    closed spec fn view(&self) -> ConfigModel {
        ConfigModel {
            servers: self.servers@.map_values(|p: ServerProfile| p@),
            active_server: self.active_server,
            polling: self.polling,
        }
    }
}

/// Whether a selection is a valid index into `count` servers.
pub open spec fn selection_valid(index: Option<usize>, count: nat) -> bool {
    index matches Some(i) ==> i < count
}

impl Clone for AppConfig {
    fn clone(&self) -> (c: Self)
        ensures
            c@ == self@,
    {
        let mut servers: Vec<ServerProfile> = Vec::new();
        let mut i: usize = 0;
        while i < self.servers.len()
            invariant
                i <= self.servers@.len(),
                servers@.map_values(|p: ServerProfile| p@) =~= self.servers@.map_values(
                    |p: ServerProfile| p@,
                ).take(i as int),
            decreases self.servers.len() - i,
        {
            let c = self.servers[i].clone();
            let ghost prev = servers@;
            servers.push(c);
            assert(servers@ == prev.push(c));
            assert(servers@.map_values(|p: ServerProfile| p@) =~= prev.map_values(
                |p: ServerProfile| p@,
            ).push(c@));
            assert(self.servers@.map_values(|p: ServerProfile| p@).take(i + 1) =~= self.servers@.map_values(
                |p: ServerProfile| p@,
            ).take(i as int).push(c@));
            i = i + 1;
        }
        proof {
            use_type_invariant(self);
        }
        let c = AppConfig { servers, active_server: self.active_server, polling: self.polling };
        assert(c@.servers =~= self@.servers);
        c
    }
}

impl Default for AppConfig {
    fn default() -> (c: Self)
        ensures
            c@.servers == Seq::<(Seq<char>, Seq<char>)>::empty(),
            c@.active_server is None,
            c@.polling.interval_spec()@ == default_poll_nanos(),
    {
        let c = AppConfig {
            servers: Vec::new(),
            active_server: None,
            polling: PollingPreferences::default(),
        };
        assert(c@.servers =~= Seq::<(Seq<char>, Seq<char>)>::empty());
        c
    }
}

impl AppConfig {
    /// The selection, when there is one, is an index into the servers.
    #[verifier::type_invariant]
    closed spec fn selection_in_range(&self) -> bool {
        self.active_server matches Some(i) ==> i < self.servers@.len()
    }

    /// Creates a configuration and validates the active server selection.
    pub fn new(
        servers: Vec<ServerProfile>,
        active_server: Option<usize>,
        polling: PollingPreferences,
    ) -> (r: Result<Self, ConfigError>)
        ensures
            match active_server {
                Some(index) => if index >= servers@.len() {
                    r == Err::<Self, ConfigError>(
                        ConfigError::ActiveServerOutOfBounds {
                            index,
                            server_count: servers@.len() as usize,
                        },
                    )
                } else {
                    r matches Ok(c) && c@.servers == servers@.map_values(|p: ServerProfile| p@)
                        && c@.active_server == active_server && c@.polling == polling
                },
                None => r matches Ok(c) && c@.servers == servers@.map_values(
                    |p: ServerProfile| p@,
                ) && c@.active_server == active_server && c@.polling == polling,
            },
    {
        if let Some(index) = active_server {
            if index >= servers.len() {
                return Err(
                    ConfigError::ActiveServerOutOfBounds { index, server_count: servers.len() },
                );
            }
        }
        Ok(AppConfig { servers, active_server, polling })
    }

    pub fn servers(&self) -> (s: &[ServerProfile])
        ensures
            s@.map_values(|p: ServerProfile| p@) == self@.servers,
    {
        self.servers.as_slice()
    }

    pub fn active_server_index(&self) -> (i: Option<usize>)
        ensures
            i == self@.active_server,
            selection_valid(i, self@.servers.len()),
    {
        proof {
            use_type_invariant(self);
        }
        self.active_server
    }

    pub fn active_server(&self) -> (p: Option<&ServerProfile>)
        ensures
            match self@.active_server {
                Some(i) => if i < self@.servers.len() {
                    p matches Some(p) && p@ == self@.servers[i as int]
                } else {
                    p is None
                },
                None => p is None,
            },
    {
        match self.active_server {
            Some(index) => {
                if index < self.servers.len() {
                    Some(&self.servers[index])
                } else {
                    None
                }
            },
            None => None,
        }
    }

    pub fn polling(&self) -> (p: PollingPreferences)
        ensures
            p == self@.polling,
    {
        self.polling
    }

    /// Adds a server and selects it when no server is currently active.
    pub fn add_server(&mut self, server: ServerProfile)
        requires
            old(self)@.servers.len() < usize::MAX,
        ensures
            final(self)@.servers == old(self)@.servers.push(server@),
            final(self)@.polling == old(self)@.polling,
            final(self)@.active_server == match old(self)@.active_server {
                Some(i) => Some(i),
                None => Some(old(self)@.servers.len() as usize),
            },
    {
        proof {
            use_type_invariant(&*self);
        }
        let active = self.active_server;
        self.active_server = None;
        let mut servers: Vec<ServerProfile> = Vec::new();
        std::mem::swap(&mut servers, &mut self.servers);
        servers.push(server);
        let selected = match active {
            Some(i) => Some(i),
            None => Some(servers.len() - 1),
        };
        self.servers = servers;
        self.active_server = selected;
        assert(self@.servers =~= old(self)@.servers.push(server@));
    }

    /// Selects a server by index, or clears the selection with `None`.
    pub fn set_active_server(&mut self, index: Option<usize>) -> (r: Result<(), ConfigError>)
        ensures
            final(self)@.servers == old(self)@.servers,
            final(self)@.polling == old(self)@.polling,
            match index {
                Some(i) => if i >= old(self)@.servers.len() {
                    r == Err::<(), ConfigError>(
                        ConfigError::ActiveServerOutOfBounds {
                            index: i,
                            server_count: old(self)@.servers.len() as usize,
                        },
                    ) && final(self)@.active_server == old(self)@.active_server
                } else {
                    r is Ok && final(self)@.active_server == index
                },
                None => r is Ok && final(self)@.active_server == index,
            },
    {
        if let Some(i) = index {
            if i >= self.servers.len() {
                return Err(
                    ConfigError::ActiveServerOutOfBounds {
                        index: i,
                        server_count: self.servers.len(),
                    },
                );
            }
        }
        self.active_server = index;
        Ok(())
    }

    /// Whether both configurations hold the same servers, selection and
    /// polling preferences.
    pub fn same_as(&self, other: &AppConfig) -> (r: bool)
        ensures
            r == (self@ == other@),
    {
        if self.active_server != other.active_server || self.polling != other.polling
            || self.servers.len() != other.servers.len() {
            proof {
                if self.servers.len() != other.servers.len() {
                    assert(self@.servers.len() != other@.servers.len());
                }
            }
            return false;
        }
        let mut i: usize = 0;
        while i < self.servers.len()
            invariant
                i <= self.servers@.len(),
                self.servers@.len() == other.servers@.len(),
                forall|j: int| 0 <= j < i ==> #[trigger] self.servers@[j]@ == other.servers@[j]@,
            decreases self.servers.len() - i,
        {
            if !self.servers[i].same_as(&other.servers[i]) {
                assert(self@.servers[i as int] != other@.servers[i as int]);
                return false;
            }
            i += 1;
        }
        assert(self@.servers =~= other@.servers);
        true
    }

    pub fn set_polling(&mut self, polling: PollingPreferences)
        ensures
            final(self)@.servers == old(self)@.servers,
            final(self)@.active_server == old(self)@.active_server,
            final(self)@.polling == polling,
    {
        proof {
            use_type_invariant(&*self);
        }
        self.polling = polling;
    }
}

} // verus!
