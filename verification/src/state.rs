//! Application-owned state: the configuration, the latest result of the
//! measurement service, the health derived from it, a bounded history of
//! offsets, the latest failure, and whether a poll is under way.
//!
//! The state is generic over the service's result `R`, the history's sample
//! `S` and the service's error `E`; the caller states where the result's
//! root distance lies against the health limits, and this module decides.
use vstd::prelude::*;

use crate::config::{AppConfig, ConfigError, ConfigModel, ServerProfile};
use crate::health::{evaluate_band, health_of, HealthStatus, LeapIndicator, RootDistanceBand};
use crate::history::{keep_last, RollingHistory};

verus! {

/// The number of offset samples kept by default.
pub const DEFAULT_HISTORY_CAPACITY: usize = 120;

/// The lifecycle of a polling attempt.
#[derive(Debug, Clone, Copy, PartialEq, Eq, Structural)]
pub enum PollingState {
    /// No poll is under way.
    Idle,
    /// A poll has started and awaits the service's result.
    Polling,
}

/// In-memory state shared by the application and its user interface.
#[derive(Debug)]
pub struct ApplicationState<R, S, E> {
    config: AppConfig,
    latest_measurement: Option<R>,
    health_status: HealthStatus,
    history: RollingHistory<S>,
    connection_error: Option<E>,
    polling_state: PollingState,
}

/// What a result says about the health of the server that produced it.
#[derive(Debug, Clone, Copy, PartialEq, Eq, Structural)]
pub struct ResultHealth {
    pub stratum: u8,
    /// The two-bit leap indicator of the response header.
    pub leap_indicator: u8,
    /// Where the result's root distance lies against the health limits.
    pub root_distance: RootDistanceBand,
}

/// The health of a successful result: an unknown leap indicator counts as an
/// alarm.
pub open spec fn result_health(h: ResultHealth) -> HealthStatus {
    health_of(
        true,
        h.stratum,
        match LeapIndicator::of_bits(h.leap_indicator) {
            Some(l) => l,
            None => LeapIndicator::Alarm,
        },
        h.root_distance,
    )
}

impl<R, S: Copy, E> ApplicationState<R, S, E> {
    pub closed spec fn config_view(&self) -> ConfigModel {
        self.config@
    }

    pub closed spec fn latest(&self) -> Option<R> {
        self.latest_measurement
    }

    pub closed spec fn health(&self) -> HealthStatus {
        self.health_status
    }

    pub closed spec fn samples(&self) -> Seq<S> {
        self.history@
    }

    pub closed spec fn history_limit(&self) -> nat {
        self.history.limit()
    }

    pub closed spec fn error(&self) -> Option<E> {
        self.connection_error
    }

    pub closed spec fn polling(&self) -> PollingState {
        self.polling_state
    }

    /// State with no results yet, keeping at most `history_capacity` offsets.
    pub fn new(config: AppConfig, history_capacity: usize) -> (s: Self)
        ensures
            s.config_view() == config@,
            s.latest() is None,
            s.health() == HealthStatus::Unavailable,
            s.samples() == Seq::<S>::empty(),
            s.history_limit() == history_capacity,
            s.error() is None,
            s.polling() == PollingState::Idle,
    {
        ApplicationState {
            config,
            latest_measurement: None,
            health_status: HealthStatus::Unavailable,
            history: RollingHistory::new(history_capacity),
            connection_error: None,
            polling_state: PollingState::Idle,
        }
    }

    pub fn config(&self) -> (c: &AppConfig)
        ensures
            c@ == self.config_view(),
    {
        &self.config
    }

    /// The latest successful result, if any.
    pub fn latest_measurement(&self) -> (r: Option<&R>)
        ensures
            match self.latest() {
                Some(m) => r == Some(&m),
                None => r is None,
            },
    {
        match &self.latest_measurement {
            Some(m) => Some(m),
            None => None,
        }
    }

    /// The health computed from the latest successful result.
    pub fn health_status(&self) -> (h: HealthStatus)
        ensures
            h == self.health(),
    {
        self.health_status
    }

    /// The rolling offset history.
    pub fn history(&self) -> (h: &RollingHistory<S>)
        ensures
            h@ == self.samples(),
            h.limit() == self.history_limit(),
    {
        &self.history
    }

    /// The latest service error, if the last attempt failed.
    pub fn connection_error(&self) -> (e: Option<&E>)
        ensures
            match self.error() {
                Some(x) => e == Some(&x),
                None => e is None,
            },
    {
        match &self.connection_error {
            Some(x) => Some(x),
            None => None,
        }
    }

    pub fn polling_state(&self) -> (p: PollingState)
        ensures
            p == self.polling(),
    {
        self.polling_state
    }

    /// Marks the start of a service request.
    pub fn begin_polling(&mut self)
        ensures
            final(self).polling() == PollingState::Polling,
            final(self).config_view() == old(self).config_view(),
            final(self).latest() == old(self).latest(),
            final(self).health() == old(self).health(),
            final(self).samples() == old(self).samples(),
            final(self).history_limit() == old(self).history_limit(),
            final(self).error() == old(self).error(),
    {
        self.polling_state = PollingState::Polling;
    }

    /// Applies a successful result: its health, its offset appended to the
    /// history, the error cleared and the poll finished.
    pub fn apply_success(&mut self, result: R, health: ResultHealth, offset: S)
        ensures
            final(self).latest() == Some(result),
            final(self).health() == result_health(health),
            final(self).samples() == keep_last(
                old(self).samples().push(offset),
                old(self).history_limit(),
            ),
            final(self).history_limit() == old(self).history_limit(),
            final(self).error() is None,
            final(self).polling() == PollingState::Idle,
            final(self).config_view() == old(self).config_view(),
    {
        let leap = match LeapIndicator::from_bits(health.leap_indicator) {
            Some(l) => l,
            None => LeapIndicator::Alarm,
        };
        self.health_status = evaluate_band(true, health.stratum, leap, health.root_distance);
        self.history.push(offset);
        self.latest_measurement = Some(result);
        self.connection_error = None;
        self.polling_state = PollingState::Idle;
    }

    /// Records a failed request; the last success is kept.
    pub fn record_error(&mut self, error: E)
        ensures
            final(self).error() == Some(error),
            final(self).health() == HealthStatus::Unavailable,
            final(self).polling() == PollingState::Idle,
            final(self).latest() == old(self).latest(),
            final(self).samples() == old(self).samples(),
            final(self).history_limit() == old(self).history_limit(),
            final(self).config_view() == old(self).config_view(),
    {
        self.connection_error = Some(error);
        self.health_status = HealthStatus::Unavailable;
        self.polling_state = PollingState::Idle;
    }

    /// Selects a server after validation. Selecting the current server
    /// changes nothing; an invalid index is refused and changes nothing; any
    /// other selection clears the results tied to the old server.
    pub fn set_active_server(&mut self, index: Option<usize>) -> (r: Result<(), ConfigError>)
        ensures
            final(self).config_view().servers == old(self).config_view().servers,
            final(self).config_view().polling == old(self).config_view().polling,
            final(self).history_limit() == old(self).history_limit(),
            index == old(self).config_view().active_server ==> r is Ok && *final(self) == *old(self),
            index != old(self).config_view().active_server && (index matches Some(i) && i
                >= old(self).config_view().servers.len()) ==> *final(self) == *old(self) && r
                == Err::<(), ConfigError>(
                ConfigError::ActiveServerOutOfBounds {
                    index: index->0,
                    server_count: old(self).config_view().servers.len() as usize,
                },
            ),
            index != old(self).config_view().active_server && !(index matches Some(i) && i
                >= old(self).config_view().servers.len()) ==> {
                &&& r is Ok
                &&& final(self).config_view().active_server == index
                &&& final(self).latest() is None
                &&& final(self).health() == HealthStatus::Unavailable
                &&& final(self).samples() == Seq::<S>::empty()
                &&& final(self).error() is None
                &&& final(self).polling() == PollingState::Idle
            },
    {
        if index == self.config.active_server_index() {
            return Ok(());
        }
        if let Some(i) = index {
            if i >= self.config.servers().len() {
                return Err(
                    ConfigError::ActiveServerOutOfBounds {
                        index: i,
                        server_count: self.config.servers().len(),
                    },
                );
            }
        }
        let result = self.config.set_active_server(index);
        self.latest_measurement = None;
        self.health_status = HealthStatus::Unavailable;
        self.history = RollingHistory::new(self.history.capacity());
        self.connection_error = None;
        self.polling_state = PollingState::Idle;
        result
    }

    /// The configured active server.
    pub fn active_server(&self) -> (p: Option<&ServerProfile>)
        ensures
            match self.config_view().active_server {
                Some(i) => if i < self.config_view().servers.len() {
                    p matches Some(p) && p@ == self.config_view().servers[i as int]
                } else {
                    p is None
                },
                None => p is None,
            },
    {
        self.config.active_server()
    }
}

impl<R, S: Copy, E> Default for ApplicationState<R, S, E> {
    fn default() -> (s: Self)
        ensures
            s.config_view().servers == Seq::<(Seq<char>, Seq<char>)>::empty(),
            s.config_view().active_server is None,
            s.latest() is None,
            s.health() == HealthStatus::Unavailable,
            s.samples() == Seq::<S>::empty(),
            s.history_limit() == DEFAULT_HISTORY_CAPACITY,
            s.error() is None,
            s.polling() == PollingState::Idle,
    {
        ApplicationState::new(AppConfig::default(), DEFAULT_HISTORY_CAPACITY)
    }
}

} // verus!
