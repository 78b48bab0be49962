use master_time::config::{AppConfig, ConfigError, ServerProfile};
use master_time::health::{HealthStatus, RootDistanceBand};
use master_time::state::{ApplicationState, PollingState, ResultHealth, DEFAULT_HISTORY_CAPACITY};

type State = ApplicationState<&'static str, f64, u8>;

fn healthy(stratum: u8) -> ResultHealth {
    ResultHealth {
        stratum,
        leap_indicator: 0,
        root_distance: RootDistanceBand::WithinSynchronized,
    }
}

fn config_with_servers() -> AppConfig {
    let mut config = AppConfig::default();
    config.add_server(ServerProfile::new("one", "one.example").unwrap());
    config.add_server(ServerProfile::new("two", "two.example").unwrap());
    config
}

#[test]
fn success_updates_measurement_health_and_clears_error() {
    let mut state: State = ApplicationState::new(AppConfig::default(), 4);
    state.record_error(3);
    state.begin_polling();
    assert_eq!(state.polling_state(), PollingState::Polling);
    state.apply_success("first", healthy(2), 0.25);

    assert_eq!(state.latest_measurement(), Some(&"first"));
    assert_eq!(state.health_status(), HealthStatus::Synchronized);
    assert!(state.connection_error().is_none());
    assert_eq!(state.polling_state(), PollingState::Idle);
}

#[test]
fn failure_records_error_and_preserves_last_success() {
    let mut state: State = ApplicationState::new(AppConfig::default(), 4);
    state.apply_success("first", healthy(2), 0.25);
    state.record_error(3);

    assert_eq!(state.latest_measurement(), Some(&"first"));
    assert_eq!(state.health_status(), HealthStatus::Unavailable);
    assert_eq!(state.connection_error(), Some(&3));
}

#[test]
fn history_is_bounded_and_contains_successful_offsets() {
    let mut state: State = ApplicationState::new(AppConfig::default(), 2);
    state.apply_success("a", healthy(1), 1.0);
    state.apply_success("b", healthy(1), 2.0);
    state.apply_success("c", healthy(1), 3.0);
    assert_eq!(state.history().samples(), &[2.0, 3.0]);
}

#[test]
fn invalid_server_selection_is_atomic_and_valid_selection_resets_results() {
    let mut state: State = ApplicationState::new(config_with_servers(), 4);
    state.apply_success("first", healthy(2), 0.25);
    let history_before = state.history().samples().to_vec();

    assert!(matches!(
        state.set_active_server(Some(99)),
        Err(ConfigError::ActiveServerOutOfBounds { index: 99, server_count: 2 })
    ));
    assert_eq!(state.config().active_server_index(), Some(0));
    assert_eq!(state.history().samples(), history_before.as_slice());
    assert!(state.latest_measurement().is_some());

    state.set_active_server(Some(1)).unwrap();
    assert_eq!(state.active_server().unwrap().name(), "two");
    assert!(state.latest_measurement().is_none());
    assert!(state.history().is_empty());
    assert_eq!(state.health_status(), HealthStatus::Unavailable);
}

#[test]
fn selecting_the_current_server_keeps_results() {
    let mut state: State = ApplicationState::new(config_with_servers(), 4);
    state.apply_success("first", healthy(2), 0.25);
    state.set_active_server(Some(0)).unwrap();
    assert_eq!(state.latest_measurement(), Some(&"first"));
}

#[test]
fn unknown_leap_bits_and_poor_quality_lower_health() {
    let mut state: State = ApplicationState::new(AppConfig::default(), 4);
    state.apply_success(
        "x",
        ResultHealth { stratum: 2, leap_indicator: 7, root_distance: RootDistanceBand::WithinSynchronized },
        0.0,
    );
    assert_eq!(state.health_status(), HealthStatus::Unavailable);
    state.apply_success(
        "y",
        ResultHealth { stratum: 8, leap_indicator: 0, root_distance: RootDistanceBand::WithinSynchronized },
        0.0,
    );
    assert_eq!(state.health_status(), HealthStatus::Uncertain);
}

#[test]
fn default_state_keeps_the_default_history() {
    let state: State = ApplicationState::default();
    assert_eq!(state.history().capacity(), DEFAULT_HISTORY_CAPACITY);
    assert!(state.config().servers().is_empty());
}
