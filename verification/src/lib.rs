//! Verified building blocks of the Master Time desktop utility.

pub mod time;
pub mod accessibility;
pub mod system_tray;
pub mod system_tray_backend;
pub mod recovery;
pub mod text;
pub mod nts;
pub mod nts_transport;
pub mod notifications;
pub mod config;
pub mod settings;
pub mod localization;
pub mod translations;
pub mod ntp;
pub mod measurement;
pub mod health;
pub mod transport;
pub mod service;
pub mod calibration;
pub mod redaction;
pub mod crash_diagnostics;
pub mod clock_strings;
pub mod clock_text;
pub mod servers;
pub mod global_servers;
pub mod failover;
pub mod polling;
pub mod polling_failover;
pub mod storage;
pub mod diagnostic_export;
pub mod system;
pub mod clock_display;
pub mod diagnostics_view;
pub mod network_view;
pub mod platform;
pub mod ui;
pub mod sync_policy;
pub mod time_action;
pub mod platform_time;
pub mod history;
pub mod state;
pub mod server_manager;
pub mod persistence;
pub mod network_stats;
pub mod clock_worker;
pub mod geo;
pub mod profile_editor;
