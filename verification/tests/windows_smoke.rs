use master_time::system_tray::{SystemTrayState, TrayCommand};
use master_time::system_tray_backend::{
    command_for_menu_id, SystemTrayBackend, TrayBackendAvailability, TrayBackendLifecycle,
};

#[test]
fn tray_backend_starts_uninitialized_without_native_side_effects() {
    let backend = SystemTrayBackend::new(SystemTrayState::new());

    assert_eq!(backend.lifecycle(), TrayBackendLifecycle::Created);
    assert!(backend.model().window_visible());
    assert!(!backend.model().polling());
}

#[test]
fn tray_menu_ids_map_without_creating_a_tray_icon() {
    let expected = [
        (100, TrayCommand::Show),
        (101, TrayCommand::Hide),
        (102, TrayCommand::StartPolling),
        (103, TrayCommand::StopPolling),
        (104, TrayCommand::Quit),
    ];

    for (menu_id, command) in expected {
        assert_eq!(command_for_menu_id(menu_id), Some(command));
    }
    assert_eq!(command_for_menu_id(0), None);
    assert_eq!(command_for_menu_id(u16::MAX), None);
}

#[test]
fn non_windows_reports_unsupported_tray_backend() {
    assert_eq!(SystemTrayBackend::availability(), TrayBackendAvailability::Unsupported);
}
