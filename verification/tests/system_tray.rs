use master_time::system_tray::{
    HIDE_LABEL, QUIT_LABEL, SHOW_LABEL, START_POLLING_LABEL, STOP_POLLING_LABEL, SystemTrayState,
    TrayAction, TrayCommand, TrayEvent, menu_items,
};
use master_time::system_tray_backend::{
    SystemTrayBackend, TrayBackendAvailability, TrayBackendError, TrayBackendLifecycle,
    command_for_menu_id, menu_command_ids,
};

#[test]
fn default_state_is_visible_and_not_polling() {
    let state = SystemTrayState::default();

    assert!(state.window_visible());
    assert!(!state.polling());
    assert!(!state.quit_requested());
}

#[test]
fn commands_update_state_and_return_actions() {
    let mut state = SystemTrayState::new();

    assert_eq!(state.handle_command(TrayCommand::Hide), TrayAction::Hide);
    assert!(!state.window_visible());
    assert_eq!(state.handle_command(TrayCommand::Show), TrayAction::Show);
    assert!(state.window_visible());
    assert_eq!(
        state.handle_event(TrayEvent::Command(TrayCommand::StartPolling)),
        TrayAction::StartPolling
    );
    assert!(state.polling());
    assert_eq!(
        state.handle_command(TrayCommand::StopPolling),
        TrayAction::StopPolling
    );
    assert!(!state.polling());
}

#[test]
fn repeated_commands_are_noops() {
    let mut state = SystemTrayState::new();

    assert_eq!(state.handle_command(TrayCommand::Show), TrayAction::Noop);
    assert_eq!(
        state.handle_command(TrayCommand::StopPolling),
        TrayAction::Noop
    );
    assert_eq!(state.handle_command(TrayCommand::Hide), TrayAction::Hide);
    assert_eq!(state.handle_command(TrayCommand::Hide), TrayAction::Noop);
    assert_eq!(
        state.handle_command(TrayCommand::StartPolling),
        TrayAction::StartPolling
    );
    assert_eq!(
        state.handle_command(TrayCommand::StartPolling),
        TrayAction::Noop
    );
}

#[test]
fn quit_is_latched_and_does_not_change_other_state() {
    let mut state = SystemTrayState::with_state(false, true);

    assert_eq!(state.handle_command(TrayCommand::Quit), TrayAction::Quit);
    assert!(state.quit_requested());
    assert!(!state.window_visible());
    assert!(state.polling());
    assert_eq!(state.handle_command(TrayCommand::Quit), TrayAction::Noop);
}

#[test]
fn menu_contains_expected_labels_and_commands() {
    let commands = menu_items()
        .iter()
        .map(|item| item.command)
        .collect::<Vec<_>>();
    let labels = menu_items()
        .iter()
        .map(|item| item.label)
        .collect::<Vec<_>>();

    assert_eq!(
        commands,
        vec![
            TrayCommand::Show,
            TrayCommand::Hide,
            TrayCommand::StartPolling,
            TrayCommand::StopPolling,
            TrayCommand::Quit,
        ]
    );
    assert_eq!(
        labels,
        vec![
            SHOW_LABEL,
            HIDE_LABEL,
            START_POLLING_LABEL,
            STOP_POLLING_LABEL,
            QUIT_LABEL
        ]
    );
}

#[test]
fn command_mapping_is_stable_and_rejects_unknown_ids() {
    assert_eq!(command_for_menu_id(100), Some(TrayCommand::Show));
    assert_eq!(command_for_menu_id(101), Some(TrayCommand::Hide));
    assert_eq!(command_for_menu_id(102), Some(TrayCommand::StartPolling));
    assert_eq!(command_for_menu_id(103), Some(TrayCommand::StopPolling));
    assert_eq!(command_for_menu_id(104), Some(TrayCommand::Quit));
    assert_eq!(command_for_menu_id(999), None);
}

#[test]
fn unsupported_platform_is_side_effect_free() {
    let mut backend = SystemTrayBackend::new(SystemTrayState::new());
    assert_eq!(
        SystemTrayBackend::availability(),
        TrayBackendAvailability::Unsupported
    );
    assert_eq!(
        backend.initialize(),
        Err(TrayBackendError::UnsupportedPlatform)
    );
    assert_eq!(backend.lifecycle(), TrayBackendLifecycle::Created);
    assert_eq!(
        backend.dispatch_menu_id(100),
        Err(TrayBackendError::UnsupportedPlatform)
    );
    assert_eq!(
        backend.poll_native_commands(),
        Err(TrayBackendError::UnsupportedPlatform)
    );
    assert_eq!(backend.shutdown(), Ok(()));
    assert_eq!(backend.lifecycle(), TrayBackendLifecycle::Created);
    assert!(backend.model().window_visible());
}

#[test]
fn every_menu_id_maps_back_to_its_command() {
    for (id, command) in menu_command_ids() {
        assert_eq!(command_for_menu_id(id), Some(command));
    }
    assert!(TrayBackendError::UnsupportedPlatform.is_unsupported());
    assert!(!TrayBackendError::NotRunning.is_unsupported());
}
