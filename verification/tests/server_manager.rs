use master_time::config::{AppConfig, ConfigError, ServerProfile};
use master_time::server_manager::{ServerManager, ServerManagerError};
use master_time::servers::ServerCatalog;
use master_time::state::ApplicationState;

type Manager = ServerManager<u8, f64, u8>;

fn manager() -> Manager {
    ServerManager::new(ApplicationState::new(AppConfig::default(), 8), ServerCatalog::built_in())
}

fn profile(name: &str, host: &str) -> ServerProfile {
    ServerProfile::new(name, host).unwrap()
}

#[test]
fn add_selects_first_profile_and_lists_profiles() {
    let mut manager = manager();
    assert_eq!(manager.add_profile(profile("One", "one.example")), Ok(0));
    assert_eq!(manager.add_profile(profile("Two", "two.example")), Ok(1));
    assert_eq!(manager.list().len(), 2);
    assert_eq!(manager.selected_index(), Some(0));
}

#[test]
fn edit_changes_profile() {
    let mut manager = manager();
    manager.add_profile(profile("One", "one.example")).unwrap();
    manager.edit(0, "Updated", "updated.example").unwrap();
    assert_eq!(manager.profiles()[0], profile("Updated", "updated.example"));
}

#[test]
fn remove_rejects_active_and_removes_other_profile() {
    let mut manager = manager();
    manager.add_profile(profile("One", "one.example")).unwrap();
    manager.add_profile(profile("Two", "two.example")).unwrap();
    assert_eq!(manager.remove_profile(0), Err(ServerManagerError::ActiveProfileRemoval));
    assert_eq!(manager.remove_profile(1).unwrap(), profile("Two", "two.example"));
    assert_eq!(manager.profiles().len(), 1);
}

#[test]
fn selection_changes_active_profile() {
    let mut manager = manager();
    manager.add_profile(profile("One", "one.example")).unwrap();
    manager.add_profile(profile("Two", "two.example")).unwrap();
    manager.select(Some(1)).unwrap();
    assert_eq!(manager.selected().unwrap().name(), "Two");
    manager.select(None).unwrap();
    assert!(manager.selected().is_none());
}

#[test]
fn duplicate_profiles_are_rejected() {
    let mut manager = manager();
    manager.add_profile(profile("One", "one.example")).unwrap();
    assert_eq!(
        manager.add_profile(profile("One", "one.example")),
        Err(ServerManagerError::DuplicateProfile)
    );
}

#[test]
fn invalid_profiles_are_rejected_without_mutation() {
    let mut manager = manager();
    assert!(matches!(
        manager.add("", "one.example"),
        Err(ServerManagerError::InvalidProfile(ConfigError::EmptyServerName))
    ));
    assert!(matches!(
        manager.add("One", "bad host"),
        Err(ServerManagerError::InvalidProfile(ConfigError::InvalidHostname))
    ));
    assert!(manager.profiles().is_empty());
}

#[test]
fn removing_before_the_selection_moves_it_down() {
    let mut manager = manager();
    manager.add_profile(profile("One", "one.example")).unwrap();
    manager.add_profile(profile("Two", "two.example")).unwrap();
    manager.add_profile(profile("Three", "three.example")).unwrap();
    manager.select_profile(Some(2)).unwrap();
    assert_eq!(manager.remove(0).unwrap(), profile("One", "one.example"));
    assert_eq!(manager.selected_index(), Some(1));
    assert_eq!(manager.selected().unwrap().name(), "Three");
}

#[test]
fn unknown_indices_are_not_found() {
    let mut manager = manager();
    manager.add_profile(profile("One", "one.example")).unwrap();
    assert_eq!(manager.remove(5), Err(ServerManagerError::ProfileNotFound { index: 5 }));
    assert_eq!(
        manager.edit(3, "New", "new.example"),
        Err(ServerManagerError::ProfileNotFound { index: 3 })
    );
    assert_eq!(manager.select(Some(4)), Err(ServerManagerError::ProfileNotFound { index: 4 }));
    assert_eq!(manager.selected_index(), Some(0));
}

#[test]
fn editing_into_a_duplicate_is_rejected() {
    let mut manager = manager();
    manager.add_profile(profile("One", "one.example")).unwrap();
    manager.add_profile(profile("Two", "two.example")).unwrap();
    assert_eq!(manager.edit(1, "One", "one.example"), Err(ServerManagerError::DuplicateProfile));
    assert!(manager.edit(0, "One", "one.example").is_ok());
}

#[test]
fn manager_errors_have_messages() {
    assert_eq!(
        ServerManagerError::InvalidProfile(ConfigError::EmptyHostname).to_string(),
        "invalid server profile: hostname cannot be empty"
    );
    assert_eq!(ServerManagerError::DuplicateProfile.to_string(), "server profile already exists");
    assert_eq!(
        ServerManagerError::ProfileNotFound { index: 4 }.to_string(),
        "server profile 4 not found"
    );
    assert_eq!(
        ServerManagerError::ActiveProfileRemoval.to_string(),
        "select another server before removing the active server"
    );
    assert_eq!(manager().catalog().entries().len(), 6);
}
