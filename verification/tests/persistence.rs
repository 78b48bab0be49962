use master_time::config::{AppConfig, ServerProfile};
use master_time::persistence::{PersistenceError, PersistenceManager};
use master_time::storage::StorageError;
use std::path::PathBuf;

#[test]
fn new_manager_starts_clean() {
    let manager = PersistenceManager::new(PathBuf::from("config.txt"), AppConfig::default());
    assert!(!manager.is_dirty());
    assert!(!manager.saves_on_change());
    assert_eq!(manager.path(), &PathBuf::from("config.txt"));
    assert_eq!(manager.config(), &AppConfig::default());
}

#[test]
fn changes_make_the_manager_dirty_until_saved() {
    let mut manager = PersistenceManager::new(PathBuf::from("c"), AppConfig::default());
    assert!(!manager.set_config(AppConfig::default()));
    assert!(!manager.is_dirty());
    let mut changed = AppConfig::default();
    changed.add_server(ServerProfile::new("One", "one.example").unwrap());
    assert!(!manager.set_config(changed));
    assert!(manager.is_dirty());
    manager.mark_saved();
    assert!(!manager.is_dirty());
}

#[test]
fn save_on_change_asks_for_an_immediate_save() {
    let mut manager = PersistenceManager::new(PathBuf::from("c"), AppConfig::default());
    manager.set_save_on_change(true);
    assert!(manager.saves_on_change());
    let mut changed = AppConfig::default();
    changed.add_server(ServerProfile::new("One", "one.example").unwrap());
    assert!(manager.set_config(changed));
    assert!(manager.is_dirty());
}

#[test]
fn persistence_errors_name_the_direction() {
    let load = PersistenceError::Load(StorageError::InvalidFormat {
        line: None,
        message: "missing version".to_string(),
    });
    assert_eq!(
        load.to_string(),
        "could not load configuration: invalid configuration: missing version"
    );
    let save = PersistenceError::Save(StorageError::Io {
        operation: "write",
        source: std::io::Error::new(std::io::ErrorKind::Other, "disk full"),
    });
    assert_eq!(
        save.to_string(),
        "could not save configuration: could not write configuration: disk full"
    );
}
