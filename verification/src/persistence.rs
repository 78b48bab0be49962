//! The lifecycle of the persisted configuration.
//!
//! [`PersistenceManager`] keeps the in-memory configuration with the path it
//! is saved to, tracks whether it changed since the last load or save, and
//! says when a change is to be saved at once. Reading and writing the file is
//! the caller's part: it saves when told, and reports a successful save.
use vstd::prelude::*;

use crate::config::{AppConfig, ConfigModel};
use crate::storage::StorageError;
use crate::text::push_str;

verus! {

/// Errors of the persistence lifecycle.
#[derive(Debug)]
pub enum PersistenceError {
    /// The configuration could not be loaded.
    Load(StorageError),
    /// The configuration could not be saved.
    Save(StorageError),
}

impl PersistenceError {
    pub open spec fn head(&self) -> Seq<char> {
        match self {
            PersistenceError::Load(_) => "could not load configuration: "@,
            PersistenceError::Save(_) => "could not save configuration: "@,
        }
    }

    pub open spec fn source(&self) -> StorageError {
        match self {
            PersistenceError::Load(e) => *e,
            PersistenceError::Save(e) => *e,
        }
    }

    /// The message: which way the configuration failed to move, then the
    /// storage error's own message.
    pub fn to_string(&self) -> (s: String)
        ensures
            match self.source().known_message() {
                Some(m) => s@ == self.head() + m,
                None => {
                    let head = self.head() + self.source().io_head();
                    s@.len() >= head.len() && s@.subrange(0, head.len() as int) == head
                },
            },
    {
        let mut s = String::new();
        let source = match self {
            PersistenceError::Load(e) => {
                push_str(&mut s, "could not load configuration: ");
                e
            },
            PersistenceError::Save(e) => {
                push_str(&mut s, "could not save configuration: ");
                e
            },
        };
        let ghost head = s@;
        let text = source.to_string();
        push_str(&mut s, text.as_str());
        proof {
            match source {
                StorageError::Io { operation, .. } => {
                    let io = "could not "@ + operation@ + " configuration: "@;
                    assert(text@.subrange(0, io.len() as int) == io);
                    assert(s@.subrange(0, (head + io).len() as int) =~= head + io);
                },
                _ => {},
            }
        }
        s
    }
}

/// Owns the configuration and tracks its persistence.
#[derive(Debug)]
pub struct PersistenceManager {
    path: std::path::PathBuf,
    config: AppConfig,
    dirty: bool,
    save_on_change: bool,
}

impl PersistenceManager {
    pub closed spec fn path_spec(&self) -> std::path::PathBuf {
        self.path
    }

    pub closed spec fn config_view(&self) -> ConfigModel {
        self.config@
    }

    pub closed spec fn dirty_spec(&self) -> bool {
        self.dirty
    }

    pub closed spec fn save_on_change_spec(&self) -> bool {
        self.save_on_change
    }

    /// A manager for `config`, saved at `path`, with no pending change and
    /// no automatic saving.
    pub fn new(path: std::path::PathBuf, config: AppConfig) -> (m: Self)
        ensures
            m.path_spec() == path,
            m.config_view() == config@,
            !m.dirty_spec(),
            !m.save_on_change_spec(),
    {
        PersistenceManager { path, config, dirty: false, save_on_change: false }
    }

    /// The file the configuration is saved to.
    pub fn path(&self) -> (p: &std::path::PathBuf)
        ensures
            *p == self.path_spec(),
    {
        &self.path
    }

    /// The current in-memory configuration.
    pub fn config(&self) -> (c: &AppConfig)
        ensures
            c@ == self.config_view(),
    {
        &self.config
    }

    /// Whether the configuration differs from the last save or load.
    pub fn is_dirty(&self) -> (b: bool)
        ensures
            b == self.dirty_spec(),
    {
        self.dirty
    }

    /// Whether changes are saved automatically.
    pub fn saves_on_change(&self) -> (b: bool)
        ensures
            b == self.save_on_change_spec(),
    {
        self.save_on_change
    }

    /// Enables or disables saving after a change.
    pub fn set_save_on_change(&mut self, enabled: bool)
        ensures
            final(self).save_on_change_spec() == enabled,
            final(self).path_spec() == old(self).path_spec(),
            final(self).config_view() == old(self).config_view(),
            final(self).dirty_spec() == old(self).dirty_spec(),
    {
        self.save_on_change = enabled;
    }

    /// Replaces the configuration. A configuration equal to the current one
    /// changes nothing; another one makes the manager dirty. The result says
    /// whether the change is to be saved now.
    pub fn set_config(&mut self, config: AppConfig) -> (save_now: bool)
        ensures
            final(self).path_spec() == old(self).path_spec(),
            final(self).save_on_change_spec() == old(self).save_on_change_spec(),
            final(self).config_view() == config@,
            config@ == old(self).config_view() ==> !save_now && final(self).dirty_spec() == old(
                self,
            ).dirty_spec(),
            config@ != old(self).config_view() ==> final(self).dirty_spec() && save_now == old(
                self,
            ).save_on_change_spec(),
    {
        if self.config.same_as(&config) {
            return false;
        }
        self.config = config;
        self.dirty = true;
        self.save_on_change
    }

    /// Records that the current configuration was saved.
    pub fn mark_saved(&mut self)
        ensures
            !final(self).dirty_spec(),
            final(self).path_spec() == old(self).path_spec(),
            final(self).config_view() == old(self).config_view(),
            final(self).save_on_change_spec() == old(self).save_on_change_spec(),
    {
        self.dirty = false;
    }
}

} // verus!
