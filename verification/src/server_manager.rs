//! Management of the configured server profiles and the selected one.
//!
//! [`ServerManager`] applies the validated configuration operations to the
//! application state. Changing the list of profiles starts the state afresh
//! for the new configuration, with the same history capacity.
use vstd::prelude::*;

use crate::config::{AppConfig, ConfigError, ServerProfile, profile_error, selection_valid};
use crate::health::HealthStatus;
use crate::servers::ServerCatalog;
use crate::state::{ApplicationState, PollingState};
use crate::text::{decimal, push_decimal, push_str, string_from_str};

verus! {

/// Errors returned by server management operations.
#[derive(Debug, Clone, Copy, PartialEq, Eq, Structural)]
pub enum ServerManagerError {
    /// The supplied profile failed configuration validation.
    InvalidProfile(ConfigError),
    /// A profile with the same name and hostname is already configured.
    DuplicateProfile,
    /// The requested profile index does not exist.
    ProfileNotFound { index: usize },
    /// The active profile must be changed before it can be removed.
    ActiveProfileRemoval,
}

impl ServerManagerError {
    pub open spec fn message(self) -> Seq<char> {
        match self {
            ServerManagerError::InvalidProfile(e) => "invalid server profile: "@ + e.message(),
            ServerManagerError::DuplicateProfile => "server profile already exists"@,
            ServerManagerError::ProfileNotFound { index } => "server profile "@ + decimal(
                index as nat,
            ) + " not found"@,
            ServerManagerError::ActiveProfileRemoval =>
                "select another server before removing the active server"@,
        }
    }

    pub fn to_string(&self) -> (s: String)
        ensures
            s@ == self.message(),
    {
        match self {
            ServerManagerError::InvalidProfile(e) => {
                let mut s = String::new();
                push_str(&mut s, "invalid server profile: ");
                let t = e.to_string();
                push_str(&mut s, t.as_str());
                s
            },
            ServerManagerError::DuplicateProfile => string_from_str("server profile already exists"),
            ServerManagerError::ProfileNotFound { index } => {
                let mut s = String::new();
                push_str(&mut s, "server profile ");
                push_decimal(&mut s, *index as u64);
                push_str(&mut s, " not found");
                s
            },
            ServerManagerError::ActiveProfileRemoval => string_from_str(
                "select another server before removing the active server",
            ),
        }
    }
}

/// Whether `p` equals a profile of `servers` other than the one at `excluded`.
pub open spec fn duplicates(
    servers: Seq<(Seq<char>, Seq<char>)>,
    p: (Seq<char>, Seq<char>),
    excluded: Option<usize>,
) -> bool {
    exists|j: int| 0 <= j < servers.len() && excluded != Some(j as usize) && #[trigger] servers[j] == p
}

/// `servers` without the entry at `index`.
pub open spec fn without<T>(servers: Seq<T>, index: int) -> Seq<T> {
    servers.take(index) + servers.skip(index + 1)
}

/// The selection after the profile at `removed` leaves the list.
pub open spec fn shifted_selection(selected: Option<usize>, removed: usize) -> Option<usize> {
    match selected {
        Some(s) => if s > removed {
            Some((s - 1) as usize)
        } else {
            Some(s)
        },
        None => None,
    }
}

/// Manages configured profiles and the currently selected profile.
#[derive(Debug)]
pub struct ServerManager<R, S, E> {
    state: ApplicationState<R, S, E>,
    catalog: ServerCatalog,
}

impl<R, S: Copy, E> ServerManager<R, S, E> {
    pub closed spec fn current(&self) -> ApplicationState<R, S, E> {
        self.state
    }

    pub closed spec fn catalog_spec(&self) -> ServerCatalog {
        self.catalog
    }

    /// The state that a change of profiles leaves: no results, no error, no
    /// poll under way, and the history capacity and polling preferences of
    /// `before`.
    pub open spec fn fresh_for(&self, before: ApplicationState<R, S, E>) -> bool {
        let s = self.current();
        &&& s.latest() is None
        &&& s.health() == HealthStatus::Unavailable
        &&& s.samples() == Seq::<S>::empty()
        &&& s.history_limit() == before.history_limit()
        &&& s.error() is None
        &&& s.polling() == PollingState::Idle
        &&& s.config_view().polling == before.config_view().polling
    }

    /// A manager over application state and a server catalog.
    pub fn new(state: ApplicationState<R, S, E>, catalog: ServerCatalog) -> (m: Self)
        ensures
            m.current() == state,
            m.catalog_spec() == catalog,
    {
        ServerManager { state, catalog }
    }

    /// The catalog that offers built-in server profiles.
    pub fn catalog(&self) -> (c: &ServerCatalog)
        ensures
            *c == self.catalog_spec(),
    {
        &self.catalog
    }

    /// All configured profiles in their stable configuration order.
    pub fn profiles(&self) -> (p: &[ServerProfile])
        ensures
            p@.map_values(|x: ServerProfile| x@) == self.current().config_view().servers,
    {
        self.state.config().servers()
    }

    /// The configured profiles.
    pub fn list(&self) -> (p: &[ServerProfile])
        ensures
            p@.map_values(|x: ServerProfile| x@) == self.current().config_view().servers,
    {
        self.profiles()
    }

    /// The selected profile index, if one is selected.
    pub fn selected_index(&self) -> (i: Option<usize>)
        ensures
            i == self.current().config_view().active_server,
            selection_valid(i, self.current().config_view().servers.len()),
    {
        self.state.config().active_server_index()
    }

    /// The selected profile, if one is selected.
    pub fn selected(&self) -> (p: Option<&ServerProfile>)
        ensures
            match self.current().config_view().active_server {
                Some(i) => if i < self.current().config_view().servers.len() {
                    p matches Some(p) && p@ == self.current().config_view().servers[i as int]
                } else {
                    p is None
                },
                None => p is None,
            },
    {
        self.state.active_server()
    }

    /// The application state, read-only.
    pub fn state(&self) -> (s: &ApplicationState<R, S, E>)
        ensures
            *s == self.current(),
    {
        &self.state
    }

    fn ensure_unique(&self, profile: &ServerProfile, excluded: Option<usize>) -> (r: Result<
        (),
        ServerManagerError,
    >)
        ensures
            r is Ok <==> !duplicates(self.current().config_view().servers, profile@, excluded),
            r is Err ==> r == Err::<(), ServerManagerError>(ServerManagerError::DuplicateProfile),
    {
        let profiles = self.profiles();
        let ghost servers = self.current().config_view().servers;
        let mut j: usize = 0;
        while j < profiles.len()
            invariant
                j <= profiles@.len(),
                servers == self.current().config_view().servers,
                profiles@.map_values(|x: ServerProfile| x@) == servers,
                forall|k: int|
                    0 <= k < j && excluded != Some(k as usize) ==> #[trigger] servers[k] != profile@,
            decreases profiles.len() - j,
        {
            if excluded != Some(j) && profiles[j].same_as(profile) {
                assert(profiles@.map_values(|x: ServerProfile| x@)[j as int] == profiles@[j as int]@);
                assert(servers[j as int] == profile@);
                assert(excluded != Some((j as int) as usize));
                assert(duplicates(servers, profile@, excluded));

                return Err(ServerManagerError::DuplicateProfile);
            }
            j += 1;
        }
        Ok(())
    }

    fn replace_state(&mut self, config: AppConfig)
        ensures
            final(self).current().config_view() == config@,
            final(self).catalog_spec() == old(self).catalog_spec(),
            final(self).current().history_limit() == old(self).current().history_limit(),
            final(self).current().latest() is None,
            final(self).current().health() == HealthStatus::Unavailable,
            final(self).current().samples() == Seq::<S>::empty(),
            final(self).current().error() is None,
            final(self).current().polling() == PollingState::Idle,
    {
        let capacity = self.state.history().capacity();
        self.state = ApplicationState::new(config, capacity);
    }

    /// Adds a validated profile and returns its index; the first profile
    /// added becomes the selection.
    pub fn add_profile(&mut self, profile: ServerProfile) -> (r: Result<usize, ServerManagerError>)
        requires
            old(self).current().config_view().servers.len() < usize::MAX,
        ensures
            final(self).catalog_spec() == old(self).catalog_spec(),
            duplicates(old(self).current().config_view().servers, profile@, None) ==> r == Err::<
                usize,
                ServerManagerError,
            >(ServerManagerError::DuplicateProfile) && *final(self) == *old(self),
            !duplicates(old(self).current().config_view().servers, profile@, None) ==> {
                let before = old(self).current().config_view();
                &&& r == Ok::<usize, ServerManagerError>(before.servers.len() as usize)
                &&& final(self).current().config_view().servers == before.servers.push(profile@)
                &&& final(self).current().config_view().active_server == match before.active_server {
                    Some(i) => Some(i),
                    None => Some(before.servers.len() as usize),
                }
                &&& final(self).fresh_for(old(self).current())
            },
    {
        match self.ensure_unique(&profile, None) {
            Ok(()) => {},
            Err(e) => { return Err(e) },
        }
        let mut config = self.state.config().clone();
        assert(config@.servers == old(self).current().config_view().servers);
        config.add_server(profile);
        let servers = config.servers();
        assert(servers@.map_values(|x: ServerProfile| x@).len() == servers@.len());
        assert(servers@.len() > 0);
        let index = servers.len() - 1;
        self.replace_state(config);
        Ok(index)
    }

    /// Validates and adds a profile from user-provided text.
    pub fn add(&mut self, name: &str, hostname: &str) -> (r: Result<usize, ServerManagerError>)
        requires
            old(self).current().config_view().servers.len() < usize::MAX,
        ensures
            final(self).catalog_spec() == old(self).catalog_spec(),
            match profile_error(name@, hostname@) {
                Some(e) => r == Err::<usize, ServerManagerError>(
                    ServerManagerError::InvalidProfile(e),
                ) && *final(self) == *old(self),
                None => if duplicates(
                    old(self).current().config_view().servers,
                    (name@, hostname@),
                    None,
                ) {
                    r == Err::<usize, ServerManagerError>(ServerManagerError::DuplicateProfile)
                        && *final(self) == *old(self)
                } else {
                    r == Ok::<usize, ServerManagerError>(
                        old(self).current().config_view().servers.len() as usize,
                    ) && final(self).current().config_view().servers == old(
                        self,
                    ).current().config_view().servers.push((name@, hostname@))
                        && final(self).fresh_for(old(self).current())
                },
            },
    {
        let profile = match ServerProfile::new(name, hostname) {
            Ok(p) => p,
            Err(e) => { return Err(ServerManagerError::InvalidProfile(e)) },
        };
        self.add_profile(profile)
    }

    /// Replaces the profile at `index`.
    pub fn edit_profile(&mut self, index: usize, profile: ServerProfile) -> (r: Result<
        (),
        ServerManagerError,
    >)
        ensures
            final(self).catalog_spec() == old(self).catalog_spec(),
            ({
                let before = old(self).current().config_view();
                if index >= before.servers.len() {
                    r == Err::<(), ServerManagerError>(
                        ServerManagerError::ProfileNotFound { index },
                    ) && *final(self) == *old(self)
                } else if duplicates(before.servers, profile@, Some(index)) {
                    r == Err::<(), ServerManagerError>(ServerManagerError::DuplicateProfile)
                        && *final(self) == *old(self)
                } else {
                    &&& r is Ok
                    &&& final(self).current().config_view().servers == before.servers.update(
                        index as int,
                        profile@,
                    )
                    &&& final(self).current().config_view().active_server == before.active_server
                    &&& final(self).fresh_for(old(self).current())
                }
            }),
    {
        if index >= self.profiles().len() {
            return Err(ServerManagerError::ProfileNotFound { index });
        }
        match self.ensure_unique(&profile, Some(index)) {
            Ok(()) => {},
            Err(e) => { return Err(e) },
        }
        let ghost servers = self.current().config_view().servers;
        let ghost p = profile@;
        let current = self.profiles();
        let mut profiles: Vec<ServerProfile> = Vec::new();
        let mut slot = Some(profile);
        let mut j: usize = 0;
        while j < current.len()
            invariant
                j <= current@.len(),
                current@.map_values(|x: ServerProfile| x@) == servers,
                index < current@.len(),
                slot is Some ==> slot->0@ == p,
                slot is Some <==> j <= index,
                profiles@.len() == j,
                forall|k: int|
                    0 <= k < j ==> #[trigger] profiles@[k]@ == servers.update(index as int, p)[k],
            decreases current.len() - j,
        {
            if j == index {
                let q = slot.take().unwrap();
                profiles.push(q);
            } else {
                let c = current[j].clone();
                assert(c@ == servers[j as int]);
                profiles.push(c);
            }
            j += 1;
        }
        assert(profiles@.map_values(|x: ServerProfile| x@) =~= servers.update(index as int, p));
        let config = AppConfig::new(profiles, self.selected_index(), self.state.config().polling()).unwrap();
        self.replace_state(config);
        Ok(())
    }

    /// Validates and edits an existing profile from user-provided text; the
    /// text is validated before the index is looked at.
    pub fn edit(&mut self, index: usize, name: &str, hostname: &str) -> (r: Result<
        (),
        ServerManagerError,
    >)
        ensures
            final(self).catalog_spec() == old(self).catalog_spec(),
            ({
                let before = old(self).current().config_view();
                match profile_error(name@, hostname@) {
                    Some(e) => r == Err::<(), ServerManagerError>(
                        ServerManagerError::InvalidProfile(e),
                    ) && *final(self) == *old(self),
                    None => if index >= before.servers.len() {
                        r == Err::<(), ServerManagerError>(
                            ServerManagerError::ProfileNotFound { index },
                        ) && *final(self) == *old(self)
                    } else if duplicates(before.servers, (name@, hostname@), Some(index)) {
                        r == Err::<(), ServerManagerError>(ServerManagerError::DuplicateProfile)
                            && *final(self) == *old(self)
                    } else {
                        &&& r is Ok
                        &&& final(self).current().config_view().servers == before.servers.update(
                            index as int,
                            (name@, hostname@),
                        )
                        &&& final(self).current().config_view().active_server
                            == before.active_server
                        &&& final(self).fresh_for(old(self).current())
                    },
                }
            }),
    {
        let profile = match ServerProfile::new(name, hostname) {
            Ok(p) => p,
            Err(e) => { return Err(ServerManagerError::InvalidProfile(e)) },
        };
        self.edit_profile(index, profile)
    }

    /// Removes a profile other than the selected one and returns it; a
    /// selection after it moves down by one.
    pub fn remove_profile(&mut self, index: usize) -> (r: Result<ServerProfile, ServerManagerError>)
        ensures
            final(self).catalog_spec() == old(self).catalog_spec(),
            ({
                let before = old(self).current().config_view();
                if index >= before.servers.len() {
                    r matches Err(e) && e == ServerManagerError::ProfileNotFound { index }
                        && *final(self) == *old(self)
                } else if before.active_server == Some(index) {
                    r matches Err(e) && e == ServerManagerError::ActiveProfileRemoval
                        && *final(self) == *old(self)
                } else {
                    &&& r matches Ok(p) && p@ == before.servers[index as int]
                    &&& final(self).current().config_view().servers == without(
                        before.servers,
                        index as int,
                    )
                    &&& final(self).current().config_view().active_server == shifted_selection(
                        before.active_server,
                        index,
                    )
                    &&& final(self).fresh_for(old(self).current())
                }
            }),
    {
        if index >= self.profiles().len() {
            return Err(ServerManagerError::ProfileNotFound { index });
        }
        if self.selected_index() == Some(index) {
            return Err(ServerManagerError::ActiveProfileRemoval);
        }
        let ghost servers = self.current().config_view().servers;
        let current = self.profiles();
        let mut profiles: Vec<ServerProfile> = Vec::new();
        let removed = current[index].clone();
        let mut j: usize = 0;
        while j < current.len()
            invariant
                j <= current@.len(),
                current@.map_values(|x: ServerProfile| x@) == servers,
                index < current@.len(),
                profiles@.map_values(|x: ServerProfile| x@) == if j <= index {
                    servers.take(j as int)
                } else {
                    without(servers.take(j as int), index as int)
                },
            decreases current.len() - j,
        {
            let ghost before = profiles@;
            if j != index {
                let c = current[j].clone();
                assert(c@ == servers[j as int]);
                profiles.push(c);
                assert(profiles@.map_values(|x: ServerProfile| x@) =~= before.map_values(
                    |x: ServerProfile| x@,
                ).push(c@));
            }
            proof {
                if j < index {
                    assert(servers.take(j + 1) =~= servers.take(j as int).push(servers[j as int]));
                } else if j == index {
                    assert(without(servers.take(j + 1), index as int) =~= servers.take(j as int));
                } else {
                    assert(without(servers.take(j + 1), index as int) =~= without(
                        servers.take(j as int),
                        index as int,
                    ).push(servers[j as int]));
                }
            }
            j += 1;
        }
        assert(servers.take(current@.len() as int) =~= servers);
        let active = match self.selected_index() {
            Some(selected) => if selected > index {
                Some(selected - 1)
            } else {
                Some(selected)
            },
            None => None,
        };
        let config = AppConfig::new(profiles, active, self.state.config().polling()).unwrap();
        self.replace_state(config);
        Ok(removed)
    }

    /// Removes a profile other than the selected one.
    pub fn remove(&mut self, index: usize) -> (r: Result<ServerProfile, ServerManagerError>)
        ensures
            final(self).catalog_spec() == old(self).catalog_spec(),
            ({
                let before = old(self).current().config_view();
                if index >= before.servers.len() {
                    r matches Err(e) && e == ServerManagerError::ProfileNotFound { index }
                        && *final(self) == *old(self)
                } else if before.active_server == Some(index) {
                    r matches Err(e) && e == ServerManagerError::ActiveProfileRemoval
                        && *final(self) == *old(self)
                } else {
                    &&& r matches Ok(p) && p@ == before.servers[index as int]
                    &&& final(self).current().config_view().servers == without(
                        before.servers,
                        index as int,
                    )
                    &&& final(self).current().config_view().active_server == shifted_selection(
                        before.active_server,
                        index,
                    )
                    &&& final(self).fresh_for(old(self).current())
                }
            }),
    {
        self.remove_profile(index)
    }

    /// Selects a profile, or clears the selection with `None`; an index past
    /// the profiles is refused as not found and changes nothing.
    pub fn select(&mut self, index: Option<usize>) -> (r: Result<(), ServerManagerError>)
        ensures
            final(self).catalog_spec() == old(self).catalog_spec(),
            ({
                let before = old(self).current().config_view();
                if index == before.active_server {
                    r is Ok && *final(self) == *old(self)
                } else if index matches Some(i) && i >= before.servers.len() {
                    r == Err::<(), ServerManagerError>(
                        ServerManagerError::ProfileNotFound { index: index->0 },
                    ) && *final(self) == *old(self)
                } else {
                    &&& r is Ok
                    &&& final(self).current().config_view().active_server == index
                    &&& final(self).current().config_view().servers == before.servers
                    &&& final(self).current().latest() is None
                    &&& final(self).current().health() == HealthStatus::Unavailable
                    &&& final(self).current().samples() == Seq::<S>::empty()
                    &&& final(self).current().error() is None
                }
            }),
    {
        match self.state.set_active_server(index) {
            Ok(()) => Ok(()),
            Err(ConfigError::ActiveServerOutOfBounds { index, .. }) => Err(
                ServerManagerError::ProfileNotFound { index },
            ),
            Err(other) => Err(ServerManagerError::InvalidProfile(other)),
        }
    }

    /// Selects a profile, or clears the selection with `None`.
    pub fn select_profile(&mut self, index: Option<usize>) -> (r: Result<(), ServerManagerError>)
        ensures
            final(self).catalog_spec() == old(self).catalog_spec(),
            ({
                let before = old(self).current().config_view();
                if index == before.active_server {
                    r is Ok && *final(self) == *old(self)
                } else if index matches Some(i) && i >= before.servers.len() {
                    r == Err::<(), ServerManagerError>(
                        ServerManagerError::ProfileNotFound { index: index->0 },
                    ) && *final(self) == *old(self)
                } else {
                    &&& r is Ok
                    &&& final(self).current().config_view().active_server == index
                    &&& final(self).current().config_view().servers == before.servers
                    &&& final(self).current().latest() is None
                    &&& final(self).current().health() == HealthStatus::Unavailable
                    &&& final(self).current().samples() == Seq::<S>::empty()
                    &&& final(self).current().error() is None
                }
            }),
    {
        self.select(index)
    }
}

} // verus!
