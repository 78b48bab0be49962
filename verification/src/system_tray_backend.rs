//! Native system-tray backend boundary.
//!
//! The platform-neutral command model lives in `system_tray`. This build has no
//! native tray integration, so the backend reports itself as unsupported and
//! performs no side effects; its lifecycle and command mapping are still
//! enforced here.

use vstd::prelude::*;
use crate::system_tray::{SystemTrayState, TrayAction, TrayCommand, TrayEvent, TrayMenuItem};

verus! {

/// Whether a native tray exists on this platform.
#[derive(Debug, Clone, Copy, PartialEq, Eq, Structural)]
pub enum TrayBackendAvailability {
    WindowsBoundary,
    Unsupported,
}

/// The lifecycle of a [`SystemTrayBackend`].
#[derive(Debug, Clone, Copy, PartialEq, Eq, Structural)]
pub enum TrayBackendLifecycle {
    Created,
    Running,
    Stopped,
}

/// Why a backend operation could not be carried out.
#[derive(Debug, Clone, Copy, PartialEq, Eq, Structural)]
pub enum TrayBackendError {
    UnsupportedPlatform,
    NotRunning,
    AlreadyStopped,
    UnknownMenuId(u16),
    WindowsApiFailure(u32),
}

impl TrayBackendError {
    pub fn is_unsupported(self) -> (b: bool)
        ensures
            b == (self == TrayBackendError::UnsupportedPlatform),
    {
        matches!(self, TrayBackendError::UnsupportedPlatform)
    }
}

/// The native menu identifier of each tray command.
pub open spec fn menu_id_spec(command: TrayCommand) -> u16 {
    match command {
        TrayCommand::Show => 100,
        TrayCommand::Hide => 101,
        TrayCommand::StartPolling => 102,
        TrayCommand::StopPolling => 103,
        TrayCommand::Quit => 104,
    }
}

/// The command that a native menu identifier selects.
pub open spec fn command_for_menu_id_spec(menu_id: u16) -> Option<TrayCommand> {
    if menu_id == 100 {
        Some(TrayCommand::Show)
    } else if menu_id == 101 {
        Some(TrayCommand::Hide)
    } else if menu_id == 102 {
        Some(TrayCommand::StartPolling)
    } else if menu_id == 103 {
        Some(TrayCommand::StopPolling)
    } else if menu_id == 104 {
        Some(TrayCommand::Quit)
    } else {
        None
    }
}

/// Stable identifiers a native menu associates with [`TrayCommand`].
pub fn menu_command_ids() -> (ids: [(u16, TrayCommand); 5])
    ensures
        forall|i: int| 0 <= i < 5 ==> ids@[i].0 == menu_id_spec(#[trigger] ids@[i].1),
        ids@[0].1 == TrayCommand::Show,
        ids@[1].1 == TrayCommand::Hide,
        ids@[2].1 == TrayCommand::StartPolling,
        ids@[3].1 == TrayCommand::StopPolling,
        ids@[4].1 == TrayCommand::Quit,
{
    [
        (100, TrayCommand::Show),
        (101, TrayCommand::Hide),
        (102, TrayCommand::StartPolling),
        (103, TrayCommand::StopPolling),
        (104, TrayCommand::Quit),
    ]
}

/// Maps a native menu identifier to its command, if it is one of ours.
pub fn command_for_menu_id(menu_id: u16) -> (c: Option<TrayCommand>)
    ensures
        c == command_for_menu_id_spec(menu_id),
{
    let ids = menu_command_ids();
    let mut i: usize = 0;
    while i < 5
        invariant
            i <= 5,
            forall|k: int| 0 <= k < 5 ==> ids@[k].0 == menu_id_spec(#[trigger] ids@[k].1),
            ids@[0].1 == TrayCommand::Show,
            ids@[1].1 == TrayCommand::Hide,
            ids@[2].1 == TrayCommand::StartPolling,
            ids@[3].1 == TrayCommand::StopPolling,
            ids@[4].1 == TrayCommand::Quit,
            forall|j: int| 0 <= j < i ==> ids@[j].0 != menu_id,
        decreases 5 - i,
    {
        if ids[i].0 == menu_id {
            return Some(ids[i].1);
        }
        i = i + 1;
    }
    None
}

/// The menu items in their display order.
pub fn menu_items() -> (items: [TrayMenuItem; 5])
    ensures
        items@ == crate::system_tray::menu_spec(),
{
    crate::system_tray::menu_items()
}

/// Whether this build has a native tray integration.
pub fn availability() -> (a: TrayBackendAvailability)
    ensures
        a == TrayBackendAvailability::Unsupported,
{
    TrayBackendAvailability::Unsupported
}

/// Creates the platform's native tray resources.
fn platform_initialize() -> (r: Result<(), TrayBackendError>)
    ensures
        r == Err::<(), TrayBackendError>(TrayBackendError::UnsupportedPlatform),
{
    Err(TrayBackendError::UnsupportedPlatform)
}

/// Takes the menu identifier most recently selected in the native menu.
fn platform_take_command() -> (id: Option<u16>)
    ensures
        id is None,
{
    None
}

/// Releases the platform's native tray resources.
fn platform_shutdown() -> (r: Result<(), TrayBackendError>)
    ensures
        r is Ok,
{
    Ok(())
}

/// A tray backend that owns the tray model and the native lifecycle.
pub struct SystemTrayBackend {
    model: SystemTrayState,
    lifecycle: TrayBackendLifecycle,
}

impl SystemTrayBackend {
    /// The tray model the backend drives.
    pub closed spec fn model_spec(&self) -> SystemTrayState {
        self.model
    }

    /// The backend's lifecycle state.
    pub closed spec fn lifecycle_spec(&self) -> TrayBackendLifecycle {
        self.lifecycle
    }

    pub fn new(model: SystemTrayState) -> (b: Self)
        ensures
            b.model_spec() == model,
            b.lifecycle_spec() == TrayBackendLifecycle::Created,
    {
        SystemTrayBackend { model, lifecycle: TrayBackendLifecycle::Created }
    }

    pub fn availability() -> (a: TrayBackendAvailability)
        ensures
            a == TrayBackendAvailability::Unsupported,
    {
        availability()
    }

    pub fn lifecycle(&self) -> (l: TrayBackendLifecycle)
        ensures
            l == self.lifecycle_spec(),
    {
        self.lifecycle
    }

    pub fn model(&self) -> (m: &SystemTrayState)
        ensures
            *m == self.model_spec(),
    {
        &self.model
    }

    /// Creates the native window, menu, and shell icon.
    pub fn initialize(&mut self) -> (r: Result<(), TrayBackendError>)
        ensures
            final(self).model_spec() == old(self).model_spec(),
            old(self).lifecycle_spec() == TrayBackendLifecycle::Stopped ==> r == Err::<
                (),
                TrayBackendError,
            >(TrayBackendError::AlreadyStopped) && final(self).lifecycle_spec()
                == TrayBackendLifecycle::Stopped,
            old(self).lifecycle_spec() == TrayBackendLifecycle::Running ==> r is Ok
                && final(self).lifecycle_spec() == TrayBackendLifecycle::Running,
            old(self).lifecycle_spec() == TrayBackendLifecycle::Created ==> r == Err::<
                (),
                TrayBackendError,
            >(TrayBackendError::UnsupportedPlatform) && final(self).lifecycle_spec()
                == TrayBackendLifecycle::Created,
    {
        if self.lifecycle == TrayBackendLifecycle::Stopped {
            return Err(TrayBackendError::AlreadyStopped);
        }
        if self.lifecycle == TrayBackendLifecycle::Running {
            return Ok(());
        }
        match platform_initialize() {
            Ok(()) => {},
            Err(e) => {
                return Err(e);
            },
        }
        self.lifecycle = TrayBackendLifecycle::Running;
        Ok(())
    }

    /// Applies a command selected by a native callback or by an embedding UI.
    pub fn dispatch_menu_id(&mut self, menu_id: u16) -> (r: Result<TrayAction, TrayBackendError>)
        ensures
            final(self).lifecycle_spec() == old(self).lifecycle_spec(),
            r == Err::<TrayAction, TrayBackendError>(TrayBackendError::UnsupportedPlatform),
            final(self).model_spec() == old(self).model_spec(),
    {
        if Self::availability() == TrayBackendAvailability::Unsupported {
            return Err(TrayBackendError::UnsupportedPlatform);
        }
        let command = match command_for_menu_id(menu_id) {
            Some(command) => command,
            None => {
                return Err(TrayBackendError::UnknownMenuId(menu_id));
            },
        };
        if self.lifecycle != TrayBackendLifecycle::Running {
            return Err(TrayBackendError::NotRunning);
        }
        Ok(self.model.handle_event(TrayEvent::Command(command)))
    }

    /// Drains the command most recently received by the native menu.
    pub fn poll_native_commands(&mut self) -> (r: Result<Option<TrayAction>, TrayBackendError>)
        ensures
            final(self).lifecycle_spec() == old(self).lifecycle_spec(),
            final(self).model_spec() == old(self).model_spec(),
            r == Err::<Option<TrayAction>, TrayBackendError>(
                TrayBackendError::UnsupportedPlatform,
            ),
    {
        if Self::availability() == TrayBackendAvailability::Unsupported {
            return Err(TrayBackendError::UnsupportedPlatform);
        }
        if self.lifecycle != TrayBackendLifecycle::Running {
            return Err(TrayBackendError::NotRunning);
        }
        match platform_take_command() {
            Some(id) => match self.dispatch_menu_id(id) {
                Ok(action) => Ok(Some(action)),
                Err(e) => Err(e),
            },
            None => Ok(None),
        }
    }

    /// Removes the shell icon and destroys all native resources. A backend
    /// that never started holds no native resources and stays as it is.
    pub fn shutdown(&mut self) -> (r: Result<(), TrayBackendError>)
        ensures
            r is Ok,
            final(self).model_spec() == old(self).model_spec(),
            old(self).lifecycle_spec() == TrayBackendLifecycle::Running ==> final(self).lifecycle_spec() == TrayBackendLifecycle::Stopped,
            old(self).lifecycle_spec() != TrayBackendLifecycle::Running ==> final(self).lifecycle_spec() == old(self).lifecycle_spec(),
    {
        if self.lifecycle != TrayBackendLifecycle::Running {
            return Ok(());
        }
        match platform_shutdown() {
            Ok(()) => {},
            Err(e) => {
                return Err(e);
            },
        }
        self.lifecycle = TrayBackendLifecycle::Stopped;
        Ok(())
    }
}

/// Every command's menu identifier maps back to that command.
pub proof fn lemma_menu_ids_round_trip(command: TrayCommand)
    ensures
        command_for_menu_id_spec(menu_id_spec(command)) == Some(command),
{
}

} // verus!
