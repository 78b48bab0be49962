//! UI-independent state and command handling for a system tray.
//!
//! A platform adapter renders [`menu_items`] and applies the [`TrayAction`]
//! returned by [`SystemTrayState::handle_event`].

use vstd::prelude::*;

verus! {

/// The labels used by the system tray menu.
pub const SHOW_LABEL: &'static str = "Show";

pub const HIDE_LABEL: &'static str = "Hide";

pub const START_POLLING_LABEL: &'static str = "Start polling";

pub const STOP_POLLING_LABEL: &'static str = "Stop polling";

pub const QUIT_LABEL: &'static str = "Quit";

/// Commands exposed by the system tray menu.
#[derive(Debug, Clone, Copy, PartialEq, Eq, Structural)]
pub enum TrayCommand {
    Show,
    Hide,
    StartPolling,
    StopPolling,
    Quit,
}

/// An event received from a tray integration.
#[derive(Debug, Clone, Copy, PartialEq, Eq, Structural)]
pub enum TrayEvent {
    /// A menu item was selected.
    Command(TrayCommand),
}

/// A menu item that a platform-specific tray integration can render.
#[derive(Debug, Clone, Copy, PartialEq, Eq)]
pub struct TrayMenuItem {
    pub label: &'static str,
    pub command: TrayCommand,
}

/// The state changes a platform adapter should apply after handling a command.
#[derive(Debug, Clone, Copy, PartialEq, Eq, Structural)]
pub enum TrayAction {
    /// The command was already reflected in the state.
    Noop,
    Show,
    Hide,
    StartPolling,
    StopPolling,
    Quit,
}

/// UI-independent state represented by the system tray.
#[derive(Debug, Clone, Copy, PartialEq, Eq, Structural)]
pub struct SystemTrayState {
    window_visible: bool,
    polling: bool,
    quit_requested: bool,
}

/// The abstract state of a [`SystemTrayState`].
pub struct TrayModel {
    pub window_visible: bool,
    pub polling: bool,
    pub quit_requested: bool,
}

impl View for SystemTrayState {
    type V = TrayModel;

    closed spec fn view(&self) -> TrayModel {
        TrayModel {
            window_visible: self.window_visible,
            polling: self.polling,
            quit_requested: self.quit_requested,
        }
    }
}

/// The effect of one command on a tray model: the new model and the action.
pub open spec fn command_effect(m: TrayModel, command: TrayCommand) -> (TrayModel, TrayAction) {
    match command {
        TrayCommand::Show => if !m.window_visible {
            (TrayModel { window_visible: true, ..m }, TrayAction::Show)
        } else {
            (m, TrayAction::Noop)
        },
        TrayCommand::Hide => if m.window_visible {
            (TrayModel { window_visible: false, ..m }, TrayAction::Hide)
        } else {
            (m, TrayAction::Noop)
        },
        TrayCommand::StartPolling => if !m.polling {
            (TrayModel { polling: true, ..m }, TrayAction::StartPolling)
        } else {
            (m, TrayAction::Noop)
        },
        TrayCommand::StopPolling => if m.polling {
            (TrayModel { polling: false, ..m }, TrayAction::StopPolling)
        } else {
            (m, TrayAction::Noop)
        },
        TrayCommand::Quit => if !m.quit_requested {
            (TrayModel { quit_requested: true, ..m }, TrayAction::Quit)
        } else {
            (m, TrayAction::Noop)
        },
    }
}

impl Default for SystemTrayState {
    fn default() -> (s: Self)
        ensures
            s@.window_visible && !s@.polling && !s@.quit_requested,
    {
        Self::new()
    }
}

impl SystemTrayState {
    /// Creates the normal initial state: the window is visible and polling is
    /// stopped.
    pub fn new() -> (s: Self)
        ensures
            s@.window_visible,
            !s@.polling,
            !s@.quit_requested,
    {
        SystemTrayState { window_visible: true, polling: false, quit_requested: false }
    }

    /// Creates a state with explicitly supplied visibility and polling values.
    pub fn with_state(window_visible: bool, polling: bool) -> (s: Self)
        ensures
            s@.window_visible == window_visible,
            s@.polling == polling,
            !s@.quit_requested,
    {
        SystemTrayState { window_visible, polling, quit_requested: false }
    }

    pub fn window_visible(&self) -> (b: bool)
        ensures
            b == self@.window_visible,
    {
        self.window_visible
    }

    pub fn polling(&self) -> (b: bool)
        ensures
            b == self@.polling,
    {
        self.polling
    }

    pub fn quit_requested(&self) -> (b: bool)
        ensures
            b == self@.quit_requested,
    {
        self.quit_requested
    }

    /// Handles an event and returns the side effect for the owning application.
    ///
    /// Repeating a command that is already satisfied returns [`TrayAction::Noop`].
    /// Quit is latched so subsequent events cannot accidentally clear it.
    pub fn handle_event(&mut self, event: TrayEvent) -> (a: TrayAction)
        ensures
            match event {
                TrayEvent::Command(command) => {
                    &&& final(self)@ == command_effect(old(self)@, command).0
                    &&& a == command_effect(old(self)@, command).1
                },
            },
    {
        match event {
            TrayEvent::Command(command) => self.handle_command(command),
        }
    }

    /// Handles a tray command and updates this model's state.
    pub fn handle_command(&mut self, command: TrayCommand) -> (a: TrayAction)
        ensures
            final(self)@ == command_effect(old(self)@, command).0,
            a == command_effect(old(self)@, command).1,
    {
        match command {
            TrayCommand::Show => {
                if !self.window_visible {
                    self.window_visible = true;
                    TrayAction::Show
                } else {
                    TrayAction::Noop
                }
            },
            TrayCommand::Hide => {
                if self.window_visible {
                    self.window_visible = false;
                    TrayAction::Hide
                } else {
                    TrayAction::Noop
                }
            },
            TrayCommand::StartPolling => {
                if !self.polling {
                    self.polling = true;
                    TrayAction::StartPolling
                } else {
                    TrayAction::Noop
                }
            },
            TrayCommand::StopPolling => {
                if self.polling {
                    self.polling = false;
                    TrayAction::StopPolling
                } else {
                    TrayAction::Noop
                }
            },
            TrayCommand::Quit => {
                if !self.quit_requested {
                    self.quit_requested = true;
                    TrayAction::Quit
                } else {
                    TrayAction::Noop
                }
            },
        }
    }
}

/// The menu items in their display order.
pub open spec fn menu_spec() -> Seq<TrayMenuItem> {
    seq![
        TrayMenuItem { label: SHOW_LABEL, command: TrayCommand::Show },
        TrayMenuItem { label: HIDE_LABEL, command: TrayCommand::Hide },
        TrayMenuItem { label: START_POLLING_LABEL, command: TrayCommand::StartPolling },
        TrayMenuItem { label: STOP_POLLING_LABEL, command: TrayCommand::StopPolling },
        TrayMenuItem { label: QUIT_LABEL, command: TrayCommand::Quit },
    ]
}

/// Returns the complete, platform-neutral tray menu in its display order.
pub fn menu_items() -> (items: [TrayMenuItem; 5])
    ensures
        items@ == menu_spec(),
{
    let items = [
        TrayMenuItem { label: SHOW_LABEL, command: TrayCommand::Show },
        TrayMenuItem { label: HIDE_LABEL, command: TrayCommand::Hide },
        TrayMenuItem { label: START_POLLING_LABEL, command: TrayCommand::StartPolling },
        TrayMenuItem { label: STOP_POLLING_LABEL, command: TrayCommand::StopPolling },
        TrayMenuItem { label: QUIT_LABEL, command: TrayCommand::Quit },
    ];
    assert(items@ =~= menu_spec());
    items
}

/// Handling a command twice in a row is the same as handling it once: the
/// second call changes nothing and reports [`TrayAction::Noop`].
pub proof fn lemma_commands_are_idempotent(m: TrayModel, command: TrayCommand)
    ensures
        command_effect(command_effect(m, command).0, command).0 == command_effect(m, command).0,
        command_effect(command_effect(m, command).0, command).1 == TrayAction::Noop,
{
}

/// Once quit is requested, no command clears it.
pub proof fn lemma_quit_is_latched(m: TrayModel, command: TrayCommand)
    requires
        m.quit_requested,
    ensures
        command_effect(m, command).0.quit_requested,
{
}

/// Quit changes nothing but the quit flag.
pub proof fn lemma_quit_changes_only_quit(m: TrayModel)
    ensures
        command_effect(m, TrayCommand::Quit).0.window_visible == m.window_visible,
        command_effect(m, TrayCommand::Quit).0.polling == m.polling,
{
}

} // verus!
