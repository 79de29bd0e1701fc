//! The tray-side decisions: the minimize-to-tray preference, menu
//! command dispatch, window-close interception, and the logging
//! configuration of the shell itself.

use vstd::prelude::*;

verus! {

/// How many rotated log files the shell keeps.
pub const LOG_KEEP_FILES: u32 = 5;

/// The size at which a log file is rotated, in bytes (10 MiB).
pub const MAX_LOG_FILE_BYTES: u64 = 10 * 1024 * 1024;

/// The user preferences the tray exposes.
pub struct TrayPreferences {
    /// Whether closing the window hides it to the tray instead of
    /// quitting.
    pub minimize_to_tray: bool,
}

/// What happens when the user asks to close the window.
#[derive(Clone, Copy, Debug, PartialEq, Eq, Structural)]
pub enum CloseAction {
    /// Hide the window and keep the application running in the tray.
    HideToTray,
    /// Let the window close, which ends the application.
    CloseWindow,
}

impl TrayPreferences {
    /// Minimize-to-tray is on by default.
    pub fn new() -> (p: Self)
        ensures
            p.minimize_to_tray,
    {
        TrayPreferences { minimize_to_tray: true }
    }

    /// Updates the minimize-to-tray preference.
    pub fn set_minimize_to_tray(&mut self, enabled: bool)
        ensures
            final(self).minimize_to_tray == enabled,
    {
        self.minimize_to_tray = enabled;
    }

    /// The current minimize-to-tray preference.
    pub fn get_minimize_to_tray(&self) -> (enabled: bool)
        ensures
            enabled == self.minimize_to_tray,
    {
        self.minimize_to_tray
    }

    /// Decides a window-close request: hide to the tray when the
    /// preference asks for it, close otherwise.
    pub fn close_action(&self) -> (a: CloseAction)
        ensures
            self.minimize_to_tray ==> a is HideToTray,
            !self.minimize_to_tray ==> a is CloseWindow,
    {
        if self.minimize_to_tray {
            CloseAction::HideToTray
        } else {
            CloseAction::CloseWindow
        }
    }
}

/// What a tray-menu entry asks the shell to do.
#[derive(Clone, Copy, Debug, PartialEq, Eq, Structural)]
pub enum MenuCommand {
    /// Show the main window and focus it.
    ShowWindow,
    /// Hide the main window.
    HideWindow,
    /// Shut the server down and exit.
    Quit,
    /// An entry with no action, such as the status display.
    Ignore,
}

/// Maps a tray-menu entry's identifier to its command.
pub fn menu_command(id: &str) -> (c: MenuCommand)
    ensures
        id@ == "show"@ ==> c is ShowWindow,
        id@ == "hide"@ ==> c is HideWindow,
        id@ == "quit"@ ==> c is Quit,
        id@ != "show"@ && id@ != "hide"@ && id@ != "quit"@ ==> c is Ignore,
{
    proof {
        reveal_strlit("show");
        reveal_strlit("hide");
        reveal_strlit("quit");
        // The three identifiers differ already in their first
        // character, so no two of these branches can both match.
        assert("show"@[0] == 's' && "hide"@[0] == 'h' && "quit"@[0] == 'q');
    }
    let id_owned = id.to_owned();
    if id_owned == String::from_str("show") {
        MenuCommand::ShowWindow
    } else if id_owned == String::from_str("hide") {
        MenuCommand::HideWindow
    } else if id_owned == String::from_str("quit") {
        MenuCommand::Quit
    } else {
        MenuCommand::Ignore
    }
}

/// Where the shell's own log lines go.
pub enum LogTarget {
    /// A file in the application's log directory.
    LogDir { file_name: String },
    /// The standard output, used in development builds.
    Stdout,
}

/// The log targets of the shell: its log file always, and the
/// standard output too in a development build.
pub fn logging_targets(debug: bool) -> (targets: Vec<LogTarget>)
    ensures
        targets@.len() == (if debug { 2int } else { 1int }),
        targets@[0] matches LogTarget::LogDir { file_name } && file_name@ == "main"@,
        debug ==> targets@[1] is Stdout,
{
    let mut targets: Vec<LogTarget> = Vec::new();
    targets.push(LogTarget::LogDir { file_name: String::from_str("main") });
    if debug {
        targets.push(LogTarget::Stdout);
    }
    targets
}

} // verus!
