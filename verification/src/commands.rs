//! Dispatch of the user-triggered tray-menu commands.
//!
//! The tray hands back the clicked menu item's identifier as a string;
//! parsing it and deciding the side effects each command asks for is done
//! here, so the driver only performs what the plan says.

use vstd::prelude::*;

verus! {

/// A user-triggered command surfaced by the tray menu.
#[derive(Debug, Clone, Copy, PartialEq, Eq)]
pub enum TrayCommand {
    /// Show and focus the main window.
    Open,
    /// Restart the backend: spawn a new, superseding generation.
    RestartBackend,
    /// Emit the onboarding-reset event and show the window.  A UI-only
    /// passthrough, not part of the supervisor's state machine.
    RunOnboarding,
    /// Terminate the whole application with exit code 0.
    Quit,
}

/// Which command a tray menu identifier names, if any.
pub open spec fn spec_parse_tray_command(id: Seq<char>) -> Option<TrayCommand> {
    if id == "open"@ {
        Some(TrayCommand::Open)
    } else if id == "restart-backend"@ {
        Some(TrayCommand::RestartBackend)
    } else if id == "run-onboarding"@ {
        Some(TrayCommand::RunOnboarding)
    } else if id == "quit"@ {
        Some(TrayCommand::Quit)
    } else {
        None
    }
}

/// Character-by-character string comparison, decided exactly by the views.
fn str_eq(a: &str, b: &str) -> (r: bool)
    ensures
        r == (a@ == b@),
{
    let la = a.unicode_len();
    let lb = b.unicode_len();
    if la != lb {
        return false;
    }
    let mut i: usize = 0;
    while i < la
        invariant
            i <= la,
            la == a@.len(),
            la == b@.len(),
            forall|j: int| 0 <= j < i ==> a@[j] == b@[j],
        decreases la - i,
    {
        if a.get_char(i) != b.get_char(i) {
            return false;
        }
        i = i + 1;
    }
    proof {
        assert(a@ =~= b@);
    }
    true
}

/// Parses a tray menu identifier into the command it names; unknown
/// identifiers dispatch nothing.
pub fn parse_tray_command(id: &str) -> (c: Option<TrayCommand>)
    ensures
        c == spec_parse_tray_command(id@),
{
    if str_eq(id, "open") {
        Some(TrayCommand::Open)
    } else if str_eq(id, "restart-backend") {
        Some(TrayCommand::RestartBackend)
    } else if str_eq(id, "run-onboarding") {
        Some(TrayCommand::RunOnboarding)
    } else if str_eq(id, "quit") {
        Some(TrayCommand::Quit)
    } else {
        None
    }
}

/// The side effects one tray command asks of the driver.
#[derive(Debug, Clone, Copy, PartialEq, Eq)]
pub struct CommandPlan {
    /// Show and focus the main window.
    pub show_main_window: bool,
    /// Re-enter the supervisor: allocate and spawn a new generation.
    pub restart_backend: bool,
    /// Emit the onboarding-reset UI event.
    pub emit_onboarding_reset: bool,
    /// Terminate the application with exit code 0.
    pub quit_app: bool,
}

/// What each tray command performs.
pub open spec fn spec_command_plan(command: TrayCommand) -> CommandPlan {
    match command {
        TrayCommand::Open => CommandPlan {
            show_main_window: true,
            restart_backend: false,
            emit_onboarding_reset: false,
            quit_app: false,
        },
        TrayCommand::RestartBackend => CommandPlan {
            show_main_window: false,
            restart_backend: true,
            emit_onboarding_reset: false,
            quit_app: false,
        },
        TrayCommand::RunOnboarding => CommandPlan {
            show_main_window: true,
            restart_backend: false,
            emit_onboarding_reset: true,
            quit_app: false,
        },
        TrayCommand::Quit => CommandPlan {
            show_main_window: false,
            restart_backend: false,
            emit_onboarding_reset: false,
            quit_app: true,
        },
    }
}

/// Decides the side effects of one tray command.
pub fn plan_for_command(command: TrayCommand) -> (p: CommandPlan)
    ensures
        p == spec_command_plan(command),
{
    match command {
        TrayCommand::Open => CommandPlan {
            show_main_window: true,
            restart_backend: false,
            emit_onboarding_reset: false,
            quit_app: false,
        },
        TrayCommand::RestartBackend => CommandPlan {
            show_main_window: false,
            restart_backend: true,
            emit_onboarding_reset: false,
            quit_app: false,
        },
        TrayCommand::RunOnboarding => CommandPlan {
            show_main_window: true,
            restart_backend: false,
            emit_onboarding_reset: true,
            quit_app: false,
        },
        TrayCommand::Quit => CommandPlan {
            show_main_window: false,
            restart_backend: false,
            emit_onboarding_reset: false,
            quit_app: true,
        },
    }
}

} // verus!
