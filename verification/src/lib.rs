//! Detects the terminal a process runs in and what it supports, and plans
//! the relaunch of the program in a better terminal.
//!
//! The library reads nothing and starts nothing. Its caller records the
//! environment in an [`EnvironmentSnapshot`] and the installed terminals in
//! an [`InstalledSoftware`], gets a terminal from [`find_current_terminal`]
//! and a [`LaunchPlan`] from [`relaunch_if_available`], runs the plan and
//! reports the outcome to [`launch_result`].

pub mod environment;
pub mod errors;
pub mod identification;
pub mod overrides;
pub mod relaunch;
pub mod shell;
pub mod signature;
pub mod terminal;
pub mod terminal_providers;
pub mod text;

pub use crate::environment::EnvironmentSnapshot;
pub use crate::errors::{RelaunchError, TermResult};
pub use crate::identification::{
    final_terminal_identifiers, find_current_terminal, get_all_terminal_identifiers,
    get_possible_terminal_identifiers_for, terminal_identifiers, CurrentTerminal,
    TerminalIdentifier,
};
pub use crate::overrides::{
    is_rgb_ansi_overridden, is_unicode_overridden, read_override, resolve_full_unicode,
    resolve_rgb_ansi_colours, set_rgb_ansi_override, set_unicode_support_override, store_override,
    FeatureOverrides,
};
pub use crate::relaunch::{
    find_alternative_terminal, get_preferred_terminals_for_os, get_provider_for_terminal,
    has_been_relaunched, launch_result, relaunch_if_available, relaunch_if_available_and_exit,
    relaunch_if_available_and_exit_with, should_attempt_relaunch,
    try_relaunch_in_preferred_terminal, LaunchOutcome, RelaunchState,
};
pub use crate::shell::{shell_escape, shell_escape_args};
pub use crate::signature::{
    check_for_windows_registry_delegation, TerminalSignature, TERM_PROGRAM_VAR, TERM_VAR,
};
pub use crate::terminal::{
    get_default_terminal_for_os, OperatingSystem, TargetOperatingSystem, TerminalType,
};
pub use crate::terminal_providers::{
    get_relaunch_params, AlacrittyProvider, GhosttyProvider, ITerm2Provider, InstalledSoftware,
    KittyProvider, LaunchPlan, RelaunchParams, TerminalProvider, WezTermProvider,
    WindowsTerminalProvider, RELAUNCHED_ARGUMENT,
};
