//! The ways in which a relaunch can fail.

use crate::terminal::TerminalType;
use vstd::prelude::*;

verus! {

/// The error of the standard library's input and output. It is carried
/// through as it came: nothing is read from it.
#[verifier::external_type_specification]
#[verifier::external_body]
pub struct ExIoError(std::io::Error);

/// Errors of a relaunch.
#[derive(Debug)]
pub enum RelaunchError {
    /// No preferred terminal is installed.
    NoAlternativeTerminalFound,
    /// The provider of the terminal cannot work on this operating system.
    UnsupportedTerminalProvider(TerminalType),
    /// The helper that launches the terminal ended without success; with
    /// its exit code, where it had one.
    FailedToLaunchTerminal(TerminalType, Option<i32>),
    /// Starting the launcher failed.
    IOError(std::io::Error),
}

/// The result of an operation of this library.
pub type TermResult<T> = Result<T, RelaunchError>;

} // verus!
