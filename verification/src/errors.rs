//! The errors of the supervisor.

use crate::messages::CommandMsg;
use vstd::prelude::*;

verus! {

/// An operating-system error, carried through as an opaque value.
#[verifier::external_type_specification]
#[verifier::external_body]
pub struct ExIoError(std::io::Error);

/// A configuration syntax error, carried through as an opaque value.
#[verifier::external_type_specification]
#[verifier::external_body]
pub struct ExTomlError(toml::de::Error);

/// Everything that can go wrong in the supervisor. Each variant that concerns
/// one program carries that program's name and the underlying cause.
#[allow(clippy::enum_variant_names)]
#[derive(Debug)]
pub enum SupersError {
    /// The application configuration could not be parsed.
    ApplicationConfigParseError(toml::de::Error),
    /// The application configuration file could not be read.
    ApplicationConfigFileError(std::io::Error),
    /// The worker thread of a program could not be started.
    ProgramThreadStartError(String, std::io::Error),
    /// Polling the child of a program failed.
    ProgramCheckProcessStatusError(String, std::io::Error),
    /// Receiving from the mailbox of a program failed.
    ProgramCmdChannelError(String, std::io::Error),
    /// The child of a program could not be launched.
    ProgramProcessSpawnError(String, std::io::Error),
    /// The exit status of the child of a program could not be collected.
    ProgramProcessExitError(String, std::io::Error),
    /// The child of a program could not be killed.
    ProgramProcessKillError(String, std::io::Error),
    /// A command could not be put on a mailbox; `source` is that command.
    ProgramCommandChannelSendError { source: CommandMsg },
}

} // verus!
