//! The command line of the firewall sub-command.

use vstd::prelude::*;
use std::path::PathBuf;

verus! {

/// Manage the robot's firewalls.
#[derive(Debug, Clone, PartialEq, Eq)]
pub struct Command {
    /// Restrict which hosts are modified using a regex expression.
    pub hosts: Option<String>,
    /// The directory to be used as the project root (defaults to the current
    /// directory).
    pub project_root: Option<PathBuf>,
    pub subcommand: SubCommand,
}

/// What is done to the firewalls.
#[derive(Debug, Clone, PartialEq, Eq)]
pub enum SubCommand {
    Disable(Disable),
    Reset(Reset),
    Pierce(Pierce),
}

/// Disable the firewalls.
#[derive(Debug, Clone, PartialEq, Eq)]
pub struct Disable {}

/// Reset the firewalls to their initial state.
#[derive(Debug, Clone, PartialEq, Eq)]
pub struct Reset {}

/// Creates an opening in the firewalls just to the local system.
#[derive(Debug, Clone, PartialEq, Eq)]
pub struct Pierce {
    /// The IP addresses or host names to open the firewalls to. All addresses
    /// that a host name resolves to are used. Without any, the addresses of
    /// all network interfaces of this computer are used.
    pub host: Vec<String>,
}

} // verus!
