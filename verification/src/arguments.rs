//! The command line of the assistant, as the values it is parsed into.

use vstd::prelude::*;
use std::path::PathBuf;

pub mod firewall;

verus! {

/// `std::path::PathBuf`, which is carried through and never looked into.
#[verifier::external_type_specification]
#[verifier::external_body]
pub struct ExPathBuf(PathBuf);

/// Manages robot workspaces, deployment, and integration with Home Assistant.
#[derive(Debug, Clone, PartialEq, Eq)]
pub struct RosAssistant {
    /// The remote build machines used to build the project, each given as
    /// `ssh://hostname x86_64-linux aarch64-linux`.
    pub build_machine: Vec<String>,
    pub subcommand: SubCommand,
}

/// What the assistant is asked to do.
#[derive(Debug, Clone, PartialEq, Eq)]
pub enum SubCommand {
    NewProject(NewProject),
    Deploy(Deploy),
    Ssh(SshCommand),
    Firewall(firewall::Command),
}

/// Create a new robot project.
#[derive(Debug, Clone, PartialEq, Eq)]
pub struct NewProject {}

/// Build and deploy a project.
#[derive(Debug, Clone, PartialEq, Eq)]
pub struct Deploy {
    /// Restrict which hosts are deployed using a regex expression.
    pub hosts: Option<String>,
    /// The directory to be used as the project root (defaults to the current
    /// directory).
    pub project_root: Option<PathBuf>,
    pub deploy_type: DeployType,
}

/// How a project is deployed.
#[derive(Debug, Clone, PartialEq, Eq)]
pub enum DeployType {
    Ssh(SshDeploy),
    DiskImage(DiskImage),
    InstallerIso(InstallerISO),
}

/// Build and deploy a project over ssh.
#[derive(Debug, Clone, PartialEq, Eq)]
pub struct SshDeploy {
    /// Makes the configuration the new boot default.
    pub switch: bool,
    /// Override the default ssh destination (only works if deploying to a
    /// single host).
    pub destination: Option<String>,
}

/// Build a project and create an initial boot disk image for it.
#[derive(Debug, Clone, PartialEq, Eq)]
pub struct DiskImage {
    /// Override the default link path for the project.
    pub link_path: Option<PathBuf>,
}

/// Build an ISO image for performing unattended installations of the disk
/// image. The image is destructive to any machine it is deployed on.
#[derive(Debug, Clone, PartialEq, Eq)]
pub struct InstallerISO {
    /// Override the default link path for the project.
    pub link_path: Option<PathBuf>,
}

/// Ssh into the robot's computer.
#[derive(Debug, Clone, PartialEq, Eq)]
pub struct SshCommand {
    /// The directory to be used as the project root (defaults to the current
    /// directory).
    pub project_root: Option<PathBuf>,
    pub host: Option<String>,
}

} // verus!
