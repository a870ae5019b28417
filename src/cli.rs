//! The commands the agent accepts, as plain data, and the error that any of
//! them may end with.
use vstd::prelude::*;

use crate::manager::{CreateUpdateSecretError, EditSecretError};
use crate::process::ProcessRunningError;
use crate::system::{MountSecretsError, UnmountSecretsError};

verus! {

/// Mount all configured secrets in a fresh generation.
pub struct MountArgs {
    /// The base under which generations are mounted.
    pub mount_point: String,
    /// The stable link to the live generation.
    pub secret_dir: String,
    /// Default owner of the secrets (a user id).
    pub user: Option<u32>,
    /// Default group of the secrets (a group id).
    pub group: Option<u32>,
}

/// Unmount every generation and remove the stable link.
pub struct UnmountArgs {
    pub mount_point: String,
    pub secret_dir: String,
}

/// Run a command with its secrets exposed.
pub struct RunCommandArgs {
    pub cmd: Vec<String>,
}

/// Encrypt a plaintext file and store it as a secret.
pub struct UploadCommandArgs {
    pub secret_name: String,
    pub source_file: String,
}

/// Edit a secret in an editor.
pub struct EditCommandArgs {
    pub editor: String,
    pub secret_name: String,
}

pub enum SystemAction {
    Mount(Box<MountArgs>),
    Unmount(UnmountArgs),
}

pub enum SecretAction {
    Upload(UploadCommandArgs),
    Edit(EditCommandArgs),
}

pub enum Actions {
    System(SystemAction),
    Secret(SecretAction),
    RunCommand(RunCommandArgs),
}

/// How a command failed.
pub enum Error {
    MountingSecrets(MountSecretsError),
    UnmountingSecrets(UnmountSecretsError),
    RunningProcess(ProcessRunningError),
    UploadingSecret(CreateUpdateSecretError),
    EditingSecret(EditSecretError),
}

} // verus!
