//! A host-local secrets agent: the exposure model and its builder, recipient
//! selection, and the decisions of the materializers, of the child runner
//! and of the persistent mount.
pub mod cli;
pub mod exposures;
pub mod manager;
pub mod materialize;
pub mod process;
pub mod recipients;
pub mod secret;
pub mod state;
pub mod system;
pub mod text;

pub use exposures::{partition_specs, EnvExposeArgs, ExposureSpec, Exposures, FileExposeArgs};
pub use materialize::process_msg;
pub use process::ProcessRunningError;
pub use secret::{Secret, SecretError};
pub use state::{S3Config, StateBuilder, StateBuilderError, StorageConfig};
pub use system::{MountSecretsError, UnmountSecretsError};
