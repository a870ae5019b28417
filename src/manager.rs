//! The secret manager's decisions for uploading and editing secrets: which
//! secret is meant, and how an edit ends.
use vstd::prelude::*;

use crate::materialize::DecryptionError;
use crate::recipients::EncryptionError;
use crate::secret::{find_secret, first_named_at, has_secret, Secret};

verus! {

/// Why a secret could not be created or updated.
pub enum CreateUpdateSecretError {
    NoSuchSecret(String),
    ReadSourceData(String),
    WritingToStore(String),
    EncryptingSecret(EncryptionError),
}

/// Why a secret could not be uploaded.
pub enum UploadSecretError {
    NoSuchSecret(String),
    ReadingSourceFile(String),
    EncryptingData(EncryptionError),
    WritingToStore(String),
}

/// Why a secret could not be edited.
pub enum EditSecretError {
    NoSuchSecret(String),
    CreatingTempFile(String),
    OpeningTempFile(String),
    FetchingFromStore(String),
    DecryptingSecret(DecryptionError),
    EncryptingSecret(EncryptionError),
    WritingToStore(String),
    InvokingEditor(String),
    /// The editor exited unsuccessfully, with this exit code if it had one.
    EditorBadExit(Option<i32>),
}

/// The configured secrets and the key files that decrypt them.
pub struct SecretManager {
    pub secrets: Vec<Secret>,
    pub private_key_paths: Vec<String>,
}

impl SecretManager {
    pub fn new(secrets: Vec<Secret>, private_key_paths: Vec<String>) -> (r: Self)
        ensures
            r.secrets == secrets,
            r.private_key_paths == private_key_paths,
    {
        SecretManager { secrets, private_key_paths }
    }

    /// The secret named `name`, to upload to.
    pub fn upload_target(&self, name: &str) -> (r: Result<&Secret, UploadSecretError>)
        ensures
            match r {
                Ok(s) => exists|i: int|
                    first_named_at(self.secrets@, name@, i) && self.secrets@[i] == *s,
                Err(e) => {
                    &&& !has_secret(self.secrets@, name@)
                    &&& e matches UploadSecretError::NoSuchSecret(n) && n@ == name@
                },
            },
    {
        match find_secret(&self.secrets, name) {
            Some(s) => Ok(s),
            None => Err(UploadSecretError::NoSuchSecret(name.to_owned())),
        }
    }

    /// The secret named `name`, to edit.
    pub fn edit_target(&self, name: &str) -> (r: Result<&Secret, EditSecretError>)
        ensures
            match r {
                Ok(s) => exists|i: int|
                    first_named_at(self.secrets@, name@, i) && self.secrets@[i] == *s,
                Err(e) => {
                    &&& !has_secret(self.secrets@, name@)
                    &&& e matches EditSecretError::NoSuchSecret(n) && n@ == name@
                },
            },
    {
        match find_secret(&self.secrets, name) {
            Some(s) => Ok(s),
            None => Err(EditSecretError::NoSuchSecret(name.to_owned())),
        }
    }
}

/// The outcome of the editor: an unsuccessful exit ends the edit.
pub fn editor_outcome(success: bool, code: Option<i32>) -> (r: Result<(), EditSecretError>)
    ensures
        r is Ok <==> success,
        r matches Err(e) ==> e == EditSecretError::EditorBadExit(code),
{
    if success {
        Ok(())
    } else {
        Err(EditSecretError::EditorBadExit(code))
    }
}

} // verus!
