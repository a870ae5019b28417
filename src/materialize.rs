//! What the file and env materializers compute once a secret's plaintext is
//! in hand: where each file goes and with what mode and owner, which
//! variables a child receives, and which vanity links to remove afterwards.
use vstd::prelude::*;
use vstd::utf8::{decode_utf8, valid_utf8};

use crate::exposures::{
    env_views,
    file_views,
    opt_str_view,
    EnvExposeArgs,
    Exposures,
    FileExposeArgs,
    FileSpecView,
};
use crate::state::{collect_vanity_paths, vanity_paths};
use crate::text::{join_path, path_join, strs_view};

verus! {

/// The mode of a materialized file unless its exposure gives one: readable
/// by the owner only.
pub const FILE_PERMISSIONS: u32 = 0o400;

/// Relies on `String::from_utf8`: it succeeds exactly on valid UTF-8, and
/// the string then holds the decoded characters.
#[verifier::external_body]
fn utf8_string(raw: Vec<u8>) -> (r: Option<String>)
    ensures
        r is Some == valid_utf8(raw@),
        r matches Some(s) ==> s@ == decode_utf8(raw@),
{
    String::from_utf8(raw).ok()
}

/// What a subprocess printed, as text: its bytes decoded as UTF-8, or
/// `<Unknown>` where they are not valid UTF-8.
pub open spec fn process_text(raw: Seq<u8>) -> Seq<char> {
    if valid_utf8(raw) {
        decode_utf8(raw)
    } else {
        "<Unknown>"@
    }
}

/// The message that the subprocess `process_name` printed.
pub fn process_msg(process_name: &str, raw: Vec<u8>) -> (r: String)
    ensures
        r@ == process_text(raw@),
{
    match utf8_string(raw) {
        Some(s) => s,
        None => "<Unknown>".to_owned(),
    }
}

/// Where and how one file exposure is written.
pub struct FileTarget {
    /// The file that receives the plaintext.
    pub dest: String,
    pub mode: u32,
    /// `None` leaves the owner unchanged.
    pub owner: Option<u32>,
    /// `None` leaves the group unchanged.
    pub group: Option<u32>,
    /// A symlink to create at this path, pointing at `dest`.
    pub link: Option<String>,
}

/// `t` is how `spec` of the secret `name` is written under `root`.
pub open spec fn target_of(t: FileTarget, root: Seq<char>, name: Seq<char>, spec: FileExposeArgs) -> bool {
    &&& t.dest@ == path_join(root, name)
    &&& t.mode == match spec.mode {
        Some(m) => m,
        None => FILE_PERMISSIONS,
    }
    &&& t.owner == spec.owner
    &&& t.group == spec.group
    &&& opt_str_view(t.link) == opt_str_view(spec.vanity_path)
}

/// The files to write for the exposures `specs` of the secret `name`, one
/// per exposure, in order, all under `root`.
pub fn file_targets(root: &str, name: &String, specs: &Vec<FileExposeArgs>) -> (r: Vec<FileTarget>)
    ensures
        r@.len() == specs@.len(),
        forall|i: int| 0 <= i < r@.len() ==> target_of(#[trigger] r@[i], root@, name@, specs@[i]),
{
    let mut out: Vec<FileTarget> = Vec::new();
    let mut i: usize = 0;
    while i < specs.len()
        invariant
            i <= specs@.len(),
            out@.len() == i,
            forall|j: int| 0 <= j < i ==> target_of(#[trigger] out@[j], root@, name@, specs@[j]),
        decreases specs@.len() - i,
    {
        let spec = &specs[i];
        let mode = match spec.mode {
            Some(m) => m,
            None => FILE_PERMISSIONS,
        };
        let link = match &spec.vanity_path {
            Some(p) => Some(p.clone()),
            None => None,
        };
        out.push(
            FileTarget {
                dest: join_path(root, name.as_str()),
                mode,
                owner: spec.owner,
                group: spec.group,
                link,
            },
        );
        i = i + 1;
    }
    out
}

/// Why a secret could not be decrypted.
pub enum DecryptionError {
    ReadingArmoredSecret(String),
    ReadingSecretKey(String),
    OpeningOutputFile(String),
    DecryptingSecret(String),
    /// The ciphertext is encrypted to a passphrase, which is not supported.
    PassphraseEncryptedFile,
    WritingSecret(String),
}

/// Why a secret could not be exposed as environment variables.
pub enum EnvExposureError {
    FetchingSecret(String),
    DecryptingSecret(DecryptionError),
    /// The plaintext of the named secret is not valid UTF-8.
    NotValidUTF8(String),
}

/// The variables that the exposures `specs` of the secret `name` set, each
/// to the whole plaintext, in order; refused where the plaintext is not
/// UTF-8.
pub fn env_assignments(name: &String, plaintext: Vec<u8>, specs: &Vec<EnvExposeArgs>) -> (r: Result<
    Vec<(String, String)>,
    EnvExposureError,
>)
    ensures
        match r {
            Ok(v) => {
                &&& valid_utf8(plaintext@)
                &&& v@.len() == specs@.len()
                &&& forall|i: int|
                    0 <= i < v@.len() ==> (#[trigger] v@[i]).0@ == specs@[i].name@ && v@[i].1@
                        == decode_utf8(plaintext@)
            },
            Err(e) => {
                &&& !valid_utf8(plaintext@)
                &&& e matches EnvExposureError::NotValidUTF8(n) && n@ == name@
            },
        },
{
    let ghost bytes = plaintext@;
    let text = match utf8_string(plaintext) {
        Some(s) => s,
        None => {
            return Err(EnvExposureError::NotValidUTF8(name.clone()));
        },
    };
    let mut out: Vec<(String, String)> = Vec::new();
    let mut i: usize = 0;
    while i < specs.len()
        invariant
            i <= specs@.len(),
            out@.len() == i,
            text@ == decode_utf8(bytes),
            forall|j: int|
                0 <= j < i ==> (#[trigger] out@[j]).0@ == specs@[j].name@ && out@[j].1@
                    == decode_utf8(bytes),
        decreases specs@.len() - i,
    {
        out.push((specs[i].name.clone(), text.clone()));
        i = i + 1;
    }
    Ok(out)
}

/// Every vanity link that the file exposures create, in order: the links
/// to remove once the child has exited.
pub fn cleanup_paths(exposures: &Exposures) -> (r: Vec<String>)
    ensures
        strs_view(r@) == vanity_paths(file_views(exposures.files@)),
{
    collect_vanity_paths(&exposures.files)
}

/// Every vanity link that a file exposure asks for is on the list of links
/// removed once the child has exited.
pub proof fn lemma_every_link_cleaned(specs: Seq<FileSpecView>, i: int)
    requires
        0 <= i < specs.len(),
        specs[i].vanity_path is Some,
    ensures
        vanity_paths(specs).contains(specs[i].vanity_path->0),
    decreases specs.len(),
{
    let p = specs[i].vanity_path->0;
    let r = vanity_paths(specs.drop_last());
    if i == specs.len() - 1 {
        assert(r.push(p)[r.len() as int] == p);
    } else {
        assert(specs.drop_last()[i] == specs[i]);
        lemma_every_link_cleaned(specs.drop_last(), i);
        let j = choose|j: int| 0 <= j < r.len() && r[j] == p;
        match specs.last().vanity_path {
            Some(q) => {
                assert(r.push(q)[j] == p);
            },
            None => {},
        }
    }
}

/// A vanity link that could not be removed, and why.
pub struct FileCleanupError(pub String, pub String);

impl FileCleanupError {
    /// The error as one line of text.
    pub fn message(&self) -> (r: String)
        ensures
            r@ == "not able to clean up symlink at "@ + self.0@ + ": "@ + self.1@,
    {
        "not able to clean up symlink at ".to_owned().concat(self.0.as_str()).concat(": ").concat(
            self.1.as_str(),
        )
    }
}

} // verus!
