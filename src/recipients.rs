//! Choosing the recipients a secret is encrypted to: each configured key is
//! read as an age x25519 recipient, or else as an SSH recipient, and keys
//! that are neither are skipped.
use vstd::prelude::*;

use crate::text::strs_view;

verus! {

#[verifier::external_type_specification]
#[verifier::external_body]
pub struct ExX25519Recipient(age::x25519::Recipient);

#[verifier::external_type_specification]
#[verifier::external_body]
pub struct ExSshRecipient(age::ssh::Recipient);

/// Whether age reads `s` as an x25519 recipient (`age1...`).
pub uninterp spec fn x25519_parses(s: Seq<char>) -> bool;

/// Whether age reads `s` as a supported SSH public key.
pub uninterp spec fn ssh_parses(s: Seq<char>) -> bool;

/// Relies on `FromStr for age::x25519::Recipient`: a Bech32 decoding of the
/// text alone, so whether it succeeds depends on `s` only.
#[verifier::external_body]
fn read_x25519(s: &str) -> (r: Option<age::x25519::Recipient>)
    ensures
        r is Some == x25519_parses(s@),
{
    s.parse::<age::x25519::Recipient>().ok()
}

/// Relies on `FromStr for age::ssh::Recipient`: a parse of the text alone,
/// so whether it succeeds depends on `s` only.
#[verifier::external_body]
fn read_ssh(s: &str) -> (r: Option<age::ssh::Recipient>)
    ensures
        r is Some == ssh_parses(s@),
{
    s.parse::<age::ssh::Recipient>().ok()
}

/// A parsed recipient.
pub enum RecipientKey {
    X25519(age::x25519::Recipient),
    Ssh(age::ssh::Recipient),
}

/// The kind of recipient that `s` is read as, if any: x25519 is tried
/// first.
pub enum KeyKind {
    X25519,
    Ssh,
}

pub open spec fn key_kind(s: Seq<char>) -> Option<KeyKind> {
    if x25519_parses(s) {
        Some(KeyKind::X25519)
    } else if ssh_parses(s) {
        Some(KeyKind::Ssh)
    } else {
        None
    }
}

pub open spec fn kind_of(k: RecipientKey) -> KeyKind {
    match k {
        RecipientKey::X25519(_) => KeyKind::X25519,
        RecipientKey::Ssh(_) => KeyKind::Ssh,
    }
}

/// Why recipients could not be chosen.
pub enum EncryptionError {
    /// No configured key is a recipient.
    NoRecipientsFound,
    /// The key is not a recipient.
    InvalidRecipients,
}

/// Reads one key as a recipient.
pub fn parse_recipient(s: &str) -> (r: Result<RecipientKey, EncryptionError>)
    ensures
        match r {
            Ok(k) => key_kind(s@) == Some(kind_of(k)),
            Err(e) => key_kind(s@) is None && e is InvalidRecipients,
        },
{
    if let Some(pk) = read_x25519(s) {
        Ok(RecipientKey::X25519(pk))
    } else if let Some(pk) = read_ssh(s) {
        Ok(RecipientKey::Ssh(pk))
    } else {
        Err(EncryptionError::InvalidRecipients)
    }
}

/// The kinds of the keys of `keys` that are recipients, in order.
pub open spec fn accepted_kinds(keys: Seq<Seq<char>>) -> Seq<KeyKind>
    decreases keys.len(),
{
    if keys.len() == 0 {
        Seq::empty()
    } else {
        let r = accepted_kinds(keys.drop_last());
        match key_kind(keys.last()) {
            Some(k) => r.push(k),
            None => r,
        }
    }
}

/// Reads every key that is a recipient, skipping the others; fails when
/// none is.
pub fn parse_recipients(keys: &Vec<String>) -> (r: Result<Vec<RecipientKey>, EncryptionError>)
    ensures
        match r {
            Ok(v) => v@.len() > 0 && v@.map_values(|k: RecipientKey| kind_of(k)) == accepted_kinds(
                strs_view(keys@),
            ),
            Err(e) => accepted_kinds(strs_view(keys@)).len() == 0 && e is NoRecipientsFound,
        },
{
    let mut out: Vec<RecipientKey> = Vec::new();
    let mut i: usize = 0;
    while i < keys.len()
        invariant
            i <= keys@.len(),
            out@.map_values(|k: RecipientKey| kind_of(k)) == accepted_kinds(
                strs_view(keys@.subrange(0, i as int)),
            ),
        decreases keys@.len() - i,
    {
        let ghost pre = strs_view(keys@.subrange(0, i as int));
        let ghost next = strs_view(keys@.subrange(0, i as int + 1));
        assert(next.drop_last() =~= pre);
        assert(next.last() == keys@[i as int]@);
        let ghost before = out@;
        match parse_recipient(keys[i].as_str()) {
            Ok(k) => {
                let ghost kk = kind_of(k);
                out.push(k);
                assert(out@.map_values(|k: RecipientKey| kind_of(k)) =~= before.map_values(
                    |k: RecipientKey| kind_of(k),
                ).push(kk));
            },
            Err(_) => {},
        }
        i = i + 1;
    }
    assert(keys@.subrange(0, keys@.len() as int) =~= keys@);
    if out.len() == 0 {
        return Err(EncryptionError::NoRecipientsFound);
    }
    Ok(out)
}

} // verus!
