//! Viewing keys: per-identity credentials that are stored as fixed-width hashes.

use sha2::Digest;
use sha2::Sha256;
use subtle::ConstantTimeEq;
use vstd::prelude::*;

verus! {

/// Width in bytes of a stored viewing-key hash.
pub const VIEWING_KEY_SIZE: usize = 32;

/// The SHA-256 digest of the UTF-8 encoding of a text.
pub uninterp spec fn sha256_of_text(text: Seq<char>) -> Seq<u8>;

/// Hashes a password with `sha2::Sha256::digest`. The contract names the
/// digest of the text and claims nothing else about it.
#[verifier::external_body]
pub(crate) fn create_hashed_password(s1: &str) -> (hashed: [u8; 32])
    ensures
        hashed@ == sha256_of_text(s1@),
{
    let digest = Sha256::digest(s1.as_bytes());
    let mut hashed = [0u8; 32];
    hashed.copy_from_slice(&digest[..]);
    hashed
}

/// Compares two byte strings with `subtle::ConstantTimeEq::ct_eq` on slices,
/// which answers whether they have the same length and the same bytes and
/// takes a time that does not depend on the bytes.
#[verifier::external_body]
pub(crate) fn ct_slice_compare(s1: &[u8], s2: &[u8]) -> (same: bool)
    ensures
        same == (s1@ == s2@),
{
    bool::from(s1.ct_eq(s2))
}

/// A viewing key as its holder presents it.
#[derive(Clone, Debug, PartialEq, Eq)]
pub struct ViewingKey(pub String);

impl ViewingKey {
    /// The hash under which this key is stored.
    pub open spec fn hashed(&self) -> Seq<u8> {
        sha256_of_text(self.0@)
    }

    /// Whether this key hashes to `hashed_pw`.
    pub fn check_viewing_key(&self, hashed_pw: &[u8]) -> (valid: bool)
        ensures
            valid == (self.hashed() == hashed_pw@),
    {
        let mine_hashed = create_hashed_password(self.0.as_str());
        ct_slice_compare(mine_hashed.as_slice(), hashed_pw)
    }

    /// The hash to store for this key.
    pub fn to_hashed(&self) -> (hashed: [u8; 32])
        ensures
            hashed@ == self.hashed(),
    {
        create_hashed_password(self.0.as_str())
    }

    /// The key's text.
    pub fn text(&self) -> (text: String)
        ensures
            text@ == self.0@,
    {
        self.0.clone()
    }
}

/// Authenticates a presented key against the hash on file, if any.
///
/// When no hash is on file the presented key is still hashed and compared,
/// against an all-zero placeholder, so that the absence of a key cannot be
/// told from a wrong key by timing; the answer is then `false` whatever the
/// comparison gave.
pub fn is_key_valid(stored: Option<[u8; 32]>, viewing_key: String) -> (valid: bool)
    ensures
        valid == match stored {
            Some(expected) => sha256_of_text(viewing_key@) == expected@,
            None => false,
        },
{
    let input_key = ViewingKey(viewing_key);
    match stored {
        Some(expected_key) => input_key.check_viewing_key(expected_key.as_slice()),
        None => {
            let placeholder = [0u8; 32];
            let _ = input_key.check_viewing_key(placeholder.as_slice());
            false
        },
    }
}

} // verus!
