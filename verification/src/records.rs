//! Plain data carriers exchanged with the external collaborators: opaque
//! client-side ciphertext, key metadata, geography lookup results, and
//! aggregate counters. The core stores and forwards these without
//! interpreting them.

use vstd::prelude::*;

verus! {

/// An opaque encrypted blob. Encryption happens client-side; the core only
/// carries the ciphertext and its nonce.
#[derive(Clone, Debug)]
pub struct EncryptedData {
    pub ciphertext: String,
    pub nonce: String,
}

impl EncryptedData {
    pub fn new(ciphertext: String, nonce: String) -> (d: Self)
        ensures
            d.ciphertext == ciphertext,
            d.nonce == nonce,
    {
        Self { ciphertext, nonce }
    }
}

/// Metadata of a user's encryption key. The key itself is derived
/// client-side and never reaches this core.
pub struct UserEncryptionKey {
    pub user_id: String,
}

impl UserEncryptionKey {
    pub fn new(user_id: String) -> (k: Self)
        ensures
            k.user_id == user_id,
    {
        Self { user_id }
    }
}

/// A country as the geography lookup collaborator reports it.
#[derive(Clone, Debug)]
pub struct CountryInfo {
    pub code: String,
    pub name: String,
}

/// Per-sensitivity-mode request counters of the statistics surface.
#[derive(Clone, Copy, Debug)]
pub struct SensitivityBreakdown {
    pub conservative: i32,
    pub balanced: i32,
    pub aggressive: i32,
}

/// A domain and how often it was seen.
#[derive(Clone, Debug)]
pub struct DomainCount {
    pub domain: String,
    pub count: i64,
}

} // verus!
