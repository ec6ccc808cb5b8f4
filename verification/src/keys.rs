//! Key domain types for the service's end-to-end encryption system:
//! user/address keys, public-key lookups and signed key lists.

use vstd::prelude::*;
use crate::message::Boolean;

verus! {

/// State flags of a stored key.
#[derive(Debug, Clone, Copy, PartialEq, Eq, Structural)]
pub enum KeyState {
    /// No state flag set.
    Unset,
    /// The key is trusted for verification.
    Trusted,
    /// The key is active for encryption.
    Active,
}

impl KeyState {
    /// The integer the API assigns to this state.
    pub fn value(&self) -> (v: u8)
        ensures
            v == self.spec_value(),
    {
        match self {
            KeyState::Unset => 0,
            KeyState::Trusted => 1,
            KeyState::Active => 2,
        }
    }

    pub open spec fn spec_value(&self) -> u8 {
        match self {
            KeyState::Unset => 0u8,
            KeyState::Trusted => 1u8,
            KeyState::Active => 2u8,
        }
    }
}

/// A user or address key as stored by the service.
#[derive(Debug)]
pub struct Key {
    /// Key API ID.
    pub id: String,
    /// Armored PGP private key.
    pub private_key: String,
    /// Token for migrated accounts (optional).
    pub token: Option<String>,
    /// Signature for migrated accounts (optional).
    pub signature: Option<String>,
    /// Whether this is the primary key.
    pub primary: Boolean,
    /// Key state flags.
    pub flags: Option<KeyState>,
}

/// Collection of keys (user or address keys).
pub type Keys = Vec<Key>;

/// Public key information for a recipient.
#[derive(Debug)]
pub struct PublicKey {
    /// Key state flags (optional, may be absent for external keys).
    pub flags: Option<KeyState>,
    /// Armored PGP public key.
    pub public_key: String,
}

/// Collection of public keys.
pub type PublicKeys = Vec<PublicKey>;

/// Signed key list for key operations.
#[derive(Debug)]
pub struct KeyList {
    /// JSON-encoded key list data.
    pub data: String,
    /// Signature of the key list.
    pub signature: String,
}

/// Entry in a key list.
#[derive(Debug)]
pub struct KeyListEntry {
    /// PGP fingerprint.
    pub fingerprint: String,
    /// SHA256 fingerprints.
    pub sha256_fingerprints: Vec<String>,
    /// Key state flags.
    pub flags: KeyState,
    /// Whether this is the primary key.
    pub primary: Boolean,
}

/// Recipient type for public key lookups.
#[derive(Debug, Clone, Copy, PartialEq, Eq, Structural)]
pub enum RecipientType {
    /// Internal recipient of the same service.
    Internal,
    /// External recipient.
    External,
}

impl RecipientType {
    /// The integer the API assigns to this recipient type.
    pub fn value(&self) -> (v: u8)
        ensures
            v == self.spec_value(),
    {
        match self {
            RecipientType::Internal => 1,
            RecipientType::External => 2,
        }
    }

    pub open spec fn spec_value(&self) -> u8 {
        match self {
            RecipientType::Internal => 1u8,
            RecipientType::External => 2u8,
        }
    }
}

/// Request payload for creating an address key.
#[derive(Debug)]
pub struct CreateAddressKeyReq {
    /// Address ID to associate the key with.
    pub address_id: String,
    /// Armored PGP private key.
    pub private_key: String,
    /// Whether this should be the primary key.
    pub primary: Boolean,
    /// Signed key list.
    pub signed_key_list: KeyList,
    /// Token for migrated accounts (optional).
    pub token: Option<String>,
    /// Signature for migrated accounts (optional).
    pub signature: Option<String>,
}

/// Request payload for making an address key primary.
#[derive(Debug)]
pub struct MakeAddressKeyPrimaryReq {
    /// Signed key list with the new primary key.
    pub signed_key_list: KeyList,
}

} // verus!
