//! Account domain types.

use vstd::prelude::*;

verus! {

/// The account's own profile data.
#[derive(Debug)]
pub struct User {
    /// User API ID.
    pub id: String,
    /// Account name.
    pub name: String,
    /// Primary email address.
    pub email: String,
    /// Used storage in bytes.
    pub used_space: u64,
    /// Storage quota in bytes.
    pub max_space: u64,
}

} // verus!
