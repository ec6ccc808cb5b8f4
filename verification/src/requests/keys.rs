//! Key management API endpoints: fetching user, address and public keys.

use vstd::prelude::*;
use crate::http::{Header, Method, RequestData};
use crate::keys::{Keys, PublicKeys, RecipientType};
use crate::message::AddressId;

verus! {

/// Request to get the user's private keys.
///
/// Endpoint: GET core/v4/keys
pub struct GetUserKeysRequest;

/// Response to [`GetUserKeysRequest`].
#[derive(Debug)]
pub struct GetUserKeysResponse {
    pub keys: Keys,
}

impl GetUserKeysRequest {
    pub fn build(&self) -> (r: RequestData)
        ensures
            r.method == Method::Get,
            r.url@ == "core/v4/keys"@,
            r.headers@ == Seq::<Header>::empty(),
            r.body is None,
    {
        RequestData::new(Method::Get, String::from_str("core/v4/keys"))
    }
}

/// Request to get keys for a specific address.
///
/// Endpoint: GET core/v4/keys/address/{addressId}
pub struct GetAddressKeysRequest {
    address_id: AddressId,
}

/// Response to [`GetAddressKeysRequest`].
#[derive(Debug)]
pub struct GetAddressKeysResponse {
    pub keys: Keys,
}

impl GetAddressKeysRequest {
    /// The address whose keys are requested.
    pub closed spec fn spec_address_id(&self) -> Seq<char> {
        self.address_id@
    }

    pub fn new(address_id: &AddressId) -> (r: Self)
        ensures
            r.spec_address_id() == address_id@,
    {
        GetAddressKeysRequest { address_id: address_id.clone() }
    }

    pub fn build(&self) -> (r: RequestData)
        ensures
            r.method == Method::Get,
            r.url@ == "core/v4/keys/address/"@ + self.spec_address_id(),
            r.headers@ == Seq::<Header>::empty(),
            r.body is None,
    {
        let mut url = String::from_str("core/v4/keys/address/");
        url.append(self.address_id.0.as_str());
        RequestData::new(Method::Get, url)
    }
}

/// Request to get public keys for an email address.
///
/// Endpoint: GET core/v4/keys?Email={email}
pub struct GetPublicKeysRequest {
    email: String,
}

/// Response to [`GetPublicKeysRequest`].
#[derive(Debug)]
pub struct GetPublicKeysResponse {
    /// The recipient's public keys.
    pub keys: PublicKeys,
    /// The recipient type (internal or external).
    pub recipient_type: RecipientType,
}

impl GetPublicKeysRequest {
    /// The email address whose public keys are requested.
    pub closed spec fn spec_email(&self) -> Seq<char> {
        self.email@
    }

    pub fn new(email: &str) -> (r: Self)
        ensures
            r.spec_email() == email@,
    {
        GetPublicKeysRequest { email: String::from_str(email) }
    }

    pub fn build(&self) -> (r: RequestData)
        ensures
            r.method == Method::Get,
            r.url@ == "core/v4/keys?Email="@ + self.spec_email(),
            r.headers@ == Seq::<Header>::empty(),
            r.body is None,
    {
        let mut url = String::from_str("core/v4/keys?Email=");
        url.append(self.email.as_str());
        RequestData::new(Method::Get, url)
    }
}

/// Request to get all keys for all addresses of the user.
///
/// Endpoint: GET core/v4/keys/all
pub struct GetAllKeysRequest;

/// Response to [`GetAllKeysRequest`].
#[derive(Debug)]
pub struct GetAllKeysResponse {
    /// Pairs of address ID and that address's keys.
    pub address_keys: Vec<(String, AddressKeys)>,
    /// User keys.
    pub user_keys: UserKeys,
}

impl GetAllKeysResponse {
    /// The address entries act as a map keyed by address ID: the IDs are
    /// pairwise distinct.
    pub open spec fn wf(&self) -> bool {
        forall|i: int, j: int|
            0 <= i < j < self.address_keys@.len() ==> (#[trigger] self.address_keys@[i].0)@
                != (#[trigger] self.address_keys@[j].0)@
    }
}

/// Keys of one address in a [`GetAllKeysResponse`].
#[derive(Debug)]
pub struct AddressKeys {
    pub keys: Keys,
}

/// User keys in a [`GetAllKeysResponse`].
#[derive(Debug)]
pub struct UserKeys {
    pub keys: Keys,
}

impl GetAllKeysRequest {
    pub fn build(&self) -> (r: RequestData)
        ensures
            r.method == Method::Get,
            r.url@ == "core/v4/keys/all"@,
            r.headers@ == Seq::<Header>::empty(),
            r.body is None,
    {
        RequestData::new(Method::Get, String::from_str("core/v4/keys/all"))
    }
}

} // verus!
