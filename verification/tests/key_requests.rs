use mailauth::http::Method;
use mailauth::message::AddressId;
use mailauth::requests::keys::{
    GetAddressKeysRequest, GetAllKeysRequest, GetPublicKeysRequest, GetUserKeysRequest,
};

#[test]
fn test_get_user_keys_request_build() {
    let req = GetUserKeysRequest;
    let data = req.build();
    assert_eq!(data.url, "core/v4/keys");
}

#[test]
fn test_get_address_keys_request_build() {
    let address_id = AddressId("test-address-id".to_string());
    let req = GetAddressKeysRequest::new(&address_id);
    let data = req.build();
    assert_eq!(data.url, "core/v4/keys/address/test-address-id");
}

#[test]
fn test_get_public_keys_request_build() {
    let req = GetPublicKeysRequest::new("test@example.com");
    let data = req.build();
    assert_eq!(data.url, "core/v4/keys?Email=test@example.com");
}

#[test]
fn test_get_all_keys_request_build() {
    let req = GetAllKeysRequest;
    let data = req.build();
    assert_eq!(data.url, "core/v4/keys/all");
}

#[test]
fn key_requests_are_bodyless_gets() {
    let data = GetUserKeysRequest.build();
    assert!(matches!(data.method, Method::Get));
    assert!(data.headers.is_empty());
    assert!(data.body.is_none());

    let data = GetAllKeysRequest.build();
    assert!(matches!(data.method, Method::Get));
    assert!(data.body.is_none());
}
