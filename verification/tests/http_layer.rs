use mailauth::auth::AuthRefreshResponse;
use mailauth::http::{u32_to_string, Method, RequestBody, RequestData};
use mailauth::response::{BinaryResponse, NoResponse, StringResponse};
use mailauth::secret::SecretString;
use mailauth::session::{Session, SessionRefreshData};

#[test]
fn decimal_rendering_is_exact() {
    assert_eq!(u32_to_string(0), "0");
    assert_eq!(u32_to_string(7), "7");
    assert_eq!(u32_to_string(10), "10");
    assert_eq!(u32_to_string(150), "150");
    assert_eq!(u32_to_string(4294967295), "4294967295");
}

#[test]
fn request_builders_accumulate_headers_and_body() {
    let data = RequestData::new(Method::Post, "auth/v4/2fa".to_string())
        .header("x-custom", "1")
        .bearer_token("tok")
        .json(RequestBody::Totp { code: "000000".to_string() });
    assert_eq!(data.url, "auth/v4/2fa");
    assert!(matches!(data.method, Method::Post));
    assert_eq!(data.headers.len(), 2);
    assert_eq!(data.headers[0].name, "x-custom");
    assert_eq!(data.headers[0].value, "1");
    assert_eq!(data.headers[1].name, "authorization");
    assert_eq!(data.headers[1].value, "Bearer tok");
    assert!(matches!(data.body, Some(RequestBody::Totp { .. })));
}

#[test]
fn response_decoders() {
    assert_eq!(NoResponse::from_body(b"ignored"), ());
    assert_eq!(BinaryResponse::from_body(&[1, 2, 3]), vec![1, 2, 3]);
    assert_eq!(StringResponse::from_body(b"hello"), "hello");
    assert_eq!(StringResponse::from_body(b""), "");
    // Invalid UTF-8 decodes lossily instead of echoing the input bytes.
    assert_eq!(StringResponse::from_body(&[0xff]), "\u{FFFD}");
}

#[test]
fn snapshot_text_never_reveals_the_secrets() {
    let snapshot = SessionRefreshData {
        user_uid: SecretString::new("uid-secret-123".to_string()),
        token: SecretString::new("refresh-secret-456".to_string()),
    };
    let text = snapshot.display_string();
    assert!(!text.contains("uid-secret-123"));
    assert!(!text.contains("refresh-secret-456"));

    // The rendering is the same whatever the secrets are: it carries no
    // information about them.
    let other = SessionRefreshData {
        user_uid: SecretString::new("other".to_string()),
        token: SecretString::new("values".to_string()),
    };
    assert_eq!(text, other.display_string());
}

#[test]
fn snapshot_equality_compares_the_wrapped_values() {
    let a = SessionRefreshData {
        user_uid: SecretString::new("u".to_string()),
        token: SecretString::new("t".to_string()),
    };
    let b = SessionRefreshData {
        user_uid: SecretString::new("u".to_string()),
        token: SecretString::new("t".to_string()),
    };
    let c = SessionRefreshData {
        user_uid: SecretString::new("u".to_string()),
        token: SecretString::new("other".to_string()),
    };
    assert!(a == b);
    assert!(a != c);
}

#[test]
fn refresh_data_round_trips_through_a_session() {
    let session = Session::from_refresh_response(&AuthRefreshResponse {
        uid: "uid-9".to_string(),
        access_token: "acc".to_string(),
        refresh_token: "ref-9".to_string(),
    });
    let snapshot = session.get_refresh_data();
    assert_eq!(snapshot.user_uid.expose_secret(), "uid-9");
    assert_eq!(snapshot.token.expose_secret(), "ref-9");

    // The exported pair is enough to build the reconnect request.
    let req = Session::refresh(&mailauth::auth::UserUid("uid-9".to_string()), "ref-9");
    assert_eq!(req.url, "auth/v4/refresh");
    match req.body.expect("refresh body") {
        RequestBody::AuthRefresh { uid, refresh_token } => {
            assert_eq!(uid, "uid-9");
            assert_eq!(refresh_token, "ref-9");
        }
        _ => panic!("wrong refresh body"),
    }
}
