use mailauth::auth::AuthRefreshResponse;
use mailauth::http::{ApiError, HttpError, RequestBody, RequestData};
use mailauth::session::{Session, WrapAction, WrapEvent, WrapState};

fn fresh_session() -> Session {
    Session::from_refresh_response(&AuthRefreshResponse {
        uid: "uid-1".to_string(),
        access_token: "access-1".to_string(),
        refresh_token: "refresh-1".to_string(),
    })
}

fn unauthorized() -> HttpError {
    HttpError::Api(ApiError {
        http_code: 401,
        api_code: 0,
        message: "invalid access token".to_string(),
        human_verification: None,
    })
}

fn refresh_ok() -> AuthRefreshResponse {
    AuthRefreshResponse {
        uid: "uid-1".to_string(),
        access_token: "access-2".to_string(),
        refresh_token: "refresh-2".to_string(),
    }
}

fn auth_headers(req: &RequestData) -> (String, String) {
    let uid = req
        .headers
        .iter()
        .find(|h| h.name == "x-pm-uid")
        .expect("uid header present")
        .value
        .clone();
    let bearer = req
        .headers
        .iter()
        .find(|h| h.name == "authorization")
        .expect("authorization header present")
        .value
        .clone();
    (uid, bearer)
}

#[test]
fn wrap_attaches_the_current_credentials() {
    let session = fresh_session();
    let call = session.get_user();
    let req = match call.action {
        WrapAction::Execute(req) => req,
        _ => panic!("expected an execute action"),
    };
    assert_eq!(req.url, "core/v4/users");
    let (uid, bearer) = auth_headers(&req);
    assert_eq!(uid, "uid-1");
    assert_eq!(bearer, "Bearer access-1");
}

#[test]
fn immediate_success_is_final() {
    let session = fresh_session();
    let call = session.get_user();
    let (st, act) = session.wrap_step(call.state, WrapEvent::Response(Ok(vec![1, 2, 3])));
    assert!(matches!(st, WrapState::Completed));
    match act {
        WrapAction::Finish(Ok(bytes)) => assert_eq!(bytes, vec![1, 2, 3]),
        _ => panic!("expected the success to surface"),
    }
}

#[test]
fn non_expiry_errors_pass_through_untouched() {
    let session = fresh_session();
    let call = session.get_user();
    let err = HttpError::Api(ApiError {
        http_code: 500,
        api_code: 42,
        message: "boom".to_string(),
        human_verification: None,
    });
    let (st, act) = session.wrap_step(call.state, WrapEvent::Response(Err(err)));
    assert!(matches!(st, WrapState::Completed));
    match act {
        WrapAction::Finish(Err(HttpError::Api(e))) => {
            assert_eq!(e.http_code, 500);
            assert_eq!(e.api_code, 42);
            assert_eq!(e.message, "boom");
        }
        _ => panic!("expected the error to surface unchanged"),
    }
}

#[test]
fn expiry_refresh_retry_success_is_invisible_to_the_caller() {
    let session = fresh_session();
    let call = session.get_user();
    let mut wrapped_executions = 1; // the request `wrap` handed out

    // The expiry signal launches the refresh sub-sequence.
    let (st, act) = session.wrap_step(call.state, WrapEvent::Response(Err(unauthorized())));
    let refresh_req = match act {
        WrapAction::ExecuteRefresh(req) => req,
        _ => panic!("expected a refresh"),
    };
    assert_eq!(refresh_req.url, "auth/v4/refresh");
    match refresh_req.body.as_ref().expect("refresh body") {
        RequestBody::AuthRefresh { uid, refresh_token } => {
            assert_eq!(uid, "uid-1");
            assert_eq!(refresh_token, "refresh-1");
        }
        _ => panic!("wrong refresh body"),
    }

    // The refresh succeeds; the original request goes out once more with
    // the fresh credentials.
    let (st, act) = session.wrap_step(st, WrapEvent::RefreshResponse(Ok(refresh_ok())));
    let retried = match act {
        WrapAction::Execute(req) => req,
        _ => panic!("expected the retry"),
    };
    wrapped_executions += 1;
    assert_eq!(retried.url, "core/v4/users");
    let (uid, bearer) = auth_headers(&retried);
    assert_eq!(uid, "uid-1");
    assert_eq!(bearer, "Bearer access-2");

    // The retried call succeeds; the caller sees only that success.
    let (st, act) = session.wrap_step(st, WrapEvent::Response(Ok(vec![7])));
    assert!(matches!(st, WrapState::Completed));
    match act {
        WrapAction::Finish(Ok(bytes)) => assert_eq!(bytes, vec![7]),
        _ => panic!("expected the final success"),
    }
    assert_eq!(wrapped_executions, 2);

    // The session now carries the replaced credentials.
    let next = session.get_user();
    match next.action {
        WrapAction::Execute(req) => {
            let (uid, bearer) = auth_headers(&req);
            assert_eq!(uid, "uid-1");
            assert_eq!(bearer, "Bearer access-2");
        }
        _ => panic!("expected an execute action"),
    }
}

#[test]
fn failed_refresh_surfaces_the_refresh_error() {
    let session = fresh_session();
    let call = session.get_user();
    let (st, _act) = session.wrap_step(call.state, WrapEvent::Response(Err(unauthorized())));
    let refresh_err = HttpError::Api(ApiError {
        http_code: 400,
        api_code: 10013,
        message: "refresh token invalid".to_string(),
        human_verification: None,
    });
    let (st, act) = session.wrap_step(st, WrapEvent::RefreshResponse(Err(refresh_err)));
    assert!(matches!(st, WrapState::Completed));
    match act {
        WrapAction::Finish(Err(HttpError::Api(e))) => {
            assert_eq!(e.http_code, 400);
            assert_eq!(e.api_code, 10013);
        }
        _ => panic!("expected the refresh error, never a success"),
    }
}

#[test]
fn always_unauthorized_transport_sees_exactly_two_wrapped_calls() {
    let session = fresh_session();
    // A stub transport that answers "unauthorized" to every wrapped call
    // and accepts the refresh.
    let mut wrapped_calls = 0;

    let call = session.wrap(RequestData::new(
        mailauth::http::Method::Get,
        "core/v4/users".to_string(),
    ));
    assert!(matches!(call.action, WrapAction::Execute(_)));
    wrapped_calls += 1; // the stub answers 401

    let (st, act) = session.wrap_step(call.state, WrapEvent::Response(Err(unauthorized())));
    assert!(matches!(act, WrapAction::ExecuteRefresh(_)));

    let (st, act) = session.wrap_step(st, WrapEvent::RefreshResponse(Ok(refresh_ok())));
    assert!(matches!(act, WrapAction::Execute(_)));
    wrapped_calls += 1; // the stub answers 401 again

    let (st, act) = session.wrap_step(st, WrapEvent::Response(Err(unauthorized())));
    // The second "unauthorized" is final: no further refresh, no retry.
    assert!(matches!(st, WrapState::Completed));
    match act {
        WrapAction::Finish(Err(HttpError::Api(e))) => assert_eq!(e.http_code, 401),
        _ => panic!("expected the error to reach the caller"),
    }
    assert_eq!(wrapped_calls, 2);
}

#[test]
fn session_copies_share_one_credentials_cell() {
    let session = fresh_session();
    let copy = session.clone();

    // A refresh observed through one handle is visible through the other.
    let call = session.get_user();
    let (st, _act) = session.wrap_step(call.state, WrapEvent::Response(Err(unauthorized())));
    let (_st, _act) = session.wrap_step(st, WrapEvent::RefreshResponse(Ok(refresh_ok())));

    let through_copy = copy.get_user();
    match through_copy.action {
        WrapAction::Execute(req) => {
            let bearer = req
                .headers
                .iter()
                .find(|h| h.name == "authorization")
                .expect("authorization header")
                .value
                .clone();
            assert_eq!(bearer, "Bearer access-2");
        }
        _ => panic!("expected an execute action"),
    }
}
