use mailauth::auth::{AuthInfoResponse, AuthResponse, TfaStatus, TwoFactorAuth};
use mailauth::http::{ApiError, HttpError, RequestBody};
use mailauth::secret::SecretString;
use mailauth::session::{
    login_on_auth, login_on_info, map_human_verification_err, validate_server_proof, LoginError,
    Session, SessionType, WrapAction, WrapEvent, WrapState,
};
use mailauth::srp::SrpProof;
use proton_srp::{ServerClientProof, ServerClientVerifier, ServerInteraction};

const MODULUS: &str = "-----BEGIN PGP SIGNED MESSAGE-----\nHash: SHA256\n\nW2z5HBi8RvsfYzZTS7qBaUxxPhsfHJFZpu3Kd6s1JafNrCCH9rfvPLrfuqocxWPgWDH2R8neK7PkNvjxto9TStuY5z7jAzWRvFWN9cQhAKkdWgy0JY6ywVn22+HFpF4cYesHrqFIKUPDMSSIlWjBVmEJZ/MusD44ZT29xcPrOqeZvwtCffKtGAIjLYPZIEbZKnDM1Dm3q2K/xS5h+xdhjnndhsrkwm9U9oyA2wxzSXFL+pdfj2fOdRwuR5nW0J2NFrq3kJjkRmpO/Genq1UW+TEknIWAb6VzJJJA244K/H8cnSx2+nSNZO3bbo6Ys228ruV9A8m6DhxmS+bihN3ttQ==\n-----BEGIN PGP SIGNATURE-----\nVersion: ProtonMail\nComment: https://protonmail.com\n\nwl4EARYIABAFAlwB1j0JEDUFhcTpUY8mAAD8CgEAnsFnF4cF0uSHKkXa1GIa\nGO86yMV4zDZEZcDSJo0fgr8A/AlupGN9EdHlsrZLmTA1vhIx+rOgxdEff28N\nkvNM7qIK\n=q6vu\n-----END PGP SIGNATURE-----";

/// A simulated server for one login attempt: it registers the password's
/// verifier, issues a challenge, and computes its own proof from the
/// client's submission.
struct SrpServer {
    server: ServerInteraction,
    salt: String,
    challenge_b64: String,
}

fn start_server(password: &str) -> SrpServer {
    let modulus_verifier = proton_srp::RPGPVerifier::default();
    let client_verifier: proton_srp::SRPVerifierB64 =
        proton_srp::SRPAuth::generate_verifier(&modulus_verifier, password, None, MODULUS)
            .expect("verifier generation must succeed")
            .into();
    let server_client_verifier =
        ServerClientVerifier::try_from(&client_verifier).expect("verifier must decode");
    let mut server = ServerInteraction::new_with_modulus_extractor(
        &modulus_verifier,
        MODULUS,
        &server_client_verifier,
    )
    .expect("server interaction must start");
    let challenge_b64 = server.generate_challenge().encode_b64();
    SrpServer { server, salt: client_verifier.salt, challenge_b64 }
}

/// Drive the login flow up to the proof submission against the simulated
/// server and hand back the pending state together with the server's
/// proof over the submitted values.
fn run_login_to_proof(
    username: &str,
    password: &str,
    tfa: TfaStatus,
) -> Result<SessionType, LoginError> {
    let mut srv = start_server(password);
    let secret = SecretString::new(password.to_string());
    let (init, info_req) = Session::login(username, &secret, None);
    assert_eq!(info_req.url, "auth/v4/info");
    match info_req.body.as_ref().expect("info request has a body") {
        RequestBody::AuthInfo { username: u } => assert_eq!(u, username),
        _ => panic!("wrong info body"),
    }

    let info = AuthInfoResponse {
        version: 4,
        modulus: MODULUS.to_string(),
        server_ephemeral: srv.challenge_b64.clone(),
        salt: srv.salt.clone(),
        srp_session: "srp-session-1".to_string(),
    };
    let (state, auth_req) = login_on_info(init, Ok(info)).expect("proof computation succeeds");
    assert_eq!(auth_req.url, "auth/v4");
    let (client_ephemeral, client_proof) = match auth_req.body.expect("auth request has a body") {
        RequestBody::Auth { username: u, client_ephemeral, client_proof, srp_session, .. } => {
            assert_eq!(u, username);
            assert_eq!(srp_session, "srp-session-1");
            (client_ephemeral, client_proof)
        }
        _ => panic!("wrong auth body"),
    };

    let submission = ServerClientProof::new(&client_ephemeral, &client_proof)
        .expect("client submission decodes");
    let server_proof = srv.server.verify_proof(&submission).expect("server accepts the proof");

    let resp = AuthResponse {
        uid: "uid-1".to_string(),
        access_token: "access-1".to_string(),
        refresh_token: "refresh-1".to_string(),
        server_proof: server_proof.encode_b64(),
        tfa,
    };
    login_on_auth(state, Ok(resp))
}

#[test]
fn login_round_trip_without_second_factor_authenticates() {
    let outcome = run_login_to_proof("alice", "p@ss", TfaStatus::Disabled);
    let session = match outcome {
        Ok(SessionType::Authenticated(s)) => s,
        _ => panic!("expected an authenticated session"),
    };
    // The session is callable: it builds authenticated requests.
    let call = session.get_user();
    match call.action {
        mailauth::session::WrapAction::Execute(req) => assert_eq!(req.url, "core/v4/users"),
        _ => panic!("expected an execute action"),
    }
}

#[test]
fn login_round_trip_with_totp_awaits_the_second_factor_then_promotes() {
    let outcome = run_login_to_proof("alice", "p@ss", TfaStatus::Totp);
    let totp = match outcome {
        Ok(SessionType::AwaitingTotp(t)) => t,
        _ => panic!("expected a pending second factor"),
    };
    let call = totp.submit_totp("000000");
    match call.action {
        mailauth::session::WrapAction::Execute(req) => assert_eq!(req.url, "auth/v4/2fa"),
        _ => panic!("expected an execute action"),
    }
    // A stub that accepts any code answers with a success; the handle is
    // promoted to an authenticated, callable session.
    let session = totp.complete(Ok(Vec::new())).expect("promotion succeeds");
    let call = session.get_messages(mailauth::message::MessageFilter::new());
    match call.action {
        mailauth::session::WrapAction::Execute(req) => assert_eq!(req.url, "mail/v4/messages"),
        _ => panic!("expected an execute action"),
    }
    // The promoted session is the pending one: it holds the login
    // response's credentials.
    let snapshot = session.get_refresh_data();
    assert_eq!(snapshot.user_uid.expose_secret(), "uid-1");
    assert_eq!(snapshot.token.expose_secret(), "refresh-1");
}

#[test]
fn pending_second_factor_submission_survives_expiry() {
    let outcome = run_login_to_proof("alice", "p@ss", TfaStatus::Totp);
    let totp = match outcome {
        Ok(SessionType::AwaitingTotp(t)) => t,
        _ => panic!("expected a pending second factor"),
    };
    let call = totp.submit_totp("000000");

    // The code submission hits the expiry signal; the pending handle
    // drives the same refresh-and-retry policy as any wrapped call.
    let expired = HttpError::Api(ApiError {
        http_code: 401,
        api_code: 0,
        message: "invalid access token".to_string(),
        human_verification: None,
    });
    let (st, act) = totp.wrap_step(call.state, WrapEvent::Response(Err(expired)));
    assert!(matches!(act, WrapAction::ExecuteRefresh(_)));

    let fresh = mailauth::auth::AuthRefreshResponse {
        uid: "uid-1".to_string(),
        access_token: "access-2".to_string(),
        refresh_token: "refresh-2".to_string(),
    };
    let (st, act) = totp.wrap_step(st, WrapEvent::RefreshResponse(Ok(fresh)));
    match act {
        WrapAction::Execute(req) => assert_eq!(req.url, "auth/v4/2fa"),
        _ => panic!("expected the retried submission"),
    }

    let (st, act) = totp.wrap_step(st, WrapEvent::Response(Ok(Vec::new())));
    assert!(matches!(st, WrapState::Completed));
    assert!(matches!(act, WrapAction::Finish(Ok(_))));

    // Promotion still works, and the shared cell now carries the
    // refreshed credentials.
    let session = totp.complete(Ok(Vec::new())).expect("promotion succeeds");
    let snapshot = session.get_refresh_data();
    assert_eq!(snapshot.user_uid.expose_secret(), "uid-1");
    assert_eq!(snapshot.token.expose_secret(), "refresh-2");
}

#[test]
fn login_round_trip_with_wrong_server_proof_never_authenticates() {
    let mut srv = start_server("p@ss");
    let secret = SecretString::new("p@ss".to_string());
    let (init, _info_req) = Session::login("alice", &secret, None);
    let info = AuthInfoResponse {
        version: 4,
        modulus: MODULUS.to_string(),
        server_ephemeral: srv.challenge_b64.clone(),
        salt: srv.salt.clone(),
        srp_session: "srp-session-1".to_string(),
    };
    let (state, auth_req) = login_on_info(init, Ok(info)).expect("proof computation succeeds");
    let (client_ephemeral, client_proof) = match auth_req.body.expect("body") {
        RequestBody::Auth { client_ephemeral, client_proof, .. } => (client_ephemeral, client_proof),
        _ => panic!("wrong auth body"),
    };
    let submission =
        ServerClientProof::new(&client_ephemeral, &client_proof).expect("submission decodes");
    let _ = srv.server.verify_proof(&submission).expect("server accepts the proof");

    // The server answers with a proof that is not the expected one.
    let resp = AuthResponse {
        uid: "uid-1".to_string(),
        access_token: "access-1".to_string(),
        refresh_token: "refresh-1".to_string(),
        server_proof: srv.challenge_b64.clone(),
        tfa: TfaStatus::Disabled,
    };
    let outcome = login_on_auth(state, Ok(resp));
    assert!(matches!(outcome, Err(LoginError::ServerProof(_))));
}

fn stub_proof() -> SrpProof {
    SrpProof {
        client_ephemeral: "client-ephemeral".to_string(),
        client_proof: "client-proof".to_string(),
        expected_server_proof: "expected-proof".to_string(),
    }
}

fn stub_response(server_proof: &str, tfa: TfaStatus) -> AuthResponse {
    AuthResponse {
        uid: "uid-1".to_string(),
        access_token: "access-1".to_string(),
        refresh_token: "refresh-1".to_string(),
        server_proof: server_proof.to_string(),
        tfa,
    }
}

#[test]
fn second_factor_branch_table() {
    let proof = stub_proof();
    let r = validate_server_proof(&proof, stub_response("expected-proof", TfaStatus::Disabled));
    assert!(matches!(r, Ok(SessionType::Authenticated(_))));

    let r = validate_server_proof(&proof, stub_response("expected-proof", TfaStatus::Totp));
    assert!(matches!(r, Ok(SessionType::AwaitingTotp(_))));

    let r = validate_server_proof(&proof, stub_response("expected-proof", TfaStatus::Fido2));
    assert!(matches!(r, Err(LoginError::Unsupported2FA(TwoFactorAuth::Fido2))));

    let r = validate_server_proof(&proof, stub_response("expected-proof", TfaStatus::TotpOrFido2));
    assert!(matches!(r, Ok(SessionType::AwaitingTotp(_))));
}

#[test]
fn mismatched_proof_is_fatal_for_every_branch() {
    let proof = stub_proof();
    for tfa in [TfaStatus::Disabled, TfaStatus::Totp, TfaStatus::Fido2, TfaStatus::TotpOrFido2] {
        let r = validate_server_proof(&proof, stub_response("forged", tfa));
        assert!(matches!(r, Err(LoginError::ServerProof(_))));
    }
}

#[test]
fn malformed_challenge_yields_the_proof_computation_error() {
    let secret = SecretString::new("p@ss".to_string());
    let (init, _req) = Session::login("alice", &secret, None);
    let info = AuthInfoResponse {
        version: 4,
        modulus: "not a signed modulus".to_string(),
        server_ephemeral: "junk".to_string(),
        salt: "c2FsdA==".to_string(),
        srp_session: "s".to_string(),
    };
    let r = login_on_info(init, Ok(info));
    assert!(matches!(r, Err(LoginError::SRPProof(_))));
}

#[test]
fn unknown_hash_version_yields_the_proof_computation_error() {
    let secret = SecretString::new("p@ss".to_string());
    let (init, _req) = Session::login("alice", &secret, None);
    let info = AuthInfoResponse {
        version: 9,
        modulus: MODULUS.to_string(),
        server_ephemeral: "junk".to_string(),
        salt: "c2FsdA==".to_string(),
        srp_session: "s".to_string(),
    };
    let r = login_on_info(init, Ok(info));
    assert!(matches!(r, Err(LoginError::SRPProof(_))));
}

#[test]
fn human_verification_demand_becomes_the_recoverable_error() {
    let hv = mailauth::auth::HumanVerification {
        methods: vec!["captcha".to_string()],
        token: "hv-token".to_string(),
    };
    let e = LoginError::Request(HttpError::Api(ApiError {
        http_code: 422,
        api_code: 9001,
        message: "human verification required".to_string(),
        human_verification: Some(hv),
    }));
    match map_human_verification_err(e) {
        LoginError::HumanVerificationRequired(hv) => {
            assert_eq!(hv.methods, vec!["captcha".to_string()]);
            assert_eq!(hv.token, "hv-token");
        }
        _ => panic!("expected the human verification error"),
    }

    // Without a challenge the error is unchanged.
    let e = LoginError::Request(HttpError::Api(ApiError {
        http_code: 422,
        api_code: 9001,
        message: "other".to_string(),
        human_verification: None,
    }));
    assert!(matches!(map_human_verification_err(e), LoginError::Request(HttpError::Api(_))));

    // A transport error is unchanged too.
    let e = LoginError::Request(HttpError::Transport("offline".to_string()));
    assert!(matches!(map_human_verification_err(e), LoginError::Request(HttpError::Transport(_))));
}

#[test]
fn request_errors_surface_through_the_login_steps() {
    let secret = SecretString::new("p@ss".to_string());
    let (init, _req) = Session::login("alice", &secret, None);
    let r = login_on_info(init, Err(HttpError::Transport("offline".to_string())));
    assert!(matches!(r, Err(LoginError::Request(HttpError::Transport(_)))));
}
