//! Sessions and the two flows that animate them.
//!
//! A [`Session`] is a cheaply copyable handle; copies share one
//! credentials cell guarded by a reader/writer lock, so every handle
//! observes the same live credential triple.
//!
//! Two state machines drive all network interaction, and a driver outside
//! this crate executes their requests:
//! - the login flow: request the SRP challenge, compute the proof,
//!   submit it, validate the server's proof and branch on the account's
//!   second-factor requirement;
//! - the wrapped call: execute an authenticated request and, on the
//!   expiry signal, refresh the credentials and retry the original
//!   request exactly once.

use vstd::prelude::*;
use crate::auth::{
    AuthInfoResponse, AuthRefreshResponse, AuthResponse, HumanVerification,
    HumanVerificationLoginData, HumanVerificationLoginDataView, TfaStatus, TwoFactorAuth,
    UserAuth, UserAuthView, UserUid,
};
use crate::http::{HeaderView, HttpError, Method, RequestBodyView, RequestData, RequestDataView};
use crate::labels::LabelType;
use crate::message::{DraftMessage, MessageFilter, MessageId, MessagePackage};
use crate::requests::auth::{
    AuthInfoRequest, AuthRefreshRequest, AuthRequest, GetEventRequest, GetLabelsRequest,
    GetLatestEventRequest, LogoutRequest, TOTPRequest, UserInfoRequest,
};
use crate::requests::keys::{
    GetAddressKeysRequest, GetAllKeysRequest, GetPublicKeysRequest, GetUserKeysRequest,
};
use crate::requests::messages::{
    CreateDraftRequest, DeleteMessagesRequest, GetAttachmentRequest, GetMessageCountsRequest,
    GetMessageRequest, GetMessagesRequest, LabelMessagesRequest, MarkMessagesReadRequest,
    MarkMessagesUnreadRequest, SendMessageRequest, UnlabelMessagesRequest, UpdateDraftRequest,
};
use crate::secret::SecretString;
use crate::srp::{srp_client_accepts, srp_client_new, srp_generate_proofs, SrpProof};

verus! {

/// Why a login attempt failed.
#[derive(Debug)]
pub enum LoginError {
    /// Executing a request failed; surfaced unchanged.
    Request(HttpError),
    /// The server's SRP proof did not match the expected one. Fatal.
    ServerProof(String),
    /// The account requires a second-factor method this crate does not
    /// implement. Fatal.
    Unsupported2FA(TwoFactorAuth),
    /// The server demands human verification; retry login with the
    /// solved challenge attached. Recoverable.
    HumanVerificationRequired(HumanVerification),
    /// The SRP challenge was malformed or the local proof computation
    /// failed. Fatal.
    SRPProof(String),
}

/// The shared credentials cell: one exclusively owned [`UserAuth`] behind
/// a reader/writer lock, behind a shared-ownership handle. Readers never
/// block readers; a writer excludes all.
#[verifier::external_body]
struct CredCell {
    inner: std::sync::Arc<parking_lot::RwLock<UserAuth>>,
}

impl CredCell {
    /// Relies on `parking_lot::RwLock::new` and `std::sync::Arc::new`:
    /// makes a fresh cell holding `auth`, shared by nobody else yet.
    #[verifier::external_body]
    fn new(auth: UserAuth) -> CredCell {
        CredCell { inner: std::sync::Arc::new(parking_lot::RwLock::new(auth)) }
    }

    /// Relies on `std::sync::Arc::clone`: the copy shares this same cell.
    #[verifier::external_body]
    fn share(&self) -> CredCell {
        CredCell { inner: std::sync::Arc::clone(&self.inner) }
    }

    /// Relies on `parking_lot::RwLock::read`: clones the triple under one
    /// read acquisition, so the three fields are mutually consistent and
    /// never torn. Another handle may replace the triple at any moment,
    /// so nothing is promised of the values.
    #[verifier::external_body]
    fn read(&self) -> UserAuth {
        self.inner.read().clone()
    }

    /// Relies on `parking_lot::RwLock::write`: replaces all three fields
    /// together under one exclusive acquisition.
    #[verifier::external_body]
    fn replace(&self, auth: UserAuth) {
        *self.inner.write() = auth;
    }
}

/// Authenticated session handle. Copies share one credentials cell.
///
/// Beside the cell, each handle carries a ghost record of the credential
/// triple it was constructed over, so contracts can say which credentials
/// a freshly produced session holds. The live triple in the cell may
/// since have been replaced by a refresh through any handle; the record
/// speaks of construction only.
pub struct Session {
    user_auth: CredCell,
    constructed_over: Ghost<UserAuthView>,
}

impl Session {
    /// The credential triple this handle was constructed over. A refresh
    /// through any handle sharing the cell may since have replaced the
    /// live triple.
    pub closed spec fn spec_credentials(&self) -> UserAuthView {
        self.constructed_over@
    }
}

impl Clone for Session {
    /// The copy shares this session's credentials cell.
    fn clone(&self) -> (r: Session)
        ensures
            r.spec_credentials() == self.spec_credentials(),
    {
        Session { user_auth: self.user_auth.share(), constructed_over: self.constructed_over }
    }
}

/// A session handle that may not make authenticated calls until a
/// second-factor code has been accepted.
pub struct TotpSession {
    session: Session,
}

impl TotpSession {
    /// The credential triple the pending session was constructed over.
    pub closed spec fn spec_credentials(&self) -> UserAuthView {
        self.session.spec_credentials()
    }
}

/// What a completed login produced: a usable session, or one still
/// waiting for its second factor.
pub enum SessionType {
    /// Login is complete; the session is usable.
    Authenticated(Session),
    /// A time-based one-time code must be accepted first.
    AwaitingTotp(TotpSession),
}

/// Data which can be used to save a session and restore it later.
pub struct SessionRefreshData {
    pub user_uid: SecretString,
    pub token: SecretString,
}

impl PartialEq for SessionRefreshData {
    /// Equality reveals and compares the wrapped secret contents.
    fn eq(&self, other: &Self) -> (r: bool) {
        self.user_uid.eq_secret(&other.user_uid) && self.token.eq_secret(&other.token)
    }
}

impl vstd::std_specs::cmp::PartialEqSpecImpl for SessionRefreshData {
    open spec fn obeys_eq_spec() -> bool {
        true
    }

    open spec fn eq_spec(&self, other: &Self) -> bool {
        self.user_uid@ == other.user_uid@ && self.token@ == other.token@
    }
}

impl Eq for SessionRefreshData {}

/// The fixed text every snapshot renders to.
pub open spec fn spec_snapshot_display() -> Seq<char> {
    "SessionRefreshData { user_uid: [REDACTED], token: [REDACTED] }"@
}

impl SessionRefreshData {
    /// The snapshot of one credential triple: exactly its user
    /// identifier and its refresh token.
    pub fn snapshot_of(auth: UserAuth) -> (r: SessionRefreshData)
        ensures
            r.user_uid@ == auth.uid@,
            r.token@ == auth.refresh_token@,
    {
        SessionRefreshData { user_uid: auth.uid, token: auth.refresh_token }
    }

    /// The snapshot's textual representation. It equals a fixed
    /// placeholder text whatever the wrapped secrets are, so no rendering
    /// of a snapshot can contain the secret values.
    pub fn display_string(&self) -> (r: String)
        ensures
            r@ == spec_snapshot_display(),
    {
        String::from_str("SessionRefreshData { user_uid: [REDACTED], token: [REDACTED] }")
    }
}

// ============================================================================
// The login flow
// ============================================================================

/// Transient data of a login attempt before the challenge arrives.
pub struct LoginInit {
    username: String,
    password: SecretString,
    hv: Option<HumanVerificationLoginData>,
}

impl LoginInit {
    /// The username being logged in.
    pub closed spec fn spec_username(&self) -> Seq<char> {
        self.username@
    }

    /// The password the proof will be computed from.
    pub closed spec fn spec_password(&self) -> Seq<char> {
        self.password@
    }

    /// The solved human-verification challenge attached to this attempt.
    pub closed spec fn spec_hv(&self) -> Option<HumanVerificationLoginDataView> {
        match &self.hv {
            Option::Some(h) => Option::Some(h@),
            Option::None => Option::None,
        }
    }
}

/// Transient data of a login attempt whose proof is ready to submit:
/// the proof material and the server-assigned SRP session identifier.
pub struct LoginState {
    username: String,
    proof: SrpProof,
    session: String,
    hv: Option<HumanVerificationLoginData>,
}

impl LoginState {
    /// The username being logged in.
    pub closed spec fn spec_username(&self) -> Seq<char> {
        self.username@
    }

    /// The computed SRP proof material.
    pub closed spec fn spec_proof(&self) -> crate::srp::SrpProofView {
        self.proof@
    }

    /// The server-assigned SRP session identifier.
    pub closed spec fn spec_session(&self) -> Seq<char> {
        self.session@
    }

    /// The solved human-verification challenge attached to this attempt.
    pub closed spec fn spec_hv(&self) -> Option<HumanVerificationLoginDataView> {
        match &self.hv {
            Option::Some(h) => Option::Some(h@),
            Option::None => Option::None,
        }
    }
}

/// The error after the server's human-verification demand is lifted out:
/// a request error carrying a challenge becomes
/// [`LoginError::HumanVerificationRequired`]; everything else is
/// unchanged.
pub open spec fn spec_map_hv_err(e: LoginError) -> LoginError {
    match e {
        LoginError::Request(HttpError::Api(a)) => match a.human_verification {
            Option::Some(hv) => LoginError::HumanVerificationRequired(hv),
            Option::None => LoginError::Request(HttpError::Api(a)),
        },
        _ => e,
    }
}

/// Translate a server error that carries a human-verification challenge,
/// from whichever step it surfaced, into the dedicated recoverable error;
/// all other errors pass through unchanged.
pub fn map_human_verification_err(e: LoginError) -> (r: LoginError)
    ensures
        r == spec_map_hv_err(e),
{
    match e {
        LoginError::Request(HttpError::Api(api)) => match api.human_verification {
            Option::Some(hv) => LoginError::HumanVerificationRequired(hv),
            Option::None => LoginError::Request(
                HttpError::Api(crate::http::ApiError {
                    http_code: api.http_code,
                    api_code: api.api_code,
                    message: api.message,
                    human_verification: Option::None,
                }),
            ),
        },
        other => other,
    }
}

/// The credential triple a successful login response carries.
pub open spec fn spec_response_credentials(a: AuthResponse) -> UserAuthView {
    UserAuthView { uid: a.uid@, access_token: a.access_token@, refresh_token: a.refresh_token@ }
}

/// Compare the server's proof against the locally expected value and
/// branch on the reported second-factor requirement. A mismatch is fatal
/// and never produces an authenticated session; every produced session
/// holds exactly the response's credentials.
pub fn validate_server_proof(proof: &SrpProof, auth_response: AuthResponse) -> (r: Result<
    SessionType,
    LoginError,
>)
    ensures
        // A mismatched server proof aborts the login.
        auth_response.server_proof@ != proof.expected_server_proof@ ==> r matches Err(
            LoginError::ServerProof(_),
        ),
        // The second-factor branch table, applied only on a matching
        // proof; the produced session is over the response's credentials.
        auth_response.server_proof@ == proof.expected_server_proof@ ==> match auth_response.tfa {
            TfaStatus::Disabled => (r matches Ok(SessionType::Authenticated(s))
                && s.spec_credentials() == spec_response_credentials(auth_response)),
            TfaStatus::Totp => (r matches Ok(SessionType::AwaitingTotp(t))
                && t.spec_credentials() == spec_response_credentials(auth_response)),
            TfaStatus::Fido2 => r matches Err(LoginError::Unsupported2FA(TwoFactorAuth::Fido2)),
            TfaStatus::TotpOrFido2 => (r matches Ok(SessionType::AwaitingTotp(t))
                && t.spec_credentials() == spec_response_credentials(auth_response)),
        },
        // An authenticated session arises only from a matching proof with
        // no second factor required.
        r matches Ok(SessionType::Authenticated(_)) ==> auth_response.server_proof@
            == proof.expected_server_proof@ && auth_response.tfa == TfaStatus::Disabled,
        // A pending second factor arises only from a matching proof.
        r matches Ok(SessionType::AwaitingTotp(_)) ==> auth_response.server_proof@
            == proof.expected_server_proof@ && (auth_response.tfa == TfaStatus::Totp
            || auth_response.tfa == TfaStatus::TotpOrFido2),
{
    if !proof.compare_server_proof(auth_response.server_proof.as_str()) {
        return Result::Err(
            LoginError::ServerProof(String::from_str("server proof does not match")),
        );
    }
    let tfa = auth_response.tfa;
    let user = UserAuth::from_auth_response(&auth_response);
    let session = Session::new(user);
    match tfa {
        TfaStatus::Disabled => Result::Ok(SessionType::Authenticated(session)),
        TfaStatus::Totp => Result::Ok(SessionType::AwaitingTotp(TotpSession { session })),
        TfaStatus::Fido2 => Result::Err(LoginError::Unsupported2FA(TwoFactorAuth::Fido2)),
        TfaStatus::TotpOrFido2 => Result::Ok(
            SessionType::AwaitingTotp(TotpSession { session }),
        ),
    }
}

/// Compute the SRP proof for the received challenge and carry the
/// attempt's data forward. No network is touched; a malformed challenge
/// or a failed local computation yields the dedicated error kind, and a
/// challenge the SRP client rejects always fails.
pub fn generate_login_state(state: LoginInit, auth_info_response: &AuthInfoResponse) -> (r: Result<
    LoginState,
    LoginError,
>)
    ensures
        r matches Ok(ls) ==> ls.spec_username() == state.spec_username() && ls.spec_session()
            == auth_info_response.srp_session@ && ls.spec_hv() == state.spec_hv(),
        r matches Err(e) ==> e matches LoginError::SRPProof(_),
        // A challenge the SRP client rejects — unknown version, malformed
        // or badly signed modulus, bad salt — forces the failure; with
        // the clause above, the dedicated proof-computation error.
        !srp_client_accepts(
            state.spec_password(),
            auth_info_response.version,
            auth_info_response.salt@,
            auth_info_response.modulus@,
            auth_info_response.server_ephemeral@,
        ) ==> r is Err,
        // Success means the SRP client accepted the challenge.
        r is Ok ==> srp_client_accepts(
            state.spec_password(),
            auth_info_response.version,
            auth_info_response.salt@,
            auth_info_response.modulus@,
            auth_info_response.server_ephemeral@,
        ),
{
    let auth = match srp_client_new(
        state.password.expose_secret(),
        auth_info_response.version,
        auth_info_response.salt.as_str(),
        auth_info_response.modulus.as_str(),
        auth_info_response.server_ephemeral.as_str(),
    ) {
        Result::Ok(a) => a,
        Result::Err(msg) => {
            return Result::Err(LoginError::SRPProof(msg));
        },
    };
    let proof = match srp_generate_proofs(&auth) {
        Result::Ok(p) => p,
        Result::Err(msg) => {
            return Result::Err(LoginError::SRPProof(msg));
        },
    };
    Result::Ok(
        LoginState {
            username: state.username,
            proof,
            session: auth_info_response.srp_session.clone(),
            hv: state.hv,
        },
    )
}

/// The proof submission request of a login attempt: username, client
/// ephemeral and proof, SRP session id, and the optional solved
/// human-verification challenge.
pub fn login_sequence_2(login_state: &LoginState) -> (r: RequestData)
    ensures
        r@ == (RequestDataView {
            method: Method::Post,
            url: "auth/v4"@,
            headers: Seq::<HeaderView>::empty(),
            body: Option::Some(RequestBodyView::Auth {
                username: login_state.spec_username(),
                client_ephemeral: login_state.spec_proof().client_ephemeral,
                client_proof: login_state.spec_proof().client_proof,
                srp_session: login_state.spec_session(),
                human_verification: login_state.spec_hv(),
            }),
        }),
{
    let r = AuthRequest {
        username: login_state.username.clone(),
        client_ephemeral: login_state.proof.client_ephemeral.clone(),
        client_proof: login_state.proof.client_proof.clone(),
        srp_session: login_state.session.clone(),
        human_verification: match &login_state.hv {
            Option::Some(hv) => Option::Some(hv.clone()),
            Option::None => Option::None,
        },
    }.build();
    proof {
        assert(r@.headers =~= Seq::<HeaderView>::empty());
    }
    r
}

/// Drive the login flow past the challenge response: compute the proof
/// and produce the submission request, or end the flow with an error. A
/// request error carrying a human-verification challenge is translated
/// into its dedicated recoverable error.
pub fn login_on_info(st: LoginInit, resp: Result<AuthInfoResponse, HttpError>) -> (r: Result<
    (LoginState, RequestData),
    LoginError,
>)
    ensures
        resp matches Err(e) ==> r == Result::<(LoginState, RequestData), LoginError>::Err(
            spec_map_hv_err(LoginError::Request(e)),
        ),
        resp matches Ok(info) ==> ({
            &&& match r {
                Result::Ok((ls, req)) => {
                    &&& ls.spec_username() == st.spec_username()
                    &&& ls.spec_session() == info.srp_session@
                    &&& ls.spec_hv() == st.spec_hv()
                    &&& req@ == (RequestDataView {
                        method: Method::Post,
                        url: "auth/v4"@,
                        headers: Seq::<HeaderView>::empty(),
                        body: Option::Some(RequestBodyView::Auth {
                            username: ls.spec_username(),
                            client_ephemeral: ls.spec_proof().client_ephemeral,
                            client_proof: ls.spec_proof().client_proof,
                            srp_session: ls.spec_session(),
                            human_verification: ls.spec_hv(),
                        }),
                    })
                },
                Result::Err(e) => e matches LoginError::SRPProof(_),
            }
            // A challenge the SRP client rejects ends the flow with the
            // dedicated proof-computation error.
            &&& (!srp_client_accepts(
                st.spec_password(),
                info.version,
                info.salt@,
                info.modulus@,
                info.server_ephemeral@,
            ) ==> r is Err)
        }),
{
    match resp {
        Result::Err(e) => Result::Err(map_human_verification_err(LoginError::Request(e))),
        Result::Ok(info) => match generate_login_state(st, &info) {
            Result::Err(e) => Result::Err(e),
            Result::Ok(ls) => {
                let req = login_sequence_2(&ls);
                Result::Ok((ls, req))
            },
        },
    }
}

/// Drive the login flow past the server's verdict on the submitted
/// proof: validate the server's proof and branch on the second-factor
/// requirement. A request error carrying a human-verification challenge
/// is translated into its dedicated recoverable error.
pub fn login_on_auth(login_state: LoginState, resp: Result<AuthResponse, HttpError>) -> (r: Result<
    SessionType,
    LoginError,
>)
    ensures
        match resp {
            Result::Err(e) => r == Result::<SessionType, LoginError>::Err(
                spec_map_hv_err(LoginError::Request(e)),
            ),
            Result::Ok(a) => {
                // A mismatched server proof aborts the login.
                &&& (a.server_proof@ != login_state.spec_proof().expected_server_proof
                    ==> r matches Err(LoginError::ServerProof(_)))
                // The second-factor branch table, applied only on a
                // matching proof.
                &&& (a.server_proof@ == login_state.spec_proof().expected_server_proof
                    ==> match a.tfa {
                    TfaStatus::Disabled => (r matches Ok(SessionType::Authenticated(s))
                        && s.spec_credentials() == spec_response_credentials(a)),
                    TfaStatus::Totp => (r matches Ok(SessionType::AwaitingTotp(t))
                        && t.spec_credentials() == spec_response_credentials(a)),
                    TfaStatus::Fido2 => r matches Err(
                        LoginError::Unsupported2FA(TwoFactorAuth::Fido2),
                    ),
                    TfaStatus::TotpOrFido2 => (r matches Ok(SessionType::AwaitingTotp(t))
                        && t.spec_credentials() == spec_response_credentials(a)),
                })
            },
        },
        // An authenticated outcome occurs only when the server's proof
        // equals the expected one and no second factor is required.
        r matches Ok(SessionType::Authenticated(_)) ==> (resp matches Ok(a) && a.server_proof@
            == login_state.spec_proof().expected_server_proof && a.tfa == TfaStatus::Disabled),
{
    match resp {
        Result::Err(e) => Result::Err(map_human_verification_err(LoginError::Request(e))),
        Result::Ok(a) => match validate_server_proof(&login_state.proof, a) {
            Result::Ok(s) => Result::Ok(s),
            Result::Err(e) => Result::Err(map_human_verification_err(e)),
        },
    }
}

// ============================================================================
// The wrapped call
// ============================================================================

/// Where one wrapped call stands.
pub enum WrapState {
    /// The authenticated request went out; its response is awaited.
    FirstPending(RequestData),
    /// The expiry signal arrived; the refresh call's response is awaited.
    RefreshPending(RequestData),
    /// The refresh succeeded and the request went out again; whatever
    /// comes back is final.
    RetryPending,
    /// The call is finished.
    Completed,
}

/// What the driver must do after a step of the wrapped call.
pub enum WrapAction {
    /// Execute this request and feed the outcome to `wrap_step` as a
    /// [`WrapEvent::Response`].
    Execute(RequestData),
    /// Execute this refresh request and feed the decoded outcome to
    /// `wrap_step` as a [`WrapEvent::RefreshResponse`].
    ExecuteRefresh(RequestData),
    /// Hand this outcome to the caller; the flow is over.
    Finish(Result<Vec<u8>, HttpError>),
}

/// The outcome the driver feeds back into the wrapped call.
pub enum WrapEvent {
    /// Outcome of executing the wrapped request.
    Response(Result<Vec<u8>, HttpError>),
    /// Outcome of the refresh call, decoded by the driver.
    RefreshResponse(Result<AuthRefreshResponse, HttpError>),
}

/// A wrapped call as handed to the driver: its state and the first
/// request to execute.
pub struct WrapCall {
    pub state: WrapState,
    pub action: WrapAction,
}

/// `r` is `d` with the two authentication headers appended: the session
/// identifier and the bearer token.
pub open spec fn spec_with_auth(
    d: RequestDataView,
    uid: Seq<char>,
    token: Seq<char>,
) -> RequestDataView {
    RequestDataView {
        method: d.method,
        url: d.url,
        headers: d.headers.push(HeaderView { name: "x-pm-uid"@, value: uid }).push(
            HeaderView { name: "authorization"@, value: "Bearer "@ + token },
        ),
        body: d.body,
    }
}

/// `r` is `d` with some credential pair attached. Which pair cannot be
/// said: concurrent handles may replace the shared credentials at any
/// moment.
pub open spec fn spec_is_authenticated(d: RequestDataView, r: RequestDataView) -> bool {
    exists|uid: Seq<char>, token: Seq<char>| r == spec_with_auth(d, uid, token)
}

/// The expiry signal: a structured server error with HTTP status 401.
pub open spec fn spec_is_expiry(e: HttpError) -> bool {
    match e {
        HttpError::Api(a) => a.http_code == 401,
        _ => false,
    }
}

/// The shape of a credential refresh request.
pub open spec fn spec_is_refresh_request(r: RequestDataView) -> bool {
    &&& r.method == Method::Post
    &&& r.url == "auth/v4/refresh"@
    &&& r.body matches Option::Some(RequestBodyView::AuthRefresh { .. })
}

/// A fresh wrapped call on `d`: it awaits the first response, and the
/// driver holds the authenticated form of `d` to execute.
pub open spec fn spec_wrap_started(c: WrapCall, d: RequestDataView) -> bool {
    &&& c.state matches WrapState::FirstPending(stored) && stored@ == d
    &&& c.action matches WrapAction::Execute(req) && spec_is_authenticated(d, req@)
}

/// The phase of a wrapped call; every step strictly advances it.
pub open spec fn spec_phase(st: WrapState) -> int {
    match st {
        WrapState::FirstPending(_) => 0,
        WrapState::RefreshPending(_) => 1,
        WrapState::RetryPending => 2,
        WrapState::Completed => 3,
    }
}

/// Which events a state accepts: exactly the outcome of the request its
/// action asked the driver to execute.
pub open spec fn spec_wrap_step_allowed(st: WrapState, ev: WrapEvent) -> bool {
    match (st, ev) {
        (WrapState::FirstPending(_), WrapEvent::Response(_)) => true,
        (WrapState::RefreshPending(_), WrapEvent::RefreshResponse(_)) => true,
        (WrapState::RetryPending, WrapEvent::Response(_)) => true,
        _ => false,
    }
}

/// Everything one step of the wrapped call guarantees: the phase
/// strictly advances; the wrapped request goes out again only right
/// after a successful refresh (at most one retry, retries never
/// cascade); a refresh is launched only by the first response's expiry;
/// and each (state, event) pair's outcome is pinned — a success or a
/// non-expiry error is final as it stands, the expiry signal launches
/// the refresh sub-sequence keeping the original descriptor, a
/// successful refresh rebuilds the original request with exactly the
/// fresh credentials, a failed refresh surfaces its own error and never
/// a success, and the retried request's outcome is final whatever it is.
pub open spec fn spec_wrap_step_post(
    st: WrapState,
    ev: WrapEvent,
    r: (WrapState, WrapAction),
) -> bool {
    &&& spec_phase(r.0) > spec_phase(st)
    &&& ((r.1 matches WrapAction::Execute(_)) ==> (st matches WrapState::RefreshPending(_)) && (
    ev matches WrapEvent::RefreshResponse(o) && o is Ok))
    &&& ((r.1 matches WrapAction::ExecuteRefresh(_)) ==> (st matches WrapState::FirstPending(_)))
    &&& match (st, ev) {
        (WrapState::FirstPending(d), WrapEvent::Response(out)) => match out {
            Result::Ok(b) => r.0 is Completed && r.1 == WrapAction::Finish(Result::Ok(b)),
            Result::Err(e) => if spec_is_expiry(e) {
                (r.0 matches WrapState::RefreshPending(d2) && d2 == d) && (
                r.1 matches WrapAction::ExecuteRefresh(req) && spec_is_refresh_request(req@))
            } else {
                r.0 is Completed && r.1 == WrapAction::Finish(Result::Err(e))
            },
        },
        (WrapState::RefreshPending(d), WrapEvent::RefreshResponse(out)) => match out {
            Result::Ok(resp) => r.0 is RetryPending && (r.1 matches WrapAction::Execute(req)
                && req@ == spec_with_auth(d@, resp.uid@, resp.access_token@)),
            Result::Err(e) => r.0 is Completed && r.1 == WrapAction::Finish(Result::Err(e)),
        },
        (WrapState::RetryPending, WrapEvent::Response(out)) => r.0 is Completed && r.1
            == WrapAction::Finish(out),
        _ => true,
    }
}

/// Attach the authentication headers for the given credentials.
fn apply_auth(data: RequestData, uid: &str, token: &str) -> (r: RequestData)
    ensures
        r@ == spec_with_auth(data@, uid@, token@),
{
    let ghost d = data@;
    let mid = data.header("x-pm-uid", uid);
    let r = mid.bearer_token(token);
    proof {
        assert(r@.headers =~= spec_with_auth(d, uid@, token@).headers);
    }
    r
}

impl Session {
    fn new(user: UserAuth) -> (s: Session)
        ensures
            s.spec_credentials() == user@,
    {
        let ghost model = user@;
        Session { user_auth: CredCell::new(user), constructed_over: Ghost(model) }
    }

    /// Begin a login attempt: the returned request asks the server for
    /// the username's SRP challenge; feed its outcome to
    /// [`login_on_info`].
    pub fn login(
        username: &str,
        password: &SecretString,
        human_verification: Option<HumanVerificationLoginData>,
    ) -> (r: (LoginInit, RequestData))
        ensures
            r.0.spec_username() == username@,
            r.0.spec_password() == password@,
            r.0.spec_hv() == match human_verification {
                Option::Some(hv) => Option::Some(hv@),
                Option::None => Option::<HumanVerificationLoginDataView>::None,
            },
            r.1@ == (RequestDataView {
                method: Method::Post,
                url: "auth/v4/info"@,
                headers: Seq::<HeaderView>::empty(),
                body: Option::Some(RequestBodyView::AuthInfo { username: username@ }),
            }),
    {
        let state = LoginInit {
            username: String::from_str(username),
            password: password.clone(),
            hv: human_verification,
        };
        let req = AuthInfoRequest { username: String::from_str(username) }.build();
        proof {
            assert(req@.headers =~= Seq::<HeaderView>::empty());
        }
        (state, req)
    }

    /// The request that trades a refresh token for fresh credentials;
    /// feed its decoded outcome to [`Session::from_refresh_response`].
    pub fn refresh(user_uid: &UserUid, token: &str) -> (r: RequestData)
        ensures
            r@ == (RequestDataView {
                method: Method::Post,
                url: "auth/v4/refresh"@,
                headers: Seq::<HeaderView>::empty(),
                body: Option::Some(RequestBodyView::AuthRefresh {
                    uid: user_uid.0@,
                    refresh_token: token@,
                }),
            }),
    {
        let r = AuthRefreshRequest::new(user_uid, token).build();
        proof {
            assert(r@.headers =~= Seq::<HeaderView>::empty());
        }
        r
    }

    /// A session over exactly the credentials a refresh call returned.
    pub fn from_refresh_response(resp: &AuthRefreshResponse) -> (s: Session)
        ensures
            s.spec_credentials() == (UserAuthView {
                uid: resp.uid@,
                access_token: resp.access_token@,
                refresh_token: resp.refresh_token@,
            }),
    {
        Session::new(UserAuth::from_auth_refresh_response(resp))
    }

    /// Export this session's identity and refresh token for persistence.
    /// The triple is read under one read acquisition, so the exported
    /// pair is mutually consistent even while other handles refresh;
    /// which live triple is read cannot be promised, but the snapshot is
    /// that triple's user identifier and refresh token, by the contract
    /// of [`SessionRefreshData::snapshot_of`].
    pub fn get_refresh_data(&self) -> SessionRefreshData {
        SessionRefreshData::snapshot_of(self.user_auth.read())
    }

    /// Wrap one request descriptor as an authenticated call: the current
    /// credentials are attached under a read acquisition, and the driver
    /// feeds each outcome to [`Session::wrap_step`] until it says finish.
    pub fn wrap(&self, descriptor: RequestData) -> (r: WrapCall)
        ensures
            spec_wrap_started(r, descriptor@),
    {
        let auth = self.user_auth.read();
        let authed = apply_auth(
            descriptor.clone(),
            auth.uid.expose_secret(),
            auth.access_token.expose_secret(),
        );
        proof {
            assert(authed@ == spec_with_auth(descriptor@, auth.uid@, auth.access_token@));
        }
        WrapCall { state: WrapState::FirstPending(descriptor), action: WrapAction::Execute(authed) }
    }

    /// Advance a wrapped call by one observed outcome.
    ///
    /// The contract is the call's whole recovery policy: a success or a
    /// non-expiry error is final as it stands; the expiry signal on the
    /// first response triggers exactly one refresh; a failed refresh
    /// surfaces its own error and never a success; after a successful
    /// refresh the original request is rebuilt with the fresh
    /// credentials, and its outcome is final whatever it is.
    pub fn wrap_step(&self, st: WrapState, ev: WrapEvent) -> (r: (WrapState, WrapAction))
        requires
            spec_wrap_step_allowed(st, ev),
        ensures
            spec_wrap_step_post(st, ev, r),
    {
        match (st, ev) {
            (WrapState::FirstPending(descriptor), WrapEvent::Response(out)) => match out {
                Result::Ok(b) => (WrapState::Completed, WrapAction::Finish(Result::Ok(b))),
                Result::Err(e) => {
                    if is_expiry(&e) {
                        let auth = self.user_auth.read();
                        let uid = UserUid(String::from_str(auth.uid.expose_secret()));
                        let req = AuthRefreshRequest::new(
                            &uid,
                            auth.refresh_token.expose_secret(),
                        ).build();
                        (WrapState::RefreshPending(descriptor), WrapAction::ExecuteRefresh(req))
                    } else {
                        (WrapState::Completed, WrapAction::Finish(Result::Err(e)))
                    }
                },
            },
            (WrapState::RefreshPending(descriptor), WrapEvent::RefreshResponse(out)) => match out {
                Result::Ok(resp) => {
                    let new_auth = UserAuth::from_auth_refresh_response(&resp);
                    let authed = apply_auth(
                        descriptor,
                        new_auth.uid.expose_secret(),
                        new_auth.access_token.expose_secret(),
                    );
                    self.user_auth.replace(new_auth);
                    (WrapState::RetryPending, WrapAction::Execute(authed))
                },
                Result::Err(e) => (WrapState::Completed, WrapAction::Finish(Result::Err(e))),
            },
            (WrapState::RetryPending, WrapEvent::Response(out)) => (
                WrapState::Completed,
                WrapAction::Finish(out),
            ),
            _ => vstd::pervasive::unreached(),
        }
    }
}

/// The expiry signal: a structured server error with HTTP status 401.
fn is_expiry(e: &HttpError) -> (r: bool)
    ensures
        r == spec_is_expiry(*e),
{
    match e {
        HttpError::Api(a) => a.http_code == 401,
        _ => false,
    }
}

impl TotpSession {
    /// Submit a second-factor code over the pending session's own
    /// credentials.
    pub fn submit_totp(&self, code: &str) -> (r: WrapCall)
        ensures
            spec_wrap_started(
                r,
                RequestDataView {
                    method: Method::Post,
                    url: "auth/v4/2fa"@,
                    headers: Seq::<HeaderView>::empty(),
                    body: Option::Some(RequestBodyView::Totp { code: code@ }),
                },
            ),
    {
        self.session.submit_totp(code)
    }

    /// Continue the second-factor submission by one observed outcome:
    /// the code submission is a wrapped call over the pending session's
    /// own credentials, so it enjoys the same refresh-and-retry policy.
    /// This steps that call only; authenticated endpoint calls still
    /// need [`TotpSession::complete`] first.
    pub fn wrap_step(&self, st: WrapState, ev: WrapEvent) -> (r: (WrapState, WrapAction))
        requires
            spec_wrap_step_allowed(st, ev),
        ensures
            spec_wrap_step_post(st, ev, r),
    {
        self.session.wrap_step(st, ev)
    }

    /// Promote this pending handle once the code submission's outcome is
    /// known: on success the pending session itself — over the same
    /// credentials — becomes the authenticated one; on failure the
    /// submission's own error is handed back. Before that, no
    /// authenticated call is possible through this handle.
    pub fn complete(self, outcome: Result<Vec<u8>, HttpError>) -> (r: Result<Session, HttpError>)
        ensures
            outcome is Ok <==> r is Ok,
            outcome matches Err(e) ==> r == Result::<Session, HttpError>::Err(e),
            r matches Ok(s) ==> s.spec_credentials() == self.spec_credentials(),
    {
        match outcome {
            Result::Ok(_) => Result::Ok(self.session),
            Result::Err(e) => Result::Err(e),
        }
    }
}

// ============================================================================
// Laws of the wrapped call
// ============================================================================

/// At most one retry per wrapped call. Every step strictly advances the
/// phase (an ensures of [`Session::wrap_step`]), so along any run of one
/// wrapped call each phase — and with it the retry phase — occurs at most
/// once, and the run takes at most three steps after [`Session::wrap`].
pub proof fn lemma_wrap_run_bounded(states: Seq<WrapState>)
    requires
        forall|i: int|
            0 <= i < states.len() - 1 ==> spec_phase(states[i + 1]) > spec_phase(
                #[trigger] states[i],
            ),
    ensures
        states.len() <= 4,
        forall|i: int, j: int|
            0 <= i < j < states.len() ==> !(#[trigger] states[i] is RetryPending
                && #[trigger] states[j] is RetryPending),
{
    assert forall|i: int, j: int| 0 <= i < j < states.len() implies spec_phase(states[i])
        < spec_phase(states[j]) by {
        lemma_phase_increases(states, i, j);
    }
    if states.len() >= 5 {
        assert(spec_phase(states[0]) >= 0);
        assert(spec_phase(states[4]) > spec_phase(states[0]) + 3) by {
            lemma_phase_increases(states, 0, 1);
            lemma_phase_increases(states, 1, 2);
            lemma_phase_increases(states, 2, 3);
            lemma_phase_increases(states, 3, 4);
        }
        assert(spec_phase(states[4]) <= 3);
        assert(false);
    }
}

/// The phase strictly increases along any stretch of a run.
proof fn lemma_phase_increases(states: Seq<WrapState>, i: int, j: int)
    requires
        forall|k: int|
            0 <= k < states.len() - 1 ==> spec_phase(states[k + 1]) > spec_phase(
                #[trigger] states[k],
            ),
        0 <= i < j < states.len(),
    ensures
        spec_phase(states[i]) < spec_phase(states[j]),
    decreases j - i,
{
    if j == i + 1 {
    } else {
        lemma_phase_increases(states, i, j - 1);
    }
}

// ============================================================================
// Authenticated endpoints
// ============================================================================

/// The descriptor shape shared by the simple GET endpoints: a bare path,
/// no headers, no body.
pub open spec fn spec_get_descriptor(url: Seq<char>) -> RequestDataView {
    RequestDataView {
        method: Method::Get,
        url: url,
        headers: Seq::<HeaderView>::empty(),
        body: Option::<RequestBodyView>::None,
    }
}

impl Session {
    /// Submit a second-factor code for this session.
    pub fn submit_totp(&self, code: &str) -> (r: WrapCall)
        ensures
            spec_wrap_started(
                r,
                RequestDataView {
                    method: Method::Post,
                    url: "auth/v4/2fa"@,
                    headers: Seq::<HeaderView>::empty(),
                    body: Option::Some(RequestBodyView::Totp { code: code@ }),
                },
            ),
    {
        let d = TOTPRequest::new(code).build();
        proof {
            assert(d@.headers =~= Seq::<HeaderView>::empty());
        }
        self.wrap(d)
    }

    /// Fetch the account's profile data.
    pub fn get_user(&self) -> (r: WrapCall)
        ensures
            spec_wrap_started(r, spec_get_descriptor("core/v4/users"@)),
    {
        let d = UserInfoRequest {}.build();
        proof {
            assert(d@.headers =~= Seq::<HeaderView>::empty());
        }
        self.wrap(d)
    }

    /// End this session on the server.
    pub fn logout(&self) -> (r: WrapCall)
        ensures
            spec_wrap_started(
                r,
                RequestDataView {
                    method: Method::Delete,
                    url: "auth/v4"@,
                    headers: Seq::<HeaderView>::empty(),
                    body: Option::<RequestBodyView>::None,
                },
            ),
    {
        let d = LogoutRequest {}.build();
        proof {
            assert(d@.headers =~= Seq::<HeaderView>::empty());
        }
        self.wrap(d)
    }

    /// Fetch the newest event stream position.
    pub fn get_latest_event(&self) -> (r: WrapCall)
        ensures
            spec_wrap_started(r, spec_get_descriptor("core/v4/events/latest"@)),
    {
        let d = GetLatestEventRequest {}.build();
        proof {
            assert(d@.headers =~= Seq::<HeaderView>::empty());
        }
        self.wrap(d)
    }

    /// Fetch the events that follow a known position.
    pub fn get_event(&self, id: &crate::events::EventId) -> (r: WrapCall)
        ensures
            spec_wrap_started(r, spec_get_descriptor("core/v4/events/"@ + id@)),
    {
        let d = GetEventRequest::new(id).build();
        proof {
            assert(d@.headers =~= Seq::<HeaderView>::empty());
        }
        self.wrap(d)
    }

    /// Fetch the labels of one kind.
    pub fn get_labels(&self, label_type: LabelType) -> (r: WrapCall)
        ensures
            spec_wrap_started(
                r,
                spec_get_descriptor(
                    "core/v4/labels?Type="@ + crate::http::spec_decimal(
                        label_type.spec_value() as nat,
                    ),
                ),
            ),
    {
        let d = GetLabelsRequest::new(label_type).build();
        proof {
            assert(d@.headers =~= Seq::<HeaderView>::empty());
        }
        self.wrap(d)
    }

    /// List messages with optional filtering.
    pub fn get_messages(&self, filter: MessageFilter) -> (r: WrapCall)
        ensures
            spec_wrap_started(
                r,
                spec_get_descriptor(crate::requests::messages::spec_messages_url(filter@)),
            ),
    {
        let d = GetMessagesRequest::new(filter).build();
        proof {
            assert(d@.headers =~= Seq::<HeaderView>::empty());
        }
        self.wrap(d)
    }

    /// List the messages in one label/folder.
    pub fn get_messages_in_label(&self, label_id: &str) -> (r: WrapCall)
        ensures
            spec_wrap_started(
                r,
                spec_get_descriptor(
                    crate::requests::messages::spec_messages_url(
                        crate::message::MessageFilterView {
                            label_id: Option::Some(label_id@),
                            page: Option::None,
                            page_size: Option::None,
                            desc: Option::None,
                            end_id: Option::None,
                            subject: Option::None,
                            address_id: Option::None,
                        },
                    ),
                ),
            ),
    {
        let d = GetMessagesRequest::for_label(String::from_str(label_id)).build();
        proof {
            assert(d@.headers =~= Seq::<HeaderView>::empty());
        }
        self.wrap(d)
    }

    /// Fetch a single message with full body content.
    pub fn get_message(&self, id: &MessageId) -> (r: WrapCall)
        ensures
            spec_wrap_started(r, spec_get_descriptor("mail/v4/messages/"@ + id@)),
    {
        let d = GetMessageRequest::new(id).build();
        proof {
            assert(d@.headers =~= Seq::<HeaderView>::empty());
        }
        self.wrap(d)
    }

    /// Mark messages as read.
    pub fn mark_messages_read(&self, ids: &[MessageId]) -> (r: WrapCall)
        ensures
            spec_wrap_started(
                r,
                RequestDataView {
                    method: Method::Put,
                    url: "mail/v4/messages/read"@,
                    headers: Seq::<HeaderView>::empty(),
                    body: Option::Some(RequestBodyView::MarkRead {
                        ids: ids@.map_values(|i: MessageId| i@),
                    }),
                },
            ),
    {
        let d = MarkMessagesReadRequest::new(ids).build();
        proof {
            assert(d@.headers =~= Seq::<HeaderView>::empty());
        }
        self.wrap(d)
    }

    /// Mark messages as unread.
    pub fn mark_messages_unread(&self, ids: &[MessageId]) -> (r: WrapCall)
        ensures
            spec_wrap_started(
                r,
                RequestDataView {
                    method: Method::Put,
                    url: "mail/v4/messages/unread"@,
                    headers: Seq::<HeaderView>::empty(),
                    body: Option::Some(RequestBodyView::MarkUnread {
                        ids: ids@.map_values(|i: MessageId| i@),
                    }),
                },
            ),
    {
        let d = MarkMessagesUnreadRequest::new(ids).build();
        proof {
            assert(d@.headers =~= Seq::<HeaderView>::empty());
        }
        self.wrap(d)
    }

    /// Add a label to messages.
    pub fn label_messages(&self, label_id: &str, ids: &[MessageId]) -> (r: WrapCall)
        ensures
            spec_wrap_started(
                r,
                RequestDataView {
                    method: Method::Put,
                    url: "mail/v4/messages/label"@,
                    headers: Seq::<HeaderView>::empty(),
                    body: Option::Some(RequestBodyView::Label {
                        label_id: label_id@,
                        ids: ids@.map_values(|i: MessageId| i@),
                    }),
                },
            ),
    {
        let d = LabelMessagesRequest::new(label_id, ids).build();
        proof {
            assert(d@.headers =~= Seq::<HeaderView>::empty());
        }
        self.wrap(d)
    }

    /// Remove a label from messages.
    pub fn unlabel_messages(&self, label_id: &str, ids: &[MessageId]) -> (r: WrapCall)
        ensures
            spec_wrap_started(
                r,
                RequestDataView {
                    method: Method::Put,
                    url: "mail/v4/messages/unlabel"@,
                    headers: Seq::<HeaderView>::empty(),
                    body: Option::Some(RequestBodyView::Unlabel {
                        label_id: label_id@,
                        ids: ids@.map_values(|i: MessageId| i@),
                    }),
                },
            ),
    {
        let d = UnlabelMessagesRequest::new(label_id, ids).build();
        proof {
            assert(d@.headers =~= Seq::<HeaderView>::empty());
        }
        self.wrap(d)
    }

    /// Permanently delete messages.
    pub fn delete_messages(&self, ids: &[MessageId]) -> (r: WrapCall)
        ensures
            spec_wrap_started(
                r,
                RequestDataView {
                    method: Method::Put,
                    url: "mail/v4/messages/delete"@,
                    headers: Seq::<HeaderView>::empty(),
                    body: Option::Some(RequestBodyView::Delete {
                        ids: ids@.map_values(|i: MessageId| i@),
                    }),
                },
            ),
    {
        let d = DeleteMessagesRequest::new(ids).build();
        proof {
            assert(d@.headers =~= Seq::<HeaderView>::empty());
        }
        self.wrap(d)
    }

    /// Fetch message counts per label.
    pub fn get_message_counts(&self) -> (r: WrapCall)
        ensures
            spec_wrap_started(r, spec_get_descriptor("mail/v4/messages/count"@)),
    {
        let d = GetMessageCountsRequest {}.build();
        proof {
            assert(d@.headers =~= Seq::<HeaderView>::empty());
        }
        self.wrap(d)
    }

    /// Download an attachment by ID; the outcome is the raw encrypted
    /// attachment data.
    pub fn get_attachment(&self, attachment_id: &str) -> (r: WrapCall)
        ensures
            spec_wrap_started(r, spec_get_descriptor("mail/v4/attachments/"@ + attachment_id@)),
    {
        let d = GetAttachmentRequest::new(attachment_id).build();
        proof {
            assert(d@.headers =~= Seq::<HeaderView>::empty());
        }
        self.wrap(d)
    }

    /// Fetch the user's private keys.
    pub fn get_user_keys(&self) -> (r: WrapCall)
        ensures
            spec_wrap_started(r, spec_get_descriptor("core/v4/keys"@)),
    {
        let d = GetUserKeysRequest {}.build();
        proof {
            assert(d@.headers =~= Seq::<HeaderView>::empty());
        }
        self.wrap(d)
    }

    /// Fetch the keys of one address.
    pub fn get_address_keys(&self, address_id: &crate::message::AddressId) -> (r: WrapCall)
        ensures
            spec_wrap_started(r, spec_get_descriptor("core/v4/keys/address/"@ + address_id@)),
    {
        let d = GetAddressKeysRequest::new(address_id).build();
        proof {
            assert(d@.headers =~= Seq::<HeaderView>::empty());
        }
        self.wrap(d)
    }

    /// Fetch the public keys of an email address.
    pub fn get_public_keys(&self, email: &str) -> (r: WrapCall)
        ensures
            spec_wrap_started(r, spec_get_descriptor("core/v4/keys?Email="@ + email@)),
    {
        let d = GetPublicKeysRequest::new(email).build();
        proof {
            assert(d@.headers =~= Seq::<HeaderView>::empty());
        }
        self.wrap(d)
    }

    /// Fetch the user keys and all address keys in one call.
    pub fn get_all_keys(&self) -> (r: WrapCall)
        ensures
            spec_wrap_started(r, spec_get_descriptor("core/v4/keys/all"@)),
    {
        let d = GetAllKeysRequest {}.build();
        proof {
            assert(d@.headers =~= Seq::<HeaderView>::empty());
        }
        self.wrap(d)
    }

    /// Create a new draft message.
    pub fn create_draft(&self, draft: &DraftMessage) -> (r: WrapCall)
        ensures
            spec_wrap_started(
                r,
                RequestDataView {
                    method: Method::Post,
                    url: "mail/v4/messages"@,
                    headers: Seq::<HeaderView>::empty(),
                    body: Option::Some(RequestBodyView::CreateDraft { message: draft@ }),
                },
            ),
    {
        let d = CreateDraftRequest::new(draft).build();
        proof {
            assert(d@.headers =~= Seq::<HeaderView>::empty());
        }
        self.wrap(d)
    }

    /// Replace the content of an existing draft.
    pub fn update_draft(&self, id: &MessageId, draft: &DraftMessage) -> (r: WrapCall)
        ensures
            spec_wrap_started(
                r,
                RequestDataView {
                    method: Method::Put,
                    url: "mail/v4/messages/"@ + id@,
                    headers: Seq::<HeaderView>::empty(),
                    body: Option::Some(RequestBodyView::UpdateDraft { message: draft@ }),
                },
            ),
    {
        let d = UpdateDraftRequest::new(id, draft).build();
        proof {
            assert(d@.headers =~= Seq::<HeaderView>::empty());
        }
        self.wrap(d)
    }

    /// Send a previously created draft to its recipients.
    pub fn send_message(&self, id: &MessageId, packages: &[MessagePackage]) -> (r: WrapCall)
        ensures
            spec_wrap_started(
                r,
                RequestDataView {
                    method: Method::Post,
                    url: "mail/v4/messages/"@ + id@,
                    headers: Seq::<HeaderView>::empty(),
                    body: Option::Some(RequestBodyView::SendPackages {
                        packages: packages@.map_values(|p: MessagePackage| p@),
                    }),
                },
            ),
    {
        let d = SendMessageRequest::new(id, packages).build();
        proof {
            assert(d@.headers =~= Seq::<HeaderView>::empty());
        }
        self.wrap(d)
    }
}

} // verus!
