//! Authentication and account API request builders: the SRP challenge and
//! proof calls, credential refresh, second factor, logout, and the simple
//! account reads (user info, labels, events).

use vstd::prelude::*;
use crate::auth::{AuthInfoResponse, AuthResponse, HumanVerificationLoginData, UserUid};
use crate::events::{Event, EventId};
use crate::http::{u32_to_string, Header, Method, RequestBody, RequestBodyView, RequestData};
use crate::labels::{Label, LabelType};
use crate::user::User;

verus! {

/// Request for a username's SRP challenge data.
///
/// Endpoint: POST auth/v4/info
pub struct AuthInfoRequest {
    pub username: String,
}

impl AuthInfoRequest {
    pub fn build(&self) -> (r: RequestData)
        ensures
            r.method == Method::Post,
            r.url@ == "auth/v4/info"@,
            r.headers@ == Seq::<Header>::empty(),
            r.body matches Option::Some(b) && b@ == (RequestBodyView::AuthInfo {
                username: self.username@,
            }),
    {
        RequestData::new(Method::Post, String::from_str("auth/v4/info")).json(
            RequestBody::AuthInfo { username: self.username.clone() },
        )
    }
}

/// Submission of the client's SRP proof.
///
/// Endpoint: POST auth/v4
pub struct AuthRequest {
    pub username: String,
    pub client_ephemeral: String,
    pub client_proof: String,
    pub srp_session: String,
    pub human_verification: Option<HumanVerificationLoginData>,
}

impl AuthRequest {
    pub fn build(&self) -> (r: RequestData)
        ensures
            r.method == Method::Post,
            r.url@ == "auth/v4"@,
            r.headers@ == Seq::<Header>::empty(),
            r.body matches Option::Some(b) && b@ == (RequestBodyView::Auth {
                username: self.username@,
                client_ephemeral: self.client_ephemeral@,
                client_proof: self.client_proof@,
                srp_session: self.srp_session@,
                human_verification: match self.human_verification {
                    Option::Some(hv) => Option::Some(hv@),
                    Option::None => Option::None,
                },
            }),
    {
        RequestData::new(Method::Post, String::from_str("auth/v4")).json(
            RequestBody::Auth {
                username: self.username.clone(),
                client_ephemeral: self.client_ephemeral.clone(),
                client_proof: self.client_proof.clone(),
                srp_session: self.srp_session.clone(),
                human_verification: match &self.human_verification {
                    Option::Some(hv) => Option::Some(hv.clone()),
                    Option::None => Option::None,
                },
            },
        )
    }
}

/// Submission of a refresh token to mint fresh credentials.
///
/// Endpoint: POST auth/v4/refresh
pub struct AuthRefreshRequest {
    uid: String,
    token: String,
}

impl AuthRefreshRequest {
    /// The session identifier the refresh is for.
    pub closed spec fn spec_uid(&self) -> Seq<char> {
        self.uid@
    }

    /// The refresh token being spent.
    pub closed spec fn spec_token(&self) -> Seq<char> {
        self.token@
    }

    pub fn new(uid: &UserUid, token: &str) -> (r: Self)
        ensures
            r.spec_uid() == uid.0@,
            r.spec_token() == token@,
    {
        AuthRefreshRequest { uid: uid.0.clone(), token: String::from_str(token) }
    }

    pub fn build(&self) -> (r: RequestData)
        ensures
            r.method == Method::Post,
            r.url@ == "auth/v4/refresh"@,
            r.headers@ == Seq::<Header>::empty(),
            r.body matches Option::Some(b) && b@ == (RequestBodyView::AuthRefresh {
                uid: self.spec_uid(),
                refresh_token: self.spec_token(),
            }),
    {
        RequestData::new(Method::Post, String::from_str("auth/v4/refresh")).json(
            RequestBody::AuthRefresh {
                uid: self.uid.clone(),
                refresh_token: self.token.clone(),
            },
        )
    }
}

/// Submission of a time-based one-time code as the second factor.
///
/// Endpoint: POST auth/v4/2fa
pub struct TOTPRequest {
    code: String,
}

impl TOTPRequest {
    /// The submitted code.
    pub closed spec fn spec_code(&self) -> Seq<char> {
        self.code@
    }

    pub fn new(code: &str) -> (r: Self)
        ensures
            r.spec_code() == code@,
    {
        TOTPRequest { code: String::from_str(code) }
    }

    pub fn build(&self) -> (r: RequestData)
        ensures
            r.method == Method::Post,
            r.url@ == "auth/v4/2fa"@,
            r.headers@ == Seq::<Header>::empty(),
            r.body matches Option::Some(b) && b@ == (RequestBodyView::Totp {
                code: self.spec_code(),
            }),
    {
        RequestData::new(Method::Post, String::from_str("auth/v4/2fa")).json(
            RequestBody::Totp { code: self.code.clone() },
        )
    }
}

/// Request ending the session.
///
/// Endpoint: DELETE auth/v4
pub struct LogoutRequest;

impl LogoutRequest {
    pub fn build(&self) -> (r: RequestData)
        ensures
            r.method == Method::Delete,
            r.url@ == "auth/v4"@,
            r.headers@ == Seq::<Header>::empty(),
            r.body is None,
    {
        RequestData::new(Method::Delete, String::from_str("auth/v4"))
    }
}

/// Request for the account's profile data.
///
/// Endpoint: GET core/v4/users
pub struct UserInfoRequest;

/// Response to [`UserInfoRequest`].
#[derive(Debug)]
pub struct UserInfoResponse {
    pub user: User,
}

impl UserInfoRequest {
    pub fn build(&self) -> (r: RequestData)
        ensures
            r.method == Method::Get,
            r.url@ == "core/v4/users"@,
            r.headers@ == Seq::<Header>::empty(),
            r.body is None,
    {
        RequestData::new(Method::Get, String::from_str("core/v4/users"))
    }
}

/// Request for the labels of one kind.
///
/// Endpoint: GET core/v4/labels?Type={t}
pub struct GetLabelsRequest {
    label_type: LabelType,
}

/// Response to [`GetLabelsRequest`].
#[derive(Debug)]
pub struct GetLabelsResponse {
    pub labels: Vec<Label>,
}

impl GetLabelsRequest {
    /// The requested label kind.
    pub closed spec fn spec_label_type(&self) -> LabelType {
        self.label_type
    }

    pub fn new(label_type: LabelType) -> (r: Self)
        ensures
            r.spec_label_type() == label_type,
    {
        GetLabelsRequest { label_type }
    }

    pub fn build(&self) -> (r: RequestData)
        ensures
            r.method == Method::Get,
            r.url@ == "core/v4/labels?Type="@ + crate::http::spec_decimal(
                self.spec_label_type().spec_value() as nat,
            ),
            r.headers@ == Seq::<Header>::empty(),
            r.body is None,
    {
        let mut url = String::from_str("core/v4/labels?Type=");
        let digits = u32_to_string(self.label_type.value());
        url.append(digits.as_str());
        RequestData::new(Method::Get, url)
    }
}

/// Request for the newest event stream position.
///
/// Endpoint: GET core/v4/events/latest
pub struct GetLatestEventRequest;

/// Response to [`GetLatestEventRequest`].
#[derive(Debug)]
pub struct LatestEventResponse {
    pub event_id: EventId,
}

impl GetLatestEventRequest {
    pub fn build(&self) -> (r: RequestData)
        ensures
            r.method == Method::Get,
            r.url@ == "core/v4/events/latest"@,
            r.headers@ == Seq::<Header>::empty(),
            r.body is None,
    {
        RequestData::new(Method::Get, String::from_str("core/v4/events/latest"))
    }
}

/// Request for the events that follow a known position.
///
/// Endpoint: GET core/v4/events/{id}
pub struct GetEventRequest {
    id: EventId,
}

/// Response to [`GetEventRequest`].
#[derive(Debug)]
pub struct GetEventResponse {
    pub event: Event,
}

impl GetEventRequest {
    /// The event stream position being polled.
    pub closed spec fn spec_id(&self) -> Seq<char> {
        self.id@
    }

    pub fn new(id: &EventId) -> (r: Self)
        ensures
            r.spec_id() == id@,
    {
        GetEventRequest { id: id.clone() }
    }

    pub fn build(&self) -> (r: RequestData)
        ensures
            r.method == Method::Get,
            r.url@ == "core/v4/events/"@ + self.spec_id(),
            r.headers@ == Seq::<Header>::empty(),
            r.body is None,
    {
        let mut url = String::from_str("core/v4/events/");
        url.append(self.id.0.as_str());
        RequestData::new(Method::Get, url)
    }
}

} // verus!
