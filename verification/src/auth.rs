//! Authentication domain types: challenge and token payloads exchanged
//! during login and refresh, the credential triple a session owns, and
//! the second-factor and human-verification data attached to them.

use vstd::prelude::*;
use crate::secret::SecretString;

verus! {

/// Opaque identifier of an authenticated session, assigned at login.
#[derive(Debug)]
pub struct UserUid(pub String);

impl Clone for UserUid {
    fn clone(&self) -> (r: Self)
        ensures
            r == *self,
    {
        UserUid(self.0.clone())
    }
}

/// The server's report of which second factor an account requires.
#[derive(Debug, Clone, Copy, PartialEq, Eq, Structural)]
pub enum TfaStatus {
    /// No second factor is required.
    Disabled,
    /// A time-based one-time code is required.
    Totp,
    /// Only a FIDO2 authenticator is accepted.
    Fido2,
    /// Either a time-based code or a FIDO2 authenticator is accepted.
    TotpOrFido2,
}

/// A second-factor method, named in errors about unsupported methods.
#[derive(Debug, Clone, Copy, PartialEq, Eq, Structural)]
pub enum TwoFactorAuth {
    Totp,
    Fido2,
}

/// An anti-abuse challenge the server may demand before completing login.
#[derive(Debug)]
pub struct HumanVerification {
    /// The verification methods the server offers.
    pub methods: Vec<String>,
    /// The challenge token to solve.
    pub token: String,
}

impl Clone for HumanVerification {
    fn clone(&self) -> (r: Self)
        ensures
            r.methods@ == self.methods@,
            r.token@ == self.token@,
    {
        let mut methods: Vec<String> = Vec::new();
        let mut i: usize = 0;
        while i < self.methods.len()
            invariant
                i <= self.methods.len(),
                methods@ == self.methods@.subrange(0, i as int),
            decreases self.methods.len() - i,
        {
            methods.push(self.methods[i].clone());
            i += 1;
            proof {
                assert(methods@ =~= self.methods@.subrange(0, i as int));
            }
        }
        proof {
            assert(methods@ =~= self.methods@);
        }
        HumanVerification { methods, token: self.token.clone() }
    }
}

/// A solved human-verification challenge handed back on a login retry.
#[derive(Debug)]
pub struct HumanVerificationLoginData {
    /// The verification method that was solved.
    pub hv_type: String,
    /// The solution token.
    pub token: String,
}

/// Mathematical model of a [`HumanVerificationLoginData`].
pub struct HumanVerificationLoginDataView {
    pub hv_type: Seq<char>,
    pub token: Seq<char>,
}

impl View for HumanVerificationLoginData {
    type V = HumanVerificationLoginDataView;

    open spec fn view(&self) -> HumanVerificationLoginDataView {
        HumanVerificationLoginDataView { hv_type: self.hv_type@, token: self.token@ }
    }
}

impl Clone for HumanVerificationLoginData {
    fn clone(&self) -> (r: Self)
        ensures
            r == *self,
    {
        HumanVerificationLoginData { hv_type: self.hv_type.clone(), token: self.token.clone() }
    }
}

/// Per-username challenge data returned by the authentication info call.
#[derive(Debug)]
pub struct AuthInfoResponse {
    /// SRP password hash version.
    pub version: u8,
    /// PGP message carrying the SRP modulus signed by the server.
    pub modulus: String,
    /// The server's SRP ephemeral value.
    pub server_ephemeral: String,
    /// Salt for the password hash.
    pub salt: String,
    /// Server-assigned SRP session identifier.
    pub srp_session: String,
}

/// Tokens and proof returned by the server when a login proof is accepted.
#[derive(Debug)]
pub struct AuthResponse {
    /// Session identifier.
    pub uid: String,
    /// Short-lived call credential.
    pub access_token: String,
    /// Longer-lived credential used to mint a new access token.
    pub refresh_token: String,
    /// The server's SRP proof, to compare against the expected one.
    pub server_proof: String,
    /// Which second factor the account requires.
    pub tfa: TfaStatus,
}

/// Tokens returned by the credential refresh call.
#[derive(Debug)]
pub struct AuthRefreshResponse {
    /// Session identifier.
    pub uid: String,
    /// Fresh short-lived call credential.
    pub access_token: String,
    /// Fresh refresh credential.
    pub refresh_token: String,
}

/// The credential triple a session owns. The three fields are only ever
/// replaced together.
pub struct UserAuth {
    /// Session identifier, sent as a header with every call.
    pub uid: SecretString,
    /// Bearer token attached to every call.
    pub access_token: SecretString,
    /// Credential spent to mint a new access token.
    pub refresh_token: SecretString,
}

/// Mathematical model of a [`UserAuth`] credential triple.
pub struct UserAuthView {
    pub uid: Seq<char>,
    pub access_token: Seq<char>,
    pub refresh_token: Seq<char>,
}

impl View for UserAuth {
    type V = UserAuthView;

    open spec fn view(&self) -> UserAuthView {
        UserAuthView {
            uid: self.uid@,
            access_token: self.access_token@,
            refresh_token: self.refresh_token@,
        }
    }
}

impl UserAuth {
    /// Build the credential triple from a successful login response.
    pub fn from_auth_response(r: &AuthResponse) -> (a: UserAuth)
        ensures
            a.uid@ == r.uid@,
            a.access_token@ == r.access_token@,
            a.refresh_token@ == r.refresh_token@,
    {
        UserAuth {
            uid: SecretString::new(r.uid.clone()),
            access_token: SecretString::new(r.access_token.clone()),
            refresh_token: SecretString::new(r.refresh_token.clone()),
        }
    }

    /// Build the credential triple from a successful refresh response.
    pub fn from_auth_refresh_response(r: &AuthRefreshResponse) -> (a: UserAuth)
        ensures
            a.uid@ == r.uid@,
            a.access_token@ == r.access_token@,
            a.refresh_token@ == r.refresh_token@,
    {
        UserAuth {
            uid: SecretString::new(r.uid.clone()),
            access_token: SecretString::new(r.access_token.clone()),
            refresh_token: SecretString::new(r.refresh_token.clone()),
        }
    }
}

impl Clone for UserAuth {
    fn clone(&self) -> (r: Self)
        ensures
            r.uid@ == self.uid@,
            r.access_token@ == self.access_token@,
            r.refresh_token@ == self.refresh_token@,
    {
        UserAuth {
            uid: self.uid.clone(),
            access_token: self.access_token.clone(),
            refresh_token: self.refresh_token.clone(),
        }
    }
}

} // verus!
