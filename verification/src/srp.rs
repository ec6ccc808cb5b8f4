//! The SRP engine: zero-knowledge password proofs.
//!
//! The arithmetic lives in the `proton_srp` crate and is consumed as an
//! opaque capability: building the client state verifies the server's
//! signed modulus, and generating proofs draws a fresh random client
//! ephemeral, so nothing useful can be promised of the produced values.
//! Everything that inspects a proof afterwards is verified code that
//! takes the proof as an argument.

use vstd::prelude::*;

verus! {

/// The client's proof material, base64-encoded as the API expects it.
pub struct SrpProof {
    /// The client ephemeral to submit.
    pub client_ephemeral: String,
    /// The client proof to submit.
    pub client_proof: String,
    /// The server proof this client expects back on success.
    pub expected_server_proof: String,
}

/// Mathematical model of an [`SrpProof`].
pub struct SrpProofView {
    pub client_ephemeral: Seq<char>,
    pub client_proof: Seq<char>,
    pub expected_server_proof: Seq<char>,
}

impl View for SrpProof {
    type V = SrpProofView;

    open spec fn view(&self) -> SrpProofView {
        SrpProofView {
            client_ephemeral: self.client_ephemeral@,
            client_proof: self.client_proof@,
            expected_server_proof: self.expected_server_proof@,
        }
    }
}

impl SrpProof {
    /// Whether the proof the server returned equals the locally expected
    /// one. The outside crate compares the encoded proofs in constant
    /// time; the relation computed is equality of the two strings.
    pub fn compare_server_proof(&self, server_proof: &str) -> (r: bool)
        ensures
            r == (self.expected_server_proof@ == server_proof@),
    {
        let other = String::from_str(server_proof);
        self.expected_server_proof == other
    }
}

impl Clone for SrpProof {
    fn clone(&self) -> (r: Self)
        ensures
            r == *self,
    {
        SrpProof {
            client_ephemeral: self.client_ephemeral.clone(),
            client_proof: self.client_proof.clone(),
            expected_server_proof: self.expected_server_proof.clone(),
        }
    }
}

/// Declares `proton_srp::SRPAuth`, the opaque client-side SRP state, so
/// that it can pass between the two calls below.
#[verifier::external_type_specification]
#[verifier::external_body]
pub struct ExSRPAuth(proton_srp::SRPAuth);

/// Whether the SRP client accepts this challenge: the verdict of
/// `proton_srp::SRPAuth::with_pgp` on these arguments. Construction
/// draws no randomness — it checks the version, verifies the PGP-signed
/// modulus, decodes the base64 fields and hashes the password — so the
/// verdict is a function of the arguments alone. Which challenges it
/// accepts is not stated: only that acceptance is deterministic.
pub uninterp spec fn srp_client_accepts(
    password: Seq<char>,
    version: u8,
    salt: Seq<char>,
    modulus: Seq<char>,
    server_ephemeral: Seq<char>,
) -> bool;

/// Relies on `proton_srp::SRPAuth::with_pgp` (and on
/// `proton_srp::SrpHashVersion::try_from` to decode the version number):
/// verifies the PGP-signed modulus and hashes the password, returning the
/// client state, or an error when the version is unknown, the challenge
/// data is malformed, or the modulus signature is invalid. Every failure
/// path returns an error rendered to text; none panics. The call is
/// deterministic in its arguments, so its verdict carries the name
/// [`srp_client_accepts`].
#[verifier::external_body]
pub(crate) fn srp_client_new(
    password: &str,
    version: u8,
    salt: &str,
    modulus: &str,
    server_ephemeral: &str,
) -> (r: Result<proton_srp::SRPAuth, String>)
    ensures
        r is Ok <==> srp_client_accepts(password@, version, salt@, modulus@, server_ephemeral@),
{
    let v = match proton_srp::SrpHashVersion::try_from(version) {
        Ok(v) => v,
        Err(e) => return Err(e.to_string()),
    };
    match proton_srp::SRPAuth::with_pgp(None, password, v, salt, modulus, server_ephemeral) {
        Ok(auth) => Ok(auth),
        Err(e) => Err(e.to_string()),
    }
}

/// Relies on `proton_srp::SRPAuth::generate_proofs` (and on
/// `proton_srp::SRPProofB64::from` for the base64 encoding): draws a
/// random client ephemeral, so two calls on the same state return
/// different proofs; nothing is promised of the produced values.
#[verifier::external_body]
pub(crate) fn srp_generate_proofs(auth: &proton_srp::SRPAuth) -> (r: Result<SrpProof, String>) {
    match auth.generate_proofs() {
        Ok(p) => {
            let b = proton_srp::SRPProofB64::from(p);
            Ok(SrpProof {
                client_ephemeral: b.client_ephemeral,
                client_proof: b.client_proof,
                expected_server_proof: b.expected_server_proof,
            })
        }
        Err(e) => Err(e.to_string()),
    }
}

} // verus!
