//! Secret-carrying strings.
//!
//! Credentials (user identifier, access token, refresh token) are held in
//! [`SecretString`] values. The wrapped text is reachable only through
//! [`SecretString::expose_secret`]; every textual rendering offered by this
//! crate prints the fixed placeholder returned by [`SecretString::redacted`]
//! instead, so no default output can leak the wrapped value.

use vstd::prelude::*;

verus! {

/// A string that must not appear in ordinary textual output.
pub struct SecretString {
    value: String,
}

impl View for SecretString {
    type V = Seq<char>;

    closed spec fn view(&self) -> Seq<char> {
        self.value@
    }
}

impl SecretString {
    /// Wrap a string as a secret.
    pub fn new(value: String) -> (r: Self)
        ensures
            r@ == value@,
    {
        SecretString { value }
    }

    /// Reveal the wrapped value. Callers take responsibility for keeping
    /// the result out of logs and displays.
    pub fn expose_secret(&self) -> (r: &str)
        ensures
            r@ == self@,
    {
        self.value.as_str()
    }

    /// Whether two secrets wrap the same value. Comparison reveals the
    /// contents to nobody; only the verdict leaves.
    pub fn eq_secret(&self, other: &SecretString) -> (r: bool)
        ensures
            r == (self@ == other@),
    {
        self.value == other.value
    }

    /// The placeholder that stands in for any secret in textual output.
    /// It does not depend on the wrapped value.
    pub fn redacted() -> (r: String)
        ensures
            r@ == "[REDACTED]"@,
    {
        String::from_str("[REDACTED]")
    }
}

impl Clone for SecretString {
    fn clone(&self) -> (r: Self)
        ensures
            r@ == self@,
    {
        SecretString { value: self.value.clone() }
    }
}

} // verus!
