//! Secret key material, held behind narrow accessors.

use vstd::prelude::*;

verus! {

/// Relies on zeroize::Zeroize for String: overwrites the buffer with zeros
/// and clears it, leaving the string empty.
#[verifier::external_body]
fn zeroize_string(s: &mut String)
    ensures
        final(s)@.len() == 0,
{
    zeroize::Zeroize::zeroize(s)
}

/// An owned secret string (a network password, an access token). Read
/// access goes only through `insecure` and `map`, to discourage stray
/// copies; `wipe` erases the contents in place once they are no longer
/// needed. Secrets must never reach a log; only loggable identifiers may.
#[derive(Clone)]
pub struct SecureString {
    secret: String,
}

impl View for SecureString {
    type V = Seq<char>;

    closed spec fn view(&self) -> Seq<char> {
        self.secret@
    }
}

impl SecureString {
    /// Take ownership of secret material.
    pub fn new(secret: String) -> (s: Self)
        ensures
            s@ == secret@,
    {
        SecureString { secret }
    }

    /// Build a new secret from this one without exposing an intermediate
    /// unprotected `String` to the caller.
    pub fn map<F: FnOnce(&str) -> String>(&self, f: F) -> (r: SecureString)
        requires
            forall|s: &str| s@ == self@ ==> #[trigger] call_requires(f, (s,)),
        ensures
            exists|s: &str, out: String|
                s@ == self@ && #[trigger] call_ensures(f, (s,), out) && r@ == out@,
    {
        SecureString { secret: f(self.secret.as_str()) }
    }

    /// A reference to the unprotected contents. Prefer `map` when the goal
    /// is another `SecureString`.
    pub fn insecure(&self) -> (r: &str)
        ensures
            r@ == self@,
    {
        self.secret.as_str()
    }

    /// Erase the secret in place.
    pub fn wipe(&mut self)
        ensures
            final(self)@.len() == 0,
    {
        zeroize_string(&mut self.secret)
    }
}

} // verus!
