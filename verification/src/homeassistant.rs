//! What one remote state lookup computes.
//!
//! The HTTP exchange itself — opening the connection, sending the request,
//! reading and decoding the body — is the runtime's work; this module pins
//! down the pieces of the exchange that are pure computation: the request
//! URL, the authorization header, and which status codes count as success.

use vstd::prelude::*;
use vstd::string::StringExecFns;

use crate::secure_string::SecureString;

verus! {

/// Generic state of a remote entity: only the state string is captured.
/// Entities with more fields of interest would get richer types.
pub struct EntityState {
    /// The entity's current state, as the service reports it.
    pub state: String,
}

/// The URL under which the remote service exposes one entity's state:
/// the base URL followed by the states path and the entity identifier.
pub fn entity_state_url(base_url: &str, entity_id: &str) -> (url: String)
    ensures
        url@ == base_url@ + "/api/states/"@ + entity_id@,
{
    let mut url = base_url.to_owned();
    url.append("/api/states/");
    url.append(entity_id);
    url
}

/// The authorization header value the remote service expects: the word
/// `Bearer`, a space, and the access token. The token is secret, so the
/// whole header value is one too.
pub fn bearer_header(token: &SecureString) -> (h: SecureString)
    ensures
        h@ == "Bearer "@ + token@,
{
    let mut h = "Bearer ".to_owned();
    h.append(token.insecure());
    SecureString::new(h)
}

/// Whether an HTTP status code reports success.
pub fn status_is_success(status: u16) -> (r: bool)
    ensures
        r == (200 <= status <= 299),
{
    200 <= status && status <= 299
}

} // verus!
