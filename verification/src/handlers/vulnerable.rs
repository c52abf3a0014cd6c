//! The computational half of the vulnerable forgot-password endpoint: from
//! the deserialized request to the response value carrying the predictable
//! token.

use crate::token_generator;
use vstd::prelude::*;

verus! {

/// The deserialized request body: `{ "user_id": <string> }`.
pub struct UserRequest {
    pub user_id: String,
}

/// The body of the endpoint's reply: `{ "token": <string> }` once serialized.
pub struct TokenResponse {
    pub token: String,
}

/// Answers a vulnerable forgot-password request: the token is the user
/// identifier, a hyphen, and the predictable numeric suffix, identical on
/// every call for the same identifier.
pub fn forgot_password(req: &UserRequest) -> (r: TokenResponse)
    ensures
        r.token@ == token_generator::vulnerable_token(req.user_id@),
{
    let token = token_generator::generate_vulnerable_token(req.user_id.as_str());
    TokenResponse { token }
}

} // verus!
