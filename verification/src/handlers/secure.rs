//! The computational half of the secure forgot-password endpoint: it takes
//! no input and yields the response value carrying a fresh secure token.

use crate::token_generator;
use vstd::prelude::*;

verus! {

/// The body of the endpoint's reply: `{ "token": <string> }` once serialized.
pub struct TokenResponse {
    pub token: String,
}

/// Answers a secure forgot-password request: a fresh, unpredictable token
/// in the canonical 36-character random-UUID form.
pub fn forgot_password() -> (r: TokenResponse)
    ensures
        token_generator::is_uuid_v4_text(r.token@),
{
    let token = token_generator::generate_secure_token();
    TokenResponse { token }
}

} // verus!
