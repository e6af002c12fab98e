//! Caller identities and the per-user API keys and ownership checks.
use vstd::prelude::*;
use crate::manager::{strip_hyphens, without_hyphens};
use crate::sources::new_uuid;
use crate::text::{contains, has_substring};

verus! {

/// The identity of an authenticated user.
#[derive(Debug, Clone)]
pub struct ClerkUser {
    pub id: String,
    pub email: String,
    pub first_name: Option<String>,
    pub last_name: Option<String>,
    pub image_url: Option<String>,
    pub created_at: i64,
}

/// The claims of a verified identity token.
#[derive(Debug, Clone)]
pub struct TokenClaims {
    pub sub: String,
    pub email: String,
    pub given_name: Option<String>,
    pub family_name: Option<String>,
    pub picture: Option<String>,
    pub iat: u64,
    pub exp: u64,
    pub aud: String,
    pub iss: String,
}

/// Why a request was refused access.
#[derive(Debug, Clone, Copy, PartialEq, Eq, Structural)]
pub enum AccessError {
    /// The token was not issued by the identity provider.
    InvalidIssuer,
    /// The user does not own the integration.
    Forbidden,
}

/// The user that verified claims describe, where the issuer is the identity
/// provider (its name holds `clerk`).
pub fn user_from_claims(claims: TokenClaims) -> (r: Result<ClerkUser, AccessError>)
    ensures
        match r {
            Ok(u) => has_substring(claims.iss@, "clerk"@) && u.id == claims.sub && u.email
                == claims.email && u.first_name == claims.given_name && u.last_name
                == claims.family_name && u.image_url == claims.picture && u.created_at == claims.iat as i64,
            Err(e) => !has_substring(claims.iss@, "clerk"@) && e == AccessError::InvalidIssuer,
        },
{
    if !contains(claims.iss.as_str(), "clerk") {
        return Err(AccessError::InvalidIssuer);
    }
    Ok(
        ClerkUser {
            id: claims.sub,
            email: claims.email,
            first_name: claims.given_name,
            last_name: claims.family_name,
            image_url: claims.picture,
            created_at: claims.iat as i64,
        },
    )
}

/// The API key of a user for a random token.
pub open spec fn user_api_key(user_id: Seq<char>, token: Seq<char>) -> Seq<char> {
    "json_oracle_"@ + user_id + "_"@ + token
}

/// Builds the API key of a user from a token.
pub fn user_api_key_from(user_id: &str, token: &str) -> (r: String)
    ensures
        r@ == user_api_key(user_id@, token@),
{
    "json_oracle_".to_string().concat(user_id).concat("_").concat(token)
}

/// Creates a user-specific API key: `json_oracle_`, the user id, `_` and a
/// random UUID without its hyphens.
pub fn create_user_api_key(user_id: &str) -> (r: String)
    ensures
        exists|u: Seq<char>| u.len() == 36 && r@ == user_api_key(user_id@, without_hyphens(u)),
{
    let uuid = new_uuid();
    let token = strip_hyphens(uuid.as_str());
    user_api_key_from(user_id, token.as_str())
}

/// Checks that a user owns an integration: its id holds the user's id.
pub fn validate_user_integration(integration_id: &str, user_id: &str) -> (r: Result<(), AccessError>)
    ensures
        r is Ok <==> has_substring(integration_id@, user_id@),
        r is Err ==> r == Err::<(), AccessError>(AccessError::Forbidden),
{
    if contains(integration_id, user_id) {
        Ok(())
    } else {
        Err(AccessError::Forbidden)
    }
}

} // verus!
