use vstd::prelude::*;

use crate::error::EdenServerError;

verus! {

/// The signed bearer token that `jsonwebtoken::encode` produces, with its
/// default header, for the claims `{"iss": iss, "role": role}` signed with
/// the HMAC-SHA256 secret `secret`. The token is a function of these three
/// strings alone: the claims serialize with a fixed key order, and
/// HMAC-SHA256 over the fixed header and claims is deterministic. Signing
/// goes through jsonwebtoken's process-wide crypto provider; this crate's
/// build pins the RustCrypto one, and any conforming provider computes the
/// same HMAC-SHA256.
pub uninterp spec fn token_of(iss: Seq<char>, role: Seq<char>, secret: Seq<char>) -> Seq<char>;

#[verifier::external_type_specification]
#[verifier::external_body]
pub struct ExJwtError(jsonwebtoken::errors::Error);

/// Relies on jsonwebtoken::encode with the default header (HS256) and an
/// HMAC secret: the token it signs is deterministic — base64 of the header,
/// base64 of the claims JSON and an HMAC signature, each a function of the
/// issuer, role and secret alone. On this path encoding always succeeds:
/// the key family matches the header's algorithm, the HMAC signer accepts a
/// key of any length, and serializing the fixed header and a string-keyed
/// claims object cannot fail.
#[verifier::external_body]
fn jwt_encode(iss: &str, role: &str, secret: &str) -> (r: Result<
    String,
    jsonwebtoken::errors::Error,
>)
    ensures
        r is Ok,
        r is Ok ==> r->Ok_0@ == token_of(iss@, role@, secret@),
{
    let mut claims = serde_json::Map::new();
    claims.insert("iss".to_string(), serde_json::Value::String(iss.to_string()));
    claims.insert("role".to_string(), serde_json::Value::String(role.to_string()));
    jsonwebtoken::encode(
        &jsonwebtoken::Header::default(),
        &serde_json::Value::Object(claims),
        &jsonwebtoken::EncodingKey::from_secret(secret.as_bytes()),
    )
}

/// Issues the bearer token for one device identity: the claims carry the
/// device name as issuer and its role, signed with the server's shared
/// secret. Called once at startup. Signing with an HMAC secret always
/// succeeds, and the token is a pure function of the identity and the
/// secret: two calls with equal inputs return the same token.
pub fn get_token(issuer: String, role: String, secret: String) -> (r: Result<
    String,
    EdenServerError,
>)
    ensures
        r is Ok,
        r->Ok_0@ == token_of(issuer@, role@, secret@),
{
    match jwt_encode(issuer.as_str(), role.as_str(), secret.as_str()) {
        Ok(token) => Ok(token),
        Err(_) => Err(EdenServerError::new("could not sign the bearer token".to_owned())),
    }
}

} // verus!
