//! The boundary to the `jsonwebtoken` and `serde_json` crates: compact
//! HS256 tokens are made, checked and read there, and nothing in this module
//! is proved. Each result that those crates compute from their arguments
//! alone has a name here, so that the contracts of the rest of the library
//! can speak of it.

use jsonwebtoken::errors::ErrorKind;
use jsonwebtoken::{Algorithm, DecodingKey, EncodingKey, Header, Validation};
use serde_json::Value;
use vstd::prelude::*;

verus! {

/// Why `jsonwebtoken::decode` refused a token.
#[derive(Clone, Copy, Debug, PartialEq, Eq, Structural)]
pub enum JwtFailure {
    /// The token is not made of three parts separated by dots.
    InvalidToken,
    /// The signature is not the one that the secret gives.
    InvalidSignature,
    /// The header names an algorithm other than HS256.
    InvalidAlgorithm,
    /// A part is not base64.
    Base64,
    /// A part is not the JSON that it should be.
    Json,
    /// A part is not UTF-8.
    Utf8,
    /// Any other refusal.
    Other,
}

/// The compact token that `jsonwebtoken::encode` makes, under HS256 and the
/// secret, of the claims object with the members `sub`, `exp`, `iat` and
/// `iss` in this order; `None` where it fails.
pub uninterp spec fn hs256_signed(
    sub: Seq<char>,
    exp: nat,
    iat: nat,
    iss: Seq<char>,
    secret: Seq<char>,
) -> Option<Seq<char>>;

/// What `jsonwebtoken::decode` makes of a token under HS256 and the secret,
/// with no check of any claim: the claims object as JSON text, or the reason
/// of the refusal.
pub uninterp spec fn hs256_verified(token: Seq<char>, secret: Seq<char>) -> Result<
    Seq<char>,
    JwtFailure,
>;

/// The members `sub`, `exp`, `iat` and `iss` that `serde_json` reads from a
/// JSON text: two strings and two unsigned integers of at most 64 bits.
/// `None` where the text is no JSON, or a member is missing or of another
/// type.
pub uninterp spec fn json_claims(payload: Seq<char>) -> Option<(Seq<char>, nat, nat, Seq<char>)>;

/// Calls `jsonwebtoken::encode` with an HS256 header, the secret as key and
/// a JSON object of the four members.
///
/// Trusted: the result is the one named [`hs256_signed`]; and a token that
/// comes out is accepted again by `jsonwebtoken::decode` under the same
/// secret, with a claims object from which `serde_json` reads the same four
/// members.
#[verifier::external_body]
pub(crate) fn sign_hs256(sub: &str, exp: usize, iat: usize, iss: &str, secret: &str) -> (res:
    Option<String>)
    ensures
        match res {
            Some(t) => hs256_signed(sub@, exp as nat, iat as nat, iss@, secret@) == Some(t@),
            None => hs256_signed(sub@, exp as nat, iat as nat, iss@, secret@) is None,
        },
        res matches Some(t) ==> (hs256_verified(t@, secret@) matches Ok(p) && json_claims(p)
            == Some((sub@, exp as nat, iat as nat, iss@))),
{
    let mut claims = serde_json::Map::new();
    claims.insert("sub".to_owned(), Value::from(sub));
    claims.insert("exp".to_owned(), Value::from(exp));
    claims.insert("iat".to_owned(), Value::from(iat));
    claims.insert("iss".to_owned(), Value::from(iss));
    let key = EncodingKey::from_secret(secret.as_bytes());
    jsonwebtoken::encode(&Header::new(Algorithm::HS256), &claims, &key).ok()
}

/// Calls `jsonwebtoken::decode` with the secret as key, HS256 as the one
/// algorithm allowed and the check of the expiry switched off, so that the
/// result does not depend on the clock.
///
/// Trusted: the result is the one named [`hs256_verified`].
#[verifier::external_body]
pub(crate) fn verify_hs256(token: &str, secret: &str) -> (res: Result<String, JwtFailure>)
    ensures
        match res {
            Ok(p) => hs256_verified(token@, secret@) == Ok::<Seq<char>, JwtFailure>(p@),
            Err(f) => hs256_verified(token@, secret@) == Err::<Seq<char>, JwtFailure>(f),
        },
{
    let mut validation = Validation::new(Algorithm::HS256);
    validation.validate_exp = false;
    let key = DecodingKey::from_secret(secret.as_bytes());
    match jsonwebtoken::decode::<Value>(token, &key, &validation) {
        Ok(data) => Ok(data.claims.to_string()),
        Err(e) => Err(match e.kind() {
            ErrorKind::InvalidToken => JwtFailure::InvalidToken,
            ErrorKind::InvalidSignature => JwtFailure::InvalidSignature,
            ErrorKind::InvalidAlgorithm => JwtFailure::InvalidAlgorithm,
            ErrorKind::Base64(_) => JwtFailure::Base64,
            ErrorKind::Json(_) => JwtFailure::Json,
            ErrorKind::Utf8(_) => JwtFailure::Utf8,
            _ => JwtFailure::Other,
        }),
    }
}

/// Calls `serde_json::from_str` and takes the four members out of the value
/// with `Value::get`, `Value::as_str` and `Value::as_u64`.
///
/// Trusted: the result is the one named [`json_claims`].
#[verifier::external_body]
pub(crate) fn read_claims(payload: &str) -> (res: Option<(String, u64, u64, String)>)
    ensures
        match res {
            Some((sub, exp, iat, iss)) => json_claims(payload@) == Some(
                (sub@, exp as nat, iat as nat, iss@),
            ),
            None => json_claims(payload@) is None,
        },
{
    let value: Value = serde_json::from_str(payload).ok()?;
    let sub = value.get("sub")?.as_str()?.to_owned();
    let exp = value.get("exp")?.as_u64()?;
    let iat = value.get("iat")?.as_u64()?;
    let iss = value.get("iss")?.as_str()?.to_owned();
    Some((sub, exp, iat, iss))
}

} // verus!
