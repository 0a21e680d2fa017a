//! What holds of every token, secret and instant, proved from the
//! definitions of [`crate::auth`].

use crate::auth::{
    authorized, checked, decoded, external_error, validated, ClaimsView, TokenError, INVALID_TOKEN,
    JWT_ISSUER, MISSING_TOKEN,
};
use crate::bearer::bearer_of;
use crate::errors::ServiceErrorView;
use crate::jwt::{hs256_verified, JwtFailure};
use vstd::prelude::*;

verus! {

/// A token of this service is accepted at every instant before its expiry
/// and refused as expired at the expiry and at every instant after it.
pub proof fn lemma_accepted_until_expiry(
    token: Seq<char>,
    secret: Option<Seq<char>>,
    claims: ClaimsView,
    now: int,
)
    requires
        decoded(token, secret) == Ok::<ClaimsView, TokenError>(claims),
        claims.iss == JWT_ISSUER@,
    ensures
        now < claims.exp ==> checked(token, secret, now) == Ok::<Seq<char>, TokenError>(
            claims.sub,
        ),
        now >= claims.exp ==> checked(token, secret, now) == Err::<Seq<char>, TokenError>(
            TokenError::Expired,
        ),
{
}

/// A token that is refused as expired at one instant is refused as expired
/// at every later one.
pub proof fn lemma_expired_for_good(
    token: Seq<char>,
    secret: Option<Seq<char>>,
    earlier: int,
    later: int,
)
    requires
        earlier <= later,
        checked(token, secret, earlier) == Err::<Seq<char>, TokenError>(TokenError::Expired),
    ensures
        checked(token, secret, later) == Err::<Seq<char>, TokenError>(TokenError::Expired),
{
}

/// A token that names another issuer is refused at every instant, however
/// good its signature.
pub proof fn lemma_foreign_issuer_refused(
    token: Seq<char>,
    secret: Option<Seq<char>>,
    claims: ClaimsView,
    now: int,
)
    requires
        decoded(token, secret) == Ok::<ClaimsView, TokenError>(claims),
        claims.iss != JWT_ISSUER@,
    ensures
        checked(token, secret, now) == Err::<Seq<char>, TokenError>(TokenError::WrongIssuer),
        validated(token, secret, now) == Err::<Seq<char>, ServiceErrorView>(
            ServiceErrorView::Unauthorized(INVALID_TOKEN@),
        ),
{
}

/// A token is refused as forged exactly where the signed-token library
/// refuses its signature or its algorithm; a client is then told only that
/// the token is invalid.
pub proof fn lemma_forgery_refused(token: Seq<char>, secret: Seq<char>, now: int)
    ensures
        decoded(token, Some(secret)) == Err::<ClaimsView, TokenError>(TokenError::SignatureInvalid)
            <==> (hs256_verified(token, secret) == Err::<Seq<char>, JwtFailure>(
            JwtFailure::InvalidSignature,
        ) || hs256_verified(token, secret) == Err::<Seq<char>, JwtFailure>(
            JwtFailure::InvalidAlgorithm,
        )),
        decoded(token, Some(secret)) == Err::<ClaimsView, TokenError>(TokenError::SignatureInvalid)
            ==> validated(token, Some(secret), now) == Err::<Seq<char>, ServiceErrorView>(
            ServiceErrorView::Unauthorized(INVALID_TOKEN@),
        ),
{
}

/// With a secret configured, every refusal of a token reads the same to a
/// client, whatever its reason; without one, nothing is accepted.
pub proof fn lemma_refusals_are_uniform(token: Seq<char>, secret: Option<Seq<char>>, now: int)
    ensures
        secret is Some ==> (validated(token, secret, now) is Ok || validated(token, secret, now)
            == Err::<Seq<char>, ServiceErrorView>(ServiceErrorView::Unauthorized(INVALID_TOKEN@))),
        secret is None ==> validated(token, secret, now) == Err::<Seq<char>, ServiceErrorView>(
            external_error(TokenError::Config),
        ),
        validated(token, secret, now) is Ok <==> checked(token, secret, now) is Ok,
{
}

/// A principal that comes out of a validation is the subject of the token's
/// claims, and the claims passed every check: signature, issuer and expiry.
pub proof fn lemma_accepted_means_all_checks(
    token: Seq<char>,
    secret: Option<Seq<char>>,
    now: int,
    principal: Seq<char>,
)
    requires
        validated(token, secret, now) == Ok::<Seq<char>, ServiceErrorView>(principal),
    ensures
        decoded(token, secret) matches Ok(claims) && claims.sub == principal && claims.iss
            == JWT_ISSUER@ && now < claims.exp && principal.len() > 0,
{
}

/// No request passes the guard without a bearer token that is valid at that
/// instant; the principal that the guard hands on is the one of that token.
pub proof fn lemma_guard_admits_only_valid_tokens(
    authorization: Option<Seq<char>>,
    secret: Option<Seq<char>>,
    now: int,
)
    ensures
        authorized(authorization, secret, now) matches Ok(principal) ==> (bearer_of(authorization)
            matches Some(token) && checked(token, secret, now) == Ok::<Seq<char>, TokenError>(
            principal,
        )),
        bearer_of(authorization) is None ==> authorized(authorization, secret, now) == Err::<
            Seq<char>,
            ServiceErrorView,
        >(ServiceErrorView::Unauthorized(MISSING_TOKEN@)),
        authorized(authorization, secret, now) matches Err(e) ==> e.status() == 401 || e.status()
            == 500,
{
}

} // verus!
