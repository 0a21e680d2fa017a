//! Tokens and their policy: issuing a signed token for a principal, reading
//! a token back, and deciding whether a token still speaks for its
//! principal.

use crate::bearer::{bearer_of, bearer_token, text_view};
use crate::clock::{add_hours, current_timestamp, hours_later};
use crate::errors::{ServiceError, ServiceErrorView};
use crate::jwt::{
    hs256_signed, hs256_verified, json_claims, read_claims, sign_hs256, verify_hs256, JwtFailure,
};
use vstd::prelude::*;

verus! {

/// How long a token is valid, in hours.
pub const TOKEN_EXPIRATION_HOURS: i64 = 24;

/// The issuer that every token of this service names.
pub const JWT_ISSUER: &'static str = "notes-app";

/// The message of every refusal of a token.
pub const INVALID_TOKEN: &'static str = "invalid token";

/// The message of the refusal of a request that brings no bearer token.
pub const MISSING_TOKEN: &'static str = "Missing token";

/// The message of every failure that is the service's own.
pub const INTERNAL_ERROR: &'static str = "internal error";

/// The lifetime of a token in seconds.
pub open spec fn token_lifetime() -> int {
    TOKEN_EXPIRATION_HOURS * 3600
}

/// The signed payload of a token.
#[derive(Debug, Clone, PartialEq, Eq)]
pub struct Claims {
    /// The principal: the user's stable id.
    pub sub: String,
    /// When the token expires, in seconds since the epoch.
    pub exp: usize,
    /// When the token was issued, in seconds since the epoch.
    pub iat: usize,
    /// Who issued the token.
    pub iss: String,
}

/// The mathematical value of [`Claims`].
pub struct ClaimsView {
    pub sub: Seq<char>,
    pub exp: nat,
    pub iat: nat,
    pub iss: Seq<char>,
}

impl View for Claims {
    type V = ClaimsView;

    open spec fn view(&self) -> ClaimsView {
        ClaimsView { sub: self.sub@, exp: self.exp as nat, iat: self.iat as nat, iss: self.iss@ }
    }
}

impl ClaimsView {
    /// The claims name a principal.
    pub open spec fn names_principal(self) -> bool {
        self.sub.len() > 0
    }

    /// The claims are those of a token that this service issued at `now` for
    /// `sub`.
    pub open spec fn issued_at(self, sub: Seq<char>, now: int) -> bool {
        &&& self.sub == sub
        &&& self.iat == now
        &&& self.exp == now + token_lifetime()
        &&& self.iss == JWT_ISSUER@
    }
}

/// Why a token could not be issued or was not accepted. This is the
/// service's own record; a client sees only [`TokenError::to_service_error`].
#[derive(Clone, Copy, Debug, PartialEq, Eq, Structural)]
pub enum TokenError {
    /// No signing secret is configured.
    Config,
    /// The times of the token cannot be represented.
    TimestampOverflow,
    /// The token could not be signed.
    SigningFailed,
    /// The token is not three well-formed parts that hold claims.
    Malformed,
    /// The signature or the algorithm is not the one of this service.
    SignatureInvalid,
    /// The token names another issuer.
    WrongIssuer,
    /// The token has expired.
    Expired,
}

/// A result as the contracts see it: the characters of the text, or the
/// error as it is.
pub open spec fn text_result<E>(res: Result<String, E>) -> Result<Seq<char>, E> {
    match res {
        Ok(t) => Ok(t@),
        Err(e) => Err(e),
    }
}

/// The view of claims, or of the error in their place.
pub open spec fn claims_result(res: Result<Claims, TokenError>) -> Result<ClaimsView, TokenError> {
    match res {
        Ok(c) => Ok(c@),
        Err(e) => Err(e),
    }
}

/// The view of a principal, or of the error that a client is shown.
pub open spec fn service_result(res: Result<String, ServiceError>) -> Result<
    Seq<char>,
    ServiceErrorView,
> {
    match res {
        Ok(t) => Ok(t@),
        Err(e) => Err(e@),
    }
}

/// The class of a refusal by the signed-token library: a signature or an
/// algorithm that does not fit is a forgery, everything else is malformed.
pub open spec fn refusal(f: JwtFailure) -> TokenError {
    match f {
        JwtFailure::InvalidSignature => TokenError::SignatureInvalid,
        JwtFailure::InvalidAlgorithm => TokenError::SignatureInvalid,
        _ => TokenError::Malformed,
    }
}

/// What a client is told of a failure: that the token is invalid, or that
/// the service failed, and in neither case why.
pub open spec fn external_error(e: TokenError) -> ServiceErrorView {
    match e {
        TokenError::Config => ServiceErrorView::InternalServerError(INTERNAL_ERROR@),
        TokenError::TimestampOverflow => ServiceErrorView::InternalServerError(INTERNAL_ERROR@),
        TokenError::SigningFailed => ServiceErrorView::InternalServerError(INTERNAL_ERROR@),
        _ => ServiceErrorView::Unauthorized(INVALID_TOKEN@),
    }
}

/// The token that signing the claims under the secret gives.
pub open spec fn signed(claims: ClaimsView, secret: Seq<char>) -> Result<Seq<char>, TokenError> {
    match hs256_signed(claims.sub, claims.exp, claims.iat, claims.iss, secret) {
        Some(t) => Ok(t),
        None => Err(TokenError::SigningFailed),
    }
}

/// The claims that a payload holds: the four members, with times that fit
/// the machine and a principal that is named.
pub open spec fn payload_claims(payload: Seq<char>) -> Result<ClaimsView, TokenError> {
    match json_claims(payload) {
        Some((sub, exp, iat, iss)) => {
            if exp <= usize::MAX && iat <= usize::MAX && sub.len() > 0 {
                Ok(ClaimsView { sub, exp, iat, iss })
            } else {
                Err(TokenError::Malformed)
            }
        },
        None => Err(TokenError::Malformed),
    }
}

/// The claims of a token whose signature the secret confirms.
pub open spec fn decoded(token: Seq<char>, secret: Option<Seq<char>>) -> Result<
    ClaimsView,
    TokenError,
> {
    match secret {
        None => Err(TokenError::Config),
        Some(s) => match hs256_verified(token, s) {
            Ok(payload) => payload_claims(payload),
            Err(f) => Err(refusal(f)),
        },
    }
}

/// The principal of a token that is accepted at the time `now`: the token
/// decodes, names this service as its issuer and has not expired. It expires
/// at the instant `exp`, not after it.
pub open spec fn checked(token: Seq<char>, secret: Option<Seq<char>>, now: int) -> Result<
    Seq<char>,
    TokenError,
> {
    match decoded(token, secret) {
        Err(e) => Err(e),
        Ok(claims) => {
            if claims.iss != JWT_ISSUER@ {
                Err(TokenError::WrongIssuer)
            } else if now >= claims.exp {
                Err(TokenError::Expired)
            } else {
                Ok(claims.sub)
            }
        },
    }
}

/// What a caller outside the service learns of [`checked`].
pub open spec fn validated(token: Seq<char>, secret: Option<Seq<char>>, now: int) -> Result<
    Seq<char>,
    ServiceErrorView,
> {
    match checked(token, secret, now) {
        Ok(sub) => Ok(sub),
        Err(e) => Err(external_error(e)),
    }
}

/// The token that is issued at the time `now` for the principal `sub`: its
/// claims say that it was issued at `now` by this service and expires
/// [`TOKEN_EXPIRATION_HOURS`] later. Both times must be representable, and a
/// secret must be configured.
pub open spec fn issued(sub: Seq<char>, secret: Option<Seq<char>>, now: int) -> Result<
    Seq<char>,
    TokenError,
> {
    match hours_later(now, TOKEN_EXPIRATION_HOURS as int) {
        Some(exp) => {
            if 0 <= now <= usize::MAX && 0 <= exp <= usize::MAX {
                match secret {
                    Some(s) => signed(
                        ClaimsView { sub, exp: exp as nat, iat: now as nat, iss: JWT_ISSUER@ },
                        s,
                    ),
                    None => Err(TokenError::Config),
                }
            } else {
                Err(TokenError::TimestampOverflow)
            }
        },
        None => Err(TokenError::TimestampOverflow),
    }
}

/// The principal of a request, decided at the time `now` from the value of
/// its `Authorization` header: that of the bearer token, where there is one
/// and it is valid.
pub open spec fn authorized(
    authorization: Option<Seq<char>>,
    secret: Option<Seq<char>>,
    now: int,
) -> Result<Seq<char>, ServiceErrorView> {
    match bearer_of(authorization) {
        Some(token) => validated(token, secret, now),
        None => Err(ServiceErrorView::Unauthorized(MISSING_TOKEN@)),
    }
}

impl TokenError {
    /// The class of a refusal by the signed-token library.
    pub fn from_failure(f: JwtFailure) -> (e: TokenError)
        ensures
            e == refusal(f),
    {
        match f {
            JwtFailure::InvalidSignature => TokenError::SignatureInvalid,
            JwtFailure::InvalidAlgorithm => TokenError::SignatureInvalid,
            _ => TokenError::Malformed,
        }
    }

    /// The error that a client is shown in place of this one.
    pub fn to_service_error(&self) -> (e: ServiceError)
        ensures
            e@ == external_error(*self),
    {
        match self {
            TokenError::Config => ServiceError::internal_server_error(INTERNAL_ERROR),
            TokenError::TimestampOverflow => ServiceError::internal_server_error(INTERNAL_ERROR),
            TokenError::SigningFailed => ServiceError::internal_server_error(INTERNAL_ERROR),
            _ => ServiceError::unauthorized(INVALID_TOKEN),
        }
    }
}

/// Signs the claims under the secret and returns the compact token.
///
/// A token that comes out decodes, under the same secret, to the same
/// claims, provided they name a principal.
pub fn sign_claims(claims: &Claims, secret: &str) -> (res: Result<String, TokenError>)
    ensures
        text_result(res) == signed(claims@, secret@),
        res matches Ok(t) ==> decoded(t@, Some(secret@)) == (if claims@.names_principal() {
            Ok::<ClaimsView, TokenError>(claims@)
        } else {
            Err::<ClaimsView, TokenError>(TokenError::Malformed)
        }),
{
    match sign_hs256(claims.sub.as_str(), claims.exp, claims.iat, claims.iss.as_str(), secret) {
        Some(t) => Ok(t),
        None => Err(TokenError::SigningFailed),
    }
}

/// Reads the claims of a payload.
pub fn claims_of_payload(payload: &str) -> (res: Result<Claims, TokenError>)
    ensures
        claims_result(res) == payload_claims(payload@),
{
    match read_claims(payload) {
        None => Err(TokenError::Malformed),
        Some((sub, exp, iat, iss)) => {
            if exp > usize::MAX as u64 || iat > usize::MAX as u64 || sub.as_str().is_empty() {
                Err(TokenError::Malformed)
            } else {
                Ok(Claims { sub, exp: exp as usize, iat: iat as usize, iss })
            }
        },
    }
}

/// Verifies the signature of a token under the secret and the one allowed
/// algorithm, and returns its claims. Neither the issuer nor the expiry is
/// looked at.
pub fn decode(token: &str, secret: Option<&str>) -> (res: Result<Claims, TokenError>)
    ensures
        claims_result(res) == decoded(token@, text_view(secret)),
{
    let secret = match secret {
        Some(s) => s,
        None => {
            return Err(TokenError::Config);
        },
    };
    match verify_hs256(token, secret) {
        Ok(payload) => claims_of_payload(payload.as_str()),
        Err(f) => Err(TokenError::from_failure(f)),
    }
}

/// A time of the clock as a claim: the same number, where it is not
/// negative and fits the machine.
fn claim_time(seconds: i64) -> (res: Option<usize>)
    ensures
        match res {
            Some(t) => t == seconds,
            None => seconds < 0 || seconds > usize::MAX,
        },
{
    if seconds < 0 {
        None
    } else {
        let wide = seconds as u64;
        if wide > usize::MAX as u64 {
            None
        } else {
            Some(wide as usize)
        }
    }
}

/// Issues a token for the principal `user_id` as if the clock read `now`.
///
/// The token, decoded under the same secret, names `user_id`; it is valid
/// at every instant before `now` plus the lifetime and at none from then on.
pub fn issue_at(user_id: &str, secret: Option<&str>, now: i64) -> (res: Result<String, TokenError>)
    requires
        user_id@.len() > 0,
    ensures
        text_result(res) == issued(user_id@, text_view(secret), now as int),
        res is Ok ==> hours_later(now as int, TOKEN_EXPIRATION_HOURS as int) == Some(
            now + token_lifetime(),
        ),
        res matches Ok(t) ==> (decoded(t@, text_view(secret)) matches Ok(c) && c.issued_at(
            user_id@,
            now as int,
        )),
        res matches Ok(t) ==> forall|at: int| #[trigger]
            checked(t@, text_view(secret), at) == (if at < now + token_lifetime() {
                Ok::<Seq<char>, TokenError>(user_id@)
            } else {
                Err::<Seq<char>, TokenError>(TokenError::Expired)
            }),
{
    let expiry = match add_hours(now, TOKEN_EXPIRATION_HOURS) {
        Some(e) => e,
        None => {
            return Err(TokenError::TimestampOverflow);
        },
    };
    let (iat, exp) = match (claim_time(now), claim_time(expiry)) {
        (Some(iat), Some(exp)) => (iat, exp),
        _ => {
            return Err(TokenError::TimestampOverflow);
        },
    };
    let secret = match secret {
        Some(s) => s,
        None => {
            return Err(TokenError::Config);
        },
    };
    let claims = Claims { sub: user_id.to_owned(), exp, iat, iss: JWT_ISSUER.to_owned() };
    sign_claims(&claims, secret)
}

/// Decides whether a token speaks for its principal at the time `now`, and
/// says why where it does not.
pub fn check_at(token: &str, secret: Option<&str>, now: i64) -> (res: Result<String, TokenError>)
    ensures
        text_result(res) == checked(token@, text_view(secret), now as int),
{
    let claims = match decode(token, secret) {
        Ok(c) => c,
        Err(e) => {
            return Err(e);
        },
    };
    let issuer = JWT_ISSUER.to_owned();
    if !(claims.iss == issuer) {
        Err(TokenError::WrongIssuer)
    } else if now >= 0 && now as u64 >= claims.exp as u64 {
        Err(TokenError::Expired)
    } else {
        Ok(claims.sub)
    }
}

/// Validates a token as if the clock read `now`: the principal of a token
/// that [`check_at`] accepts, and one and the same error for every token
/// that it refuses.
pub fn validate_at(token: &str, secret: Option<&str>, now: i64) -> (res: Result<
    String,
    ServiceError,
>)
    ensures
        service_result(res) == validated(token@, text_view(secret), now as int),
{
    match check_at(token, secret, now) {
        Ok(sub) => Ok(sub),
        Err(e) => Err(e.to_service_error()),
    }
}

/// Issues a token for the principal `user_id` at the time that the clock
/// reads. A failure is reported as the client is to see it.
pub fn create_jwt(user_id: &str, secret: Option<&str>) -> (res: Result<String, ServiceError>)
    requires
        user_id@.len() > 0,
    ensures
        exists|now: int|
            service_result(res) == (match #[trigger] issued(user_id@, text_view(secret), now) {
                Ok(t) => Ok::<Seq<char>, ServiceErrorView>(t),
                Err(e) => Err::<Seq<char>, ServiceErrorView>(external_error(e)),
            }),
        res matches Ok(t) ==> (decoded(t@, text_view(secret)) matches Ok(c) && c.sub
            == user_id@ && c.iss == JWT_ISSUER@ && c.exp == c.iat + token_lifetime()),
        secret is None ==> res is Err,
{
    let now = current_timestamp();
    match issue_at(user_id, secret, now) {
        Ok(t) => Ok(t),
        Err(e) => Err(e.to_service_error()),
    }
}

/// Validates a token at the time that the clock reads.
pub fn validate_jwt(token: &str, secret: Option<&str>) -> (res: Result<String, ServiceError>)
    ensures
        exists|now: int|
            service_result(res) == #[trigger] validated(token@, text_view(secret), now),
{
    let now = current_timestamp();
    validate_at(token, secret, now)
}

/// Decides, as if the clock read `now`, for which principal a request with
/// this `Authorization` header speaks.
pub fn authorize_at(authorization: Option<&str>, secret: Option<&str>, now: i64) -> (res: Result<
    String,
    ServiceError,
>)
    ensures
        service_result(res) == authorized(text_view(authorization), text_view(secret), now as int),
{
    match bearer_token(authorization) {
        Some(token) => validate_at(token, secret, now),
        None => Err(ServiceError::unauthorized(MISSING_TOKEN)),
    }
}

/// Decides, at the time that the clock reads, for which principal a request
/// with this `Authorization` header speaks.
pub fn get_user_id_from_token(authorization: Option<&str>, secret: Option<&str>) -> (res: Result<
    String,
    ServiceError,
>)
    ensures
        exists|now: int|
            service_result(res) == #[trigger] authorized(
                text_view(authorization),
                text_view(secret),
                now,
            ),
        bearer_of(text_view(authorization)) is None ==> service_result(res) == Err::<
            Seq<char>,
            ServiceErrorView,
        >(ServiceErrorView::Unauthorized(MISSING_TOKEN@)),
{
    let now = current_timestamp();
    authorize_at(authorization, secret, now)
}

/// The view of a secret that may not be configured.
pub open spec fn configured(secret: Option<String>) -> Option<Seq<char>> {
    match secret {
        Some(s) => Some(s@),
        None => None,
    }
}

/// The guard before the protected routes, as it is configured once at
/// startup: it holds the signing secret, or the fact that there is none.
pub struct CheckLogin {
    secret: Option<String>,
}

/// The guard put before one service: no request reaches the service unless
/// its bearer token has been validated.
pub struct CheckLoginMiddleware<S> {
    service: S,
    secret: Option<String>,
}

impl CheckLogin {
    /// The secret that the guard validates tokens under.
    pub closed spec fn secret(&self) -> Option<Seq<char>> {
        configured(self.secret)
    }

    /// A guard that validates tokens under `secret`.
    pub fn new(secret: Option<String>) -> (guard: Self)
        ensures
            guard.secret() == configured(secret),
    {
        CheckLogin { secret }
    }

    /// Puts the guard before `service`.
    pub fn new_transform<S>(&self, service: S) -> (guarded: CheckLoginMiddleware<S>)
        ensures
            guarded.secret() == self.secret(),
            guarded.wrapped() == service,
    {
        let secret = match &self.secret {
            Some(s) => Some(s.clone()),
            None => None,
        };
        CheckLoginMiddleware { service, secret }
    }
}

impl<S> CheckLoginMiddleware<S> {
    /// The secret that the guard validates tokens under.
    pub closed spec fn secret(&self) -> Option<Seq<char>> {
        configured(self.secret)
    }

    /// The service behind the guard.
    pub closed spec fn wrapped(&self) -> S {
        self.service
    }

    /// The service behind the guard.
    pub fn service(&self) -> (service: &S)
        ensures
            *service == self.wrapped(),
    {
        &self.service
    }

    /// Decides, as if the clock read `now`, whether a request with this
    /// `Authorization` header passes the guard, and for which principal.
    pub fn admit_at(&self, authorization: Option<&str>, now: i64) -> (res: Result<
        String,
        ServiceError,
    >)
        ensures
            service_result(res) == authorized(text_view(authorization), self.secret(), now as int),
    {
        match &self.secret {
            Some(s) => authorize_at(authorization, Some(s.as_str()), now),
            None => authorize_at(authorization, None, now),
        }
    }

    /// Handles a request as if the clock read `now`: where the guard admits
    /// it, hands the service and the principal to `next` and returns what
    /// `next` returns; where not, returns the refusal, and `next` is not
    /// called.
    pub fn call_at<R, F: FnOnce(&S, String) -> R>(
        &self,
        authorization: Option<&str>,
        now: i64,
        next: F,
    ) -> (res: Result<R, ServiceError>)
        requires
            forall|principal: String| call_requires(next, (&self.wrapped(), principal)),
        ensures
            match authorized(text_view(authorization), self.secret(), now as int) {
                Ok(sub) => res matches Ok(r) && exists|principal: String|
                    principal@ == sub && call_ensures(next, (&self.wrapped(), principal), r),
                Err(e) => res matches Err(refusal) && refusal@ == e,
            },
    {
        match self.admit_at(authorization, now) {
            Ok(principal) => {
                assert(self.wrapped() == self.service);
                Ok(next(&self.service, principal))
            },
            Err(e) => Err(e),
        }
    }

    /// Handles a request at the time that the clock reads.
    pub fn call<R, F: FnOnce(&S, String) -> R>(&self, authorization: Option<&str>, next: F) -> (res:
        Result<R, ServiceError>)
        requires
            forall|principal: String| call_requires(next, (&self.wrapped(), principal)),
        ensures
            exists|now: int|
                match #[trigger] authorized(text_view(authorization), self.secret(), now) {
                    Ok(sub) => res matches Ok(r) && exists|principal: String|
                        principal@ == sub && call_ensures(
                            next,
                            (&self.wrapped(), principal),
                            r,
                        ),
                    Err(e) => res matches Err(refusal) && refusal@ == e,
                },
            bearer_of(text_view(authorization)) is None ==> (res matches Err(refusal) && refusal@
                == ServiceErrorView::Unauthorized(MISSING_TOKEN@)),
    {
        let now = current_timestamp();
        self.call_at(authorization, now, next)
    }
}

} // verus!
