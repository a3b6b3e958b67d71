//! Signed, time-bounded identity tokens.
//!
//! A token carries four claims (`user_id`, `email`, `iat`, `exp`) and a
//! keyed signature over them. Signing and signature checking are done by the
//! `jsonwebtoken` crate; what the claims must look like and when a token has
//! run out is decided here.

use jsonwebtoken::errors::ErrorKind;
use jsonwebtoken::{decode, encode, DecodingKey, EncodingKey, Header, Validation};
use serde_json::Value;
use vstd::prelude::*;

verus! {

/// How long a token stays valid after it was issued, in seconds (24 hours).
pub const TOKEN_LIFETIME_SECS: u64 = 86_400;

/// The identity carried by a token.
#[derive(Debug)]
pub struct JwtClaims {
    pub user_id: i32,
    pub exp: u64,
    pub iat: u64,
    pub email: String,
}

/// What a `JwtClaims` value stands for in contracts.
pub struct ClaimsModel {
    pub user_id: i32,
    pub exp: u64,
    pub iat: u64,
    pub email: Seq<char>,
}

impl View for JwtClaims {
    type V = ClaimsModel;

    open spec fn view(&self) -> ClaimsModel {
        ClaimsModel { user_id: self.user_id, exp: self.exp, iat: self.iat, email: self.email@ }
    }
}

impl Clone for JwtClaims {
    fn clone(&self) -> (copy: Self)
        ensures
            copy@ == self@,
    {
        JwtClaims {
            user_id: self.user_id,
            exp: self.exp,
            iat: self.iat,
            email: self.email.clone(),
        }
    }
}

/// Why a request was not admitted.
#[derive(Clone, Copy, Debug, PartialEq, Eq, Structural)]
pub enum AuthFailure {
    /// No usable `Authorization` header came with the request.
    HeaderMissing,
    /// The token could not be taken apart, or its claims have the wrong shape.
    MalformedToken,
    /// The signature does not belong to the token under the configured secret.
    InvalidSignature,
    /// The token was valid once, but the current time is at or past its expiry.
    Expired,
}

/// The signer reported an error instead of a token.
#[derive(Clone, Copy, Debug, PartialEq, Eq, Structural)]
pub struct SigningFailure;

/// What the signature check has to say about a token it turned down.
#[derive(Clone, Copy, Debug, PartialEq, Eq, Structural)]
pub enum TokenFault {
    /// The token has the right shape but the signature does not match.
    BadSignature,
    /// Anything else: wrong shape, wrong algorithm, unreadable payload.
    Other,
}

/// The claims as they were found in a token whose signature matched. A claim
/// that is absent or of another JSON type is `None`.
pub struct RawClaims {
    pub user_id: Option<i64>,
    pub email: Option<String>,
    pub iat: Option<u64>,
    pub exp: Option<u64>,
}

/// What a `RawClaims` value stands for in contracts.
pub struct RawPayload {
    pub user_id: Option<i64>,
    pub email: Option<Seq<char>>,
    pub iat: Option<u64>,
    pub exp: Option<u64>,
}

impl View for RawClaims {
    type V = RawPayload;

    open spec fn view(&self) -> RawPayload {
        RawPayload {
            user_id: self.user_id,
            email: match self.email {
                Some(e) => Some(e@),
                None => None,
            },
            iat: self.iat,
            exp: self.exp,
        }
    }
}

/// `jsonwebtoken::errors::Error`, which is handed on without being looked into.
#[verifier::external_type_specification]
#[verifier::external_body]
pub struct ExJwtError(jsonwebtoken::errors::Error);

/// The token that `jsonwebtoken::encode` produces for the four claims with
/// the default (HS256) header and `secret` as the key, or `None` where it
/// reports an error.
pub uninterp spec fn signed_token(
    user_id: i32,
    email: Seq<char>,
    iat: u64,
    exp: u64,
    secret: Seq<char>,
) -> Option<Seq<char>>;

/// What `jsonwebtoken::decode` finds in `token` under `secret` when it checks
/// shape, algorithm (HS256) and signature but not the clock.
pub uninterp spec fn token_payload(token: Seq<char>, secret: Seq<char>) -> Result<
    RawPayload,
    TokenFault,
>;

/// The payload that a token with these claims carries.
pub open spec fn payload_of(claims: ClaimsModel) -> RawPayload {
    RawPayload {
        user_id: Some(claims.user_id as i64),
        email: Some(claims.email),
        iat: Some(claims.iat),
        exp: Some(claims.exp),
    }
}

/// `jsonwebtoken::decode` accepts `token` under `secret` and finds exactly
/// `claims` in it.
pub open spec fn carries_claims(token: Seq<char>, secret: Seq<char>, claims: ClaimsModel) -> bool {
    token_payload(token, secret) == Ok::<RawPayload, TokenFault>(payload_of(claims))
}

/// The token in a signer's result, if there is one.
pub open spec fn token_in(r: Result<String, jsonwebtoken::errors::Error>) -> Option<Seq<char>> {
    match r {
        Ok(t) => Some(t@),
        Err(_) => None,
    }
}

/// What a reader's result stands for in contracts.
pub open spec fn payload_in(r: Result<RawClaims, TokenFault>) -> Result<RawPayload, TokenFault> {
    match r {
        Ok(c) => Ok(c@),
        Err(f) => Err(f),
    }
}

/// Calls `jsonwebtoken::encode` with the default header, a JSON object of
/// the four claims and `secret` as an HMAC key.
///
/// Trusted: the result is the named token; and a token that comes out of
/// the signer is one that `jsonwebtoken::decode` accepts under the same
/// secret and in which it finds these very claims.
#[verifier::external_body]
fn sign_claims(user_id: i32, email: &str, iat: u64, exp: u64, secret: &str) -> (r: Result<
    String,
    jsonwebtoken::errors::Error,
>)
    ensures
        token_in(r) == signed_token(user_id, email@, iat, exp, secret@),
        r matches Ok(t) ==> carries_claims(
            t@,
            secret@,
            (ClaimsModel { user_id, exp, iat, email: email@ }),
        ),
{
    let mut claims = serde_json::Map::new();
    claims.insert("user_id".into(), user_id.into());
    claims.insert("exp".into(), exp.into());
    claims.insert("iat".into(), iat.into());
    claims.insert("email".into(), email.into());
    encode(&Header::default(), &claims, &EncodingKey::from_secret(secret.as_bytes()))
}

/// Calls `jsonwebtoken::decode` with `secret` as an HMAC key and the default
/// validation rules, except that the expiry is not compared with the clock.
///
/// Trusted: the result is the named payload of `token` under `secret`. Each
/// claim is handed over as found; a mismatching signature is told apart from
/// every other refusal.
#[verifier::external_body]
fn read_token(token: &str, secret: &str) -> (r: Result<RawClaims, TokenFault>)
    ensures
        payload_in(r) == token_payload(token@, secret@),
{
    let mut rules = Validation::default();
    rules.validate_exp = false;
    let found = decode::<Value>(token, &DecodingKey::from_secret(secret.as_bytes()), &rules);
    match found {
        Ok(d) => Ok(RawClaims {
            user_id: d.claims["user_id"].as_i64(),
            email: d.claims["email"].as_str().map(String::from),
            iat: d.claims["iat"].as_u64(),
            exp: d.claims["exp"].as_u64(),
        }),
        Err(e) if matches!(e.kind(), ErrorKind::InvalidSignature) => Err(TokenFault::BadSignature),
        Err(_) => Err(TokenFault::Other),
    }
}

/// Calls `chrono::Utc::now` and takes its Unix timestamp.
///
/// Trusted: the timestamp is not negative (the call does not return for a
/// clock set before 1970).
#[verifier::external_body]
pub(crate) fn unix_now() -> (now: i64)
    ensures
        now >= 0,
{
    chrono::Utc::now().timestamp()
}

/// The claims of a token issued to `user_id` and `email` at `now`.
pub open spec fn issued_claims(user_id: i32, email: Seq<char>, now: u64) -> ClaimsModel {
    ClaimsModel { user_id, exp: (now + TOKEN_LIFETIME_SECS) as u64, iat: now, email }
}

/// All four claims are present and the user id fits its type.
pub open spec fn well_formed_payload(p: RawPayload) -> bool {
    &&& p.user_id matches Some(id) && i32::MIN <= id <= i32::MAX
    &&& p.email is Some
    &&& p.iat is Some
    &&& p.exp is Some
}

/// The verdict on a token, given what the signature check found in it and
/// the current time.
pub open spec fn claims_outcome(raw: Result<RawPayload, TokenFault>, now: u64) -> Result<
    ClaimsModel,
    AuthFailure,
> {
    match raw {
        Err(TokenFault::BadSignature) => Err(AuthFailure::InvalidSignature),
        Err(TokenFault::Other) => Err(AuthFailure::MalformedToken),
        Ok(p) => if !well_formed_payload(p) {
            Err(AuthFailure::MalformedToken)
        } else if p.exp->0 <= now {
            Err(AuthFailure::Expired)
        } else {
            Ok(
                ClaimsModel {
                    user_id: p.user_id->0 as i32,
                    exp: p.exp->0,
                    iat: p.iat->0,
                    email: p.email->0,
                },
            )
        },
    }
}

/// The verdict on `token` under `secret` at time `now`.
pub open spec fn decode_outcome(token: Seq<char>, secret: Seq<char>, now: u64) -> Result<
    ClaimsModel,
    AuthFailure,
> {
    claims_outcome(token_payload(token, secret), now)
}

/// `found` is the executable form of `wanted`.
pub open spec fn same_verdict(
    found: Result<JwtClaims, AuthFailure>,
    wanted: Result<ClaimsModel, AuthFailure>,
) -> bool {
    match (found, wanted) {
        (Ok(c), Ok(m)) => c@ == m,
        (Err(e), Err(f)) => e == f,
        _ => false,
    }
}

/// `token` is what the signer gives for `user_id` and `email` at `now`, and
/// it is accepted, with these claims, at every moment before it expires.
pub open spec fn is_token_issued_at(
    token: Seq<char>,
    user_id: i32,
    email: Seq<char>,
    secret: Seq<char>,
    now: u64,
) -> bool {
    &&& now + TOKEN_LIFETIME_SECS <= u64::MAX
    &&& signed_token(user_id, email, now, (now + TOKEN_LIFETIME_SECS) as u64, secret) == Some(
        token,
    )
    &&& forall|at: u64|
        at < now + TOKEN_LIFETIME_SECS ==> #[trigger] decode_outcome(token, secret, at) == Ok::<
            ClaimsModel,
            AuthFailure,
        >(issued_claims(user_id, email, now))
}

/// Builds the claims for a token issued at `now`: valid from `now`, for 24
/// hours.
pub fn issue_claims(user_id: i32, email: String, now: u64) -> (claims: JwtClaims)
    requires
        now + TOKEN_LIFETIME_SECS <= u64::MAX,
    ensures
        claims@ == issued_claims(user_id, email@, now),
{
    JwtClaims { user_id, exp: now + TOKEN_LIFETIME_SECS, iat: now, email }
}

/// Signs `claims` under `secret`.
///
/// Succeeds exactly when the signer does. The token that comes back is one
/// whose payload, read back under the same secret, is `claims`.
pub fn sign(claims: &JwtClaims, secret: &str) -> (r: Result<String, SigningFailure>)
    ensures
        r matches Ok(t) ==> {
            &&& signed_token(claims.user_id, claims.email@, claims.iat, claims.exp, secret@)
                == Some(t@)
            &&& carries_claims(t@, secret@, claims@)
        },
        r is Err <==> signed_token(claims.user_id, claims.email@, claims.iat, claims.exp, secret@)
            is None,
{
    match sign_claims(claims.user_id, claims.email.as_str(), claims.iat, claims.exp, secret) {
        Ok(token) => Ok(token),
        Err(_) => Err(SigningFailure),
    }
}

/// Issues a token for `user_id` and `email` as of `now`.
///
/// Succeeds exactly when the signer does. The token is accepted by
/// `decode_jwt_at` under the same secret at every moment before `now` plus
/// 24 hours, and yields the same user id and email.
pub fn generate_jwt_at(user_id: i32, email: String, secret: &str, now: u64) -> (r: Result<
    String,
    SigningFailure,
>)
    requires
        now + TOKEN_LIFETIME_SECS <= u64::MAX,
    ensures
        r matches Ok(t) ==> is_token_issued_at(t@, user_id, email@, secret@, now),
        r is Err <==> signed_token(
            user_id,
            email@,
            now,
            (now + TOKEN_LIFETIME_SECS) as u64,
            secret@,
        ) is None,
{
    let claims = issue_claims(user_id, email, now);
    let r = sign(&claims, secret);
    proof {
        if let Ok(t) = &r {
            lemma_unexpired_payload_is_accepted(t@, secret@, claims@);
        }
    }
    r
}

/// Issues a token for `user_id` and `email` as of the system clock.
///
/// Whatever the clock says, a token that comes back was issued at some
/// moment `now`, with all that `generate_jwt_at` promises of it, and no
/// token comes back only where the signer gave none.
pub fn generate_jwt(user_id: i32, email: String, secret: &str) -> (r: Result<
    String,
    SigningFailure,
>)
    ensures
        r matches Ok(t) ==> exists|now: u64| #[trigger]
            is_token_issued_at(t@, user_id, email@, secret@, now),
        r is Err ==> exists|now: u64| #[trigger]
            signed_token(user_id, email@, now, (now + TOKEN_LIFETIME_SECS) as u64, secret@)
                is None,
{
    let now = unix_now() as u64;
    generate_jwt_at(user_id, email, secret, now)
}

/// Decides on a token from what the signature check found in it.
///
/// A mismatching signature gives `InvalidSignature`; any other refusal, a
/// missing claim or a user id out of range gives `MalformedToken`; complete
/// claims whose expiry is at or before `now` give `Expired`; otherwise the
/// claims come back.
pub fn check_claims(raw: Result<RawClaims, TokenFault>, now: u64) -> (r: Result<
    JwtClaims,
    AuthFailure,
>)
    ensures
        same_verdict(r, claims_outcome(payload_in(raw), now)),
{
    match raw {
        Err(TokenFault::BadSignature) => Err(AuthFailure::InvalidSignature),
        Err(TokenFault::Other) => Err(AuthFailure::MalformedToken),
        Ok(found) => {
            let RawClaims { user_id, email, iat, exp } = found;
            match (user_id, email, iat, exp) {
                (Some(id), Some(email), Some(iat), Some(exp)) => {
                    if id < -2_147_483_648 || id > 2_147_483_647 {
                        Err(AuthFailure::MalformedToken)
                    } else if exp <= now {
                        Err(AuthFailure::Expired)
                    } else {
                        Ok(JwtClaims { user_id: id as i32, exp, iat, email })
                    }
                },
                _ => Err(AuthFailure::MalformedToken),
            }
        },
    }
}

/// Verifies `token` under `secret` as of `now`.
pub fn decode_jwt_at(token: &str, secret: &str, now: u64) -> (r: Result<JwtClaims, AuthFailure>)
    ensures
        same_verdict(r, decode_outcome(token@, secret@, now)),
{
    check_claims(read_token(token, secret), now)
}

/// Verifies `token` under `secret` as of the system clock.
///
/// Whatever the clock says, the verdict is the one that `decode_jwt_at`
/// gives for some moment `now`.
pub fn decode_jwt(token: String, secret: &str) -> (r: Result<JwtClaims, AuthFailure>)
    ensures
        exists|now: u64| same_verdict(r, #[trigger] decode_outcome(token@, secret@, now)),
{
    let now = unix_now() as u64;
    decode_jwt_at(token.as_str(), secret, now)
}

/// A token whose payload is a set of claims is accepted, with exactly
/// those claims, at every moment before they expire.
pub proof fn lemma_unexpired_payload_is_accepted(
    token: Seq<char>,
    secret: Seq<char>,
    claims: ClaimsModel,
)
    requires
        carries_claims(token, secret, claims),
    ensures
        forall|at: u64|
            at < claims.exp ==> #[trigger] decode_outcome(token, secret, at) == Ok::<
                ClaimsModel,
                AuthFailure,
            >(claims),
{
    assert forall|at: u64| at < claims.exp implies #[trigger] decode_outcome(token, secret, at)
        == Ok::<ClaimsModel, AuthFailure>(claims) by {
        let p = payload_of(claims);
        assert(well_formed_payload(p));
        assert(p.user_id->0 as i32 == claims.user_id);
    }
}

/// A token with a matching signature and complete claims is turned down as
/// `Expired` at its expiry and at every moment after it.
pub proof fn lemma_expired_token_is_rejected(token: Seq<char>, secret: Seq<char>, now: u64)
    requires
        token_payload(token, secret) matches Ok(p) && well_formed_payload(p) && p.exp->0 <= now,
    ensures
        decode_outcome(token, secret, now) == Err::<ClaimsModel, AuthFailure>(
            AuthFailure::Expired,
        ),
{
}

/// A token whose signature does not match under the secret in use is turned
/// down as `InvalidSignature`, whatever the time and whatever it claims.
pub proof fn lemma_bad_signature_is_rejected(token: Seq<char>, secret: Seq<char>, now: u64)
    requires
        token_payload(token, secret) == Err::<RawPayload, TokenFault>(TokenFault::BadSignature),
    ensures
        decode_outcome(token, secret, now) == Err::<ClaimsModel, AuthFailure>(
            AuthFailure::InvalidSignature,
        ),
{
}

} // verus!
