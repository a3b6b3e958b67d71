//! The guard in front of every protected route: it takes the `Authorization`
//! header of a request and either hands on the identity in its token or
//! turns the request away, always with the same answer.

use vstd::prelude::*;
use vstd::string::*;

use crate::api_response::{ApiResponse, BAD_REQUEST, UNAUTHORIZED};
use crate::jwt::{
    decode_jwt_at, decode_outcome, same_verdict, unix_now, AuthFailure, ClaimsModel, JwtClaims,
};
use crate::text::begins_with;

verus! {

/// The scheme that a usable header begins with, and the blank after it.
pub open spec fn bearer_prefix() -> Seq<char> {
    "Bearer "@
}

/// The token in a header: what follows the scheme, where the header begins
/// with it.
pub open spec fn bearer_token_of(header: Seq<char>) -> Option<Seq<char>> {
    if bearer_prefix().is_prefix_of(header) {
        Some(header.skip(bearer_prefix().len() as int))
    } else {
        None
    }
}

/// The verdict of the guard on a request with this header, under `secret` at
/// time `now`: no header and a header of another shape are both a missing
/// header; otherwise the verdict is that on the token.
pub open spec fn admission(header: Option<Seq<char>>, secret: Seq<char>, now: u64) -> Result<
    ClaimsModel,
    AuthFailure,
> {
    match header {
        None => Err(AuthFailure::HeaderMissing),
        Some(h) => match bearer_token_of(h) {
            None => Err(AuthFailure::HeaderMissing),
            Some(token) => decode_outcome(token, secret, now),
        },
    }
}

/// The characters of an optional header.
pub open spec fn header_text(header: Option<&str>) -> Option<Seq<char>> {
    match header {
        Some(h) => Some(h@),
        None => None,
    }
}

/// The characters of an optional token.
pub open spec fn token_text(token: Option<&str>) -> Option<Seq<char>> {
    match token {
        Some(t) => Some(t@),
        None => None,
    }
}

/// Takes the token out of an `Authorization` header.
pub fn bearer_token(header: &str) -> (token: Option<&str>)
    ensures
        token_text(token) == bearer_token_of(header@),
{
    proof {
        reveal_strlit("Bearer ");
    }
    if !begins_with(header, "Bearer ") {
        return None;
    }
    let length: usize = header.unicode_len();
    let token: &str = header.substring_char(7, length);
    assert(token@ =~= header@.skip(7));
    Some(token)
}

/// Decides on a request from its `Authorization` header, as of `now`.
pub fn authorize_at(header: Option<&str>, secret: &str, now: u64) -> (verdict: Result<
    JwtClaims,
    AuthFailure,
>)
    ensures
        same_verdict(verdict, admission(header_text(header), secret@, now)),
{
    match header {
        None => Err(AuthFailure::HeaderMissing),
        Some(h) => match bearer_token(h) {
            None => Err(AuthFailure::HeaderMissing),
            Some(token) => decode_jwt_at(token, secret, now),
        },
    }
}

/// The answer to every request that is turned away. It is the same whatever
/// the reason, so that it tells nothing about which check failed.
pub fn rejection(failure: AuthFailure) -> (reply: ApiResponse<String>)
    ensures
        reply.status == UNAUTHORIZED,
        reply.message@ == "Unauthorized"@,
        reply.data@ == "Unauthorized"@,
{
    ApiResponse::new(UNAUTHORIZED, "Unauthorized".to_owned(), "Unauthorized".to_owned())
}

/// What the guard does with a request.
pub enum Admission {
    /// The next stage is called, with this identity attached to the request.
    Forward(JwtClaims),
    /// The request is answered at once; the next stage is not called.
    Reject(ApiResponse<String>),
}

/// The guard: forwards a request whose header holds a token that is valid at
/// `now`, and rejects every other with the one answer of `rejection`. A
/// header that is not text counts as none.
pub fn guard_at(header: Option<&str>, secret: &str, now: u64) -> (decision: Admission)
    ensures
        match admission(header_text(header), secret@, now) {
            Ok(claims) => decision matches Admission::Forward(found) && found@ == claims,
            Err(_) => decision matches Admission::Reject(reply) && reply.status == UNAUTHORIZED
                && reply.message@ == "Unauthorized"@ && reply.data@ == "Unauthorized"@,
        },
{
    match authorize_at(header, secret, now) {
        Ok(claims) => Admission::Forward(claims),
        Err(failure) => Admission::Reject(rejection(failure)),
    }
}

/// The guard, as of the system clock.
///
/// Whatever the clock says, the decision is the one that `guard_at` takes
/// for some moment `now`.
pub fn guard(header: Option<&str>, secret: &str) -> (decision: Admission)
    ensures
        exists|now: u64|
            match #[trigger] admission(header_text(header), secret@, now) {
                Ok(claims) => decision matches Admission::Forward(found) && found@ == claims,
                Err(_) => decision matches Admission::Reject(reply) && reply.status
                    == UNAUTHORIZED && reply.message@ == "Unauthorized"@ && reply.data@
                    == "Unauthorized"@,
            },
{
    let now: u64 = unix_now() as u64;
    guard_at(header, secret, now)
}

/// The identity that the guard attached to a request, for a handler that
/// asks for it; a handler that was reached without one gets a refusal.
pub fn claims_from_context(attached: Option<&JwtClaims>) -> (found: Result<
    JwtClaims,
    ApiResponse<String>,
>)
    ensures
        match attached {
            Some(claims) => found matches Ok(copy) && copy@ == claims@,
            None => found matches Err(reply) && reply.status == BAD_REQUEST && reply.message@
                == "Unauthorized"@ && reply.data@ == "Unauthorized"@,
        },
{
    match attached {
        Some(claims) => Ok(claims.clone()),
        None => Err(
            ApiResponse::new(BAD_REQUEST, "Unauthorized".to_owned(), "Unauthorized".to_owned()),
        ),
    }
}

/// A request without a header is turned away.
pub proof fn lemma_missing_header_is_rejected(secret: Seq<char>, now: u64)
    ensures
        admission(None, secret, now) is Err,
{
}

/// A request whose header does not begin with the scheme is turned away,
/// whatever else the header holds.
pub proof fn lemma_other_scheme_is_rejected(header: Seq<char>, secret: Seq<char>, now: u64)
    requires
        !bearer_prefix().is_prefix_of(header),
    ensures
        admission(Some(header), secret, now) is Err,
{
}

/// A request that carries a token past its expiry is turned away.
pub proof fn lemma_expired_token_is_turned_away(
    token: Seq<char>,
    secret: Seq<char>,
    now: u64,
    claims: ClaimsModel,
)
    requires
        crate::jwt::carries_claims(token, secret, claims),
        claims.exp <= now,
    ensures
        admission(Some(bearer_prefix() + token), secret, now) is Err,
{
    lemma_scheme_then_token(token);
}

/// A request that carries a token before its expiry is forwarded with the
/// identity in the token.
pub proof fn lemma_valid_token_is_forwarded(
    token: Seq<char>,
    secret: Seq<char>,
    now: u64,
    claims: ClaimsModel,
)
    requires
        crate::jwt::carries_claims(token, secret, claims),
        now < claims.exp,
    ensures
        admission(Some(bearer_prefix() + token), secret, now) == Ok::<
            ClaimsModel,
            AuthFailure,
        >(claims),
{
    lemma_scheme_then_token(token);
    crate::jwt::lemma_unexpired_payload_is_accepted(token, secret, claims);
}

/// The token of a header made of the scheme and a token is that token.
pub proof fn lemma_scheme_then_token(token: Seq<char>)
    ensures
        bearer_token_of(bearer_prefix() + token) == Some(token),
{
    let header = bearer_prefix() + token;
    assert(bearer_prefix().is_prefix_of(header)) by {
        assert(header.subrange(0, bearer_prefix().len() as int) =~= bearer_prefix());
    }
    assert(header.skip(bearer_prefix().len() as int) =~= token);
}

} // verus!
