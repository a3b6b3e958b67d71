//! What registration and login decide: what a new user is stored with,
//! whom a login is looked up by, and what is replied. Passwords are stored
//! and compared as SHA-256 digests, which the `sha256` crate computes.

use vstd::prelude::*;
use vstd::string::*;

use crate::api_response::{ApiResponse, INTERNAL_ERROR, OK, UNAUTHORIZED};
use crate::jwt::{
    generate_jwt_at, is_token_issued_at, signed_token, unix_now, TOKEN_LIFETIME_SECS,
};
use crate::text::{joined, signed_decimal, signed_decimal_text};

verus! {

/// The body of a registration request.
#[derive(Debug)]
pub struct RegisterRequest {
    pub name: String,
    pub email: String,
    pub password: String,
}

/// The body of a login request.
#[derive(Debug)]
pub struct LoginRequest {
    pub email: String,
    pub password: String,
}

/// A user as a login reply shows it: without the password.
#[derive(Debug)]
pub struct UserResponse {
    pub id: i32,
    pub name: String,
    pub email: String,
    pub created_at: String,
    pub updated_at: String,
}

/// The payload of a login reply: a fresh token and the user it is for.
#[derive(Debug)]
pub struct LoginResponse {
    pub token: String,
    pub user: UserResponse,
}

/// What a new user is stored with: the password only as its digest.
#[derive(Debug)]
pub struct NewUser {
    pub name: String,
    pub email: String,
    pub password_digest: String,
}

/// What a login is looked up by: the email and the digest of the password.
#[derive(Debug)]
pub struct Credentials {
    pub email: String,
    pub password_digest: String,
}

/// The SHA-256 digest of the UTF-8 bytes of `text`, in hexadecimal, as
/// `sha256::digest` writes it.
pub uninterp spec fn sha256_hex(text: Seq<char>) -> Seq<char>;

/// Calls `sha256::digest` on `text`.
///
/// Trusted: the result is the named digest.
#[verifier::external_body]
fn digest_text(text: &str) -> (hex: String)
    ensures
        hex@ == sha256_hex(text@),
{
    sha256::digest(text)
}

/// The digest under which a password is stored and looked up.
pub fn password_digest(password: &str) -> (digest: String)
    ensures
        digest@ == sha256_hex(password@),
{
    digest_text(password)
}

/// What the user of a registration request is stored with.
pub fn new_user(request: RegisterRequest) -> (user: NewUser)
    ensures
        user.name == request.name,
        user.email == request.email,
        user.password_digest@ == sha256_hex(request.password@),
{
    let RegisterRequest { name, email, password } = request;
    let password_digest: String = password_digest(password.as_str());
    NewUser { name, email, password_digest }
}

/// What the user of a login request is looked up by.
pub fn credentials(request: LoginRequest) -> (wanted: Credentials)
    ensures
        wanted.email == request.email,
        wanted.password_digest@ == sha256_hex(request.password@),
{
    let LoginRequest { email, password } = request;
    let password_digest: String = password_digest(password.as_str());
    Credentials { email, password_digest }
}

/// The message that goes with a new user: its id.
pub open spec fn user_created_message(id: i32) -> Seq<char> {
    "User created successfully: "@ + signed_decimal_text(id as int)
}

/// The reply to the storing of a new user, which the store hands back with
/// its id.
pub fn user_created_reply<T>(created: Result<(i32, T), String>) -> (r: Result<
    ApiResponse<T>,
    ApiResponse<String>,
>)
    ensures
        match created {
            Ok((id, user)) => r matches Ok(reply) && reply.carries(
                OK,
                user_created_message(id),
                user,
            ),
            Err(_) => r matches Err(reply) && reply.says(
                INTERNAL_ERROR,
                "Failed to create user"@,
                Seq::<char>::empty(),
            ),
        },
{
    proof {
        reveal_strlit("");
        assert(""@ =~= Seq::<char>::empty());
    }
    match created {
        Ok((id, user)) => {
            let number: String = signed_decimal(id as i64);
            let message: String = joined("User created successfully: ", number.as_str());
            Ok(ApiResponse::new(OK, message, user))
        },
        Err(_) => Err(ApiResponse::text(INTERNAL_ERROR, "Failed to create user", "")),
    }
}

/// The user that a login was looked up to, or the refusal: 401 where email
/// and password belong to no user, 500 where the store failed.
pub fn account_or_refusal(found: Result<Option<UserResponse>, String>) -> (r: Result<
    UserResponse,
    ApiResponse<String>,
>)
    ensures
        match found {
            Ok(Some(user)) => r == Ok::<UserResponse, ApiResponse<String>>(user),
            Ok(None) => r matches Err(reply) && reply.says(
                UNAUTHORIZED,
                "User not found"@,
                "User not found"@,
            ),
            Err(_) => r matches Err(reply) && reply.says(
                INTERNAL_ERROR,
                "Database error"@,
                Seq::<char>::empty(),
            ),
        },
{
    proof {
        reveal_strlit("");
        assert(""@ =~= Seq::<char>::empty());
    }
    match found {
        Ok(Some(user)) => Ok(user),
        Ok(None) => Err(ApiResponse::text(UNAUTHORIZED, "User not found", "User not found")),
        Err(_) => Err(ApiResponse::text(INTERNAL_ERROR, "Database error", "")),
    }
}

/// The reply to a login that succeeded.
pub fn login_reply(user: UserResponse, token: String) -> (reply: ApiResponse<LoginResponse>)
    ensures
        reply.carries(OK, "Login successful"@, (LoginResponse { token, user })),
{
    ApiResponse::success("Login successful", LoginResponse { token, user })
}

/// The whole answer to a login, from what the lookup gave, as of `now`.
///
/// A user that was found gets a token issued at `now` for its id and email;
/// where the signer fails, the answer is a refusal (500). Without a user no
/// token is made.
pub fn login_at(found: Result<Option<UserResponse>, String>, secret: &str, now: u64) -> (r: Result<
    ApiResponse<LoginResponse>,
    ApiResponse<String>,
>)
    requires
        now + TOKEN_LIFETIME_SECS <= u64::MAX,
    ensures
        match found {
            Ok(Some(user)) => match signed_token(
                user.id,
                user.email@,
                now,
                (now + TOKEN_LIFETIME_SECS) as u64,
                secret@,
            ) {
                Some(token) => r matches Ok(reply) && reply.status == OK && reply.message@
                    == "Login successful"@ && reply.data.user == user && reply.data.token@ == token
                    && is_token_issued_at(token, user.id, user.email@, secret@, now),
                None => r matches Err(reply) && reply.says(
                    INTERNAL_ERROR,
                    "Failed to generate JWT"@,
                    Seq::<char>::empty(),
                ),
            },
            Ok(None) => r matches Err(reply) && reply.says(
                UNAUTHORIZED,
                "User not found"@,
                "User not found"@,
            ),
            Err(_) => r matches Err(reply) && reply.says(
                INTERNAL_ERROR,
                "Database error"@,
                Seq::<char>::empty(),
            ),
        },
{
    proof {
        reveal_strlit("");
        assert(""@ =~= Seq::<char>::empty());
    }
    match account_or_refusal(found) {
        Ok(user) => match generate_jwt_at(user.id, user.email.clone(), secret, now) {
            Ok(token) => Ok(login_reply(user, token)),
            Err(_) => Err(ApiResponse::text(INTERNAL_ERROR, "Failed to generate JWT", "")),
        },
        Err(refusal) => Err(refusal),
    }
}

/// The whole answer to a login, as of the system clock.
///
/// Whatever the clock says: without a user the answer is the refusal that
/// `login_at` gives; a reply that carries a token carries one that was
/// issued at some moment for the user's id and email; and a user gets the
/// refusal of a failed signing only where the signer gave no token for some
/// moment.
pub fn login(found: Result<Option<UserResponse>, String>, secret: &str) -> (r: Result<
    ApiResponse<LoginResponse>,
    ApiResponse<String>,
>)
    ensures
        match found {
            Ok(Some(user)) => match r {
                Ok(reply) => reply.status == OK && reply.message@ == "Login successful"@
                    && reply.data.user == user && exists|now: u64| #[trigger]
                    is_token_issued_at(reply.data.token@, user.id, user.email@, secret@, now),
                Err(reply) => reply.says(
                    INTERNAL_ERROR,
                    "Failed to generate JWT"@,
                    Seq::<char>::empty(),
                ) && exists|now: u64| #[trigger]
                    signed_token(
                        user.id,
                        user.email@,
                        now,
                        (now + TOKEN_LIFETIME_SECS) as u64,
                        secret@,
                    ) is None,
            },
            Ok(None) => r matches Err(reply) && reply.says(
                UNAUTHORIZED,
                "User not found"@,
                "User not found"@,
            ),
            Err(_) => r matches Err(reply) && reply.says(
                INTERNAL_ERROR,
                "Database error"@,
                Seq::<char>::empty(),
            ),
        },
{
    let now: u64 = unix_now() as u64;
    login_at(found, secret, now)
}

} // verus!
