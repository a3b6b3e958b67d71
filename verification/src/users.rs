//! What the user endpoints decide: which user a path names, and what is
//! replied to a lookup, a list and an update.

use vstd::prelude::*;
use vstd::string::*;

use crate::api_response::{
    done_or_refusal, found_or_refusal, ApiResponse, BAD_REQUEST, INTERNAL_ERROR, NOT_FOUND, OK,
};
use crate::text::{i32_named, parse_i32};

verus! {

/// The id of the user that a path names, or the refusal (400) where the
/// path holds no `i32`.
pub fn user_id_from_path(text: &str) -> (r: Result<i32, ApiResponse<String>>)
    ensures
        match i32_named(text@) {
            Some(id) => r == Ok::<i32, ApiResponse<String>>(id),
            None => r matches Err(reply) && reply.says(
                BAD_REQUEST,
                "Invalid user ID format"@,
                "Bad Request"@,
            ),
        },
{
    match parse_i32(text) {
        Some(id) => Ok(id),
        None => Err(ApiResponse::text(BAD_REQUEST, "Invalid user ID format", "Bad Request")),
    }
}

/// The user that a lookup found, or the refusal: 404 where there is no
/// such user, 500 where the store failed.
pub fn user_or_refusal<T>(found: Result<Option<T>, String>) -> (r: Result<T, ApiResponse<String>>)
    ensures
        match found {
            Ok(Some(user)) => r == Ok::<T, ApiResponse<String>>(user),
            Ok(None) => r matches Err(reply) && reply.says(
                NOT_FOUND,
                "User not found"@,
                "User not found"@,
            ),
            Err(_) => r matches Err(reply) && reply.says(
                INTERNAL_ERROR,
                "Database error"@,
                Seq::<char>::empty(),
            ),
        },
{
    found_or_refusal(found, "User not found", "User not found")
}

/// The reply to a lookup of one user.
pub fn get_user_reply<T>(found: Result<Option<T>, String>) -> (r: Result<
    ApiResponse<T>,
    ApiResponse<String>,
>)
    ensures
        match found {
            Ok(Some(user)) => r matches Ok(reply) && reply.carries(OK, "User found"@, user),
            Ok(None) => r matches Err(reply) && reply.says(
                NOT_FOUND,
                "User not found"@,
                "User not found"@,
            ),
            Err(_) => r matches Err(reply) && reply.says(
                INTERNAL_ERROR,
                "Database error"@,
                Seq::<char>::empty(),
            ),
        },
{
    match user_or_refusal(found) {
        Ok(user) => Ok(ApiResponse::success("User found", user)),
        Err(refusal) => Err(refusal),
    }
}

/// The reply to an update of a user that was found.
pub fn user_updated_reply<T>(updated: Result<T, String>) -> (r: Result<
    ApiResponse<T>,
    ApiResponse<String>,
>)
    ensures
        match updated {
            Ok(user) => r matches Ok(reply) && reply.carries(OK, "User updated"@, user),
            Err(_) => r matches Err(reply) && reply.says(
                INTERNAL_ERROR,
                "Failed to update user"@,
                Seq::<char>::empty(),
            ),
        },
{
    done_or_refusal(updated, "User updated", "Failed to update user")
}

} // verus!
