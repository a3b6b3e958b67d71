//! What the post endpoints decide: which post a path names, what a new
//! post is made of, and what is replied to a lookup, a list and a change.

use vstd::prelude::*;
use vstd::string::*;

use crate::api_response::{
    done_or_refusal, found_or_refusal, ApiResponse, BAD_REQUEST, INTERNAL_ERROR, NOT_FOUND, OK,
};
use crate::text::{decimal, decimal_text, i32_named, joined, parse_i32};

verus! {

/// The body of a request for a new post. The author's id comes as text.
#[derive(Debug)]
pub struct CreatePostRequest {
    pub user_id: String,
    pub title: String,
    pub text: String,
    pub banner: Option<String>,
}

/// The body of a request to change a post.
#[derive(Debug)]
pub struct UpdatePostRequest {
    pub title: String,
    pub text: String,
    pub banner: Option<String>,
}

/// What a new post is stored with, besides the time.
#[derive(Debug)]
pub struct NewPost {
    pub user_id: i32,
    pub title: String,
    pub text: String,
    pub banner: Option<String>,
}

/// The id of the post that a path names, or the refusal (400) where the
/// path holds no `i32`.
pub fn post_id_from_path(text: &str) -> (r: Result<i32, ApiResponse<String>>)
    ensures
        match i32_named(text@) {
            Some(id) => r == Ok::<i32, ApiResponse<String>>(id),
            None => r matches Err(reply) && reply.says(
                BAD_REQUEST,
                "Invalid post ID format"@,
                Seq::<char>::empty(),
            ),
        },
{
    proof {
        reveal_strlit("");
        assert(""@ =~= Seq::<char>::empty());
    }
    match parse_i32(text) {
        Some(id) => Ok(id),
        None => Err(ApiResponse::text(BAD_REQUEST, "Invalid post ID format", "")),
    }
}

/// What the post of a request is stored with, or the refusal (400) where
/// the author's id is no `i32`. Title, text and banner are taken as they are.
pub fn new_post(request: CreatePostRequest) -> (r: Result<NewPost, ApiResponse<String>>)
    ensures
        match i32_named(request.user_id@) {
            Some(id) => r matches Ok(post) && post.user_id == id && post.title == request.title
                && post.text == request.text && post.banner == request.banner,
            None => r matches Err(reply) && reply.says(
                BAD_REQUEST,
                "Invalid user_id format"@,
                Seq::<char>::empty(),
            ),
        },
{
    proof {
        reveal_strlit("");
        assert(""@ =~= Seq::<char>::empty());
    }
    let CreatePostRequest { user_id, title, text, banner } = request;
    match parse_i32(user_id.as_str()) {
        Some(id) => Ok(NewPost { user_id: id, title, text, banner }),
        None => Err(ApiResponse::text(BAD_REQUEST, "Invalid user_id format", "")),
    }
}

/// The post that a lookup found, or the refusal: 404 where there is no
/// such post, 500 where the store failed.
pub fn post_or_refusal<T>(found: Result<Option<T>, String>) -> (r: Result<T, ApiResponse<String>>)
    ensures
        match found {
            Ok(Some(post)) => r == Ok::<T, ApiResponse<String>>(post),
            Ok(None) => r matches Err(reply) && reply.says(
                NOT_FOUND,
                "Post not found"@,
                Seq::<char>::empty(),
            ),
            Err(_) => r matches Err(reply) && reply.says(
                INTERNAL_ERROR,
                "Database error"@,
                Seq::<char>::empty(),
            ),
        },
{
    proof {
        reveal_strlit("");
        assert(""@ =~= Seq::<char>::empty());
    }
    found_or_refusal(found, "Post not found", "")
}

/// The reply to a lookup of one post.
pub fn get_post_reply<T>(found: Result<Option<T>, String>) -> (r: Result<
    ApiResponse<T>,
    ApiResponse<String>,
>)
    ensures
        match found {
            Ok(Some(post)) => r matches Ok(reply) && reply.carries(OK, "Post found"@, post),
            Ok(None) => r matches Err(reply) && reply.says(
                NOT_FOUND,
                "Post not found"@,
                Seq::<char>::empty(),
            ),
            Err(_) => r matches Err(reply) && reply.says(
                INTERNAL_ERROR,
                "Database error"@,
                Seq::<char>::empty(),
            ),
        },
{
    match post_or_refusal(found) {
        Ok(post) => Ok(ApiResponse::success("Post found", post)),
        Err(refusal) => Err(refusal),
    }
}

/// The reply to the storing of a new post.
pub fn post_created_reply<T>(created: Result<T, String>) -> (r: Result<
    ApiResponse<T>,
    ApiResponse<String>,
>)
    ensures
        match created {
            Ok(post) => r matches Ok(reply) && reply.carries(OK, "Post created"@, post),
            Err(_) => r matches Err(reply) && reply.says(
                INTERNAL_ERROR,
                "Database error"@,
                Seq::<char>::empty(),
            ),
        },
{
    done_or_refusal(created, "Post created", "Database error")
}

/// The reply to a change of a post that was found.
pub fn post_updated_reply<T>(updated: Result<T, String>) -> (r: Result<
    ApiResponse<T>,
    ApiResponse<String>,
>)
    ensures
        match updated {
            Ok(post) => r matches Ok(reply) && reply.carries(OK, "Post updated"@, post),
            Err(_) => r matches Err(reply) && reply.says(
                INTERNAL_ERROR,
                "Database error"@,
                Seq::<char>::empty(),
            ),
        },
{
    done_or_refusal(updated, "Post updated", "Database error")
}

/// The reply to the removal of a post that was found: it carries the post
/// as it was.
pub fn post_deleted_reply<T>(post: T, deleted: Result<(), String>) -> (r: Result<
    ApiResponse<T>,
    ApiResponse<String>,
>)
    ensures
        match deleted {
            Ok(_) => r matches Ok(reply) && reply.carries(OK, "Post deleted"@, post),
            Err(_) => r matches Err(reply) && reply.says(
                INTERNAL_ERROR,
                "Database error"@,
                Seq::<char>::empty(),
            ),
        },
{
    proof {
        reveal_strlit("");
        assert(""@ =~= Seq::<char>::empty());
    }
    match deleted {
        Ok(_) => Ok(ApiResponse::success("Post deleted", post)),
        Err(_) => Err(ApiResponse::text(INTERNAL_ERROR, "Database error", "")),
    }
}

/// The message that goes with the posts of one user: how many there are.
pub open spec fn posts_found_message(count: nat) -> Seq<char> {
    "Posts found: "@ + decimal_text(count)
}

/// The reply to a request for the posts of the user behind the request.
pub fn posts_of_user_reply<T>(found: Result<Vec<T>, String>) -> (r: Result<
    ApiResponse<Vec<T>>,
    ApiResponse<String>,
>)
    ensures
        match found {
            Ok(posts) => r matches Ok(reply) && reply.carries(
                OK,
                posts_found_message(posts@.len()),
                posts,
            ),
            Err(_) => r matches Err(reply) && reply.says(
                INTERNAL_ERROR,
                "Database error"@,
                Seq::<char>::empty(),
            ),
        },
{
    proof {
        reveal_strlit("");
        assert(""@ =~= Seq::<char>::empty());
    }
    match found {
        Ok(posts) => {
            let count: String = decimal(posts.len() as u64);
            let message: String = joined("Posts found: ", count.as_str());
            Ok(ApiResponse::new(OK, message, posts))
        },
        Err(_) => Err(ApiResponse::text(INTERNAL_ERROR, "Database error", "")),
    }
}

} // verus!
