//! The uniform reply that every endpoint hands back: a status, a message for
//! people, and a payload.

use vstd::prelude::*;
use vstd::string::*;

verus! {

/// The status of a reply that carries what was asked for.
pub const OK: u16 = 200;

/// The status of a reply to a request that cannot be understood.
pub const BAD_REQUEST: u16 = 400;

/// The status of a reply to a request that does not show who sends it.
pub const UNAUTHORIZED: u16 = 401;

/// The status of a reply to a request for something that is not there.
pub const NOT_FOUND: u16 = 404;

/// The status of a reply to a request that could not be served.
pub const INTERNAL_ERROR: u16 = 500;

/// A reply of `{status, message, data}` shape.
#[derive(Debug)]
pub struct ApiResponse<T> {
    pub status: u16,
    pub message: String,
    pub data: T,
}

impl<T> ApiResponse<T> {
    /// Builds a reply from its three parts, unchanged.
    pub fn new(status: u16, message: String, data: T) -> (reply: Self)
        ensures
            reply.status == status,
            reply.message == message,
            reply.data == data,
    {
        Self { status, message, data }
    }

    /// The reply has this status and message, and carries `data`.
    pub open spec fn carries(self, status: u16, message: Seq<char>, data: T) -> bool {
        self.status == status && self.message@ == message && self.data == data
    }

    /// A reply of status 200 with this message and payload.
    pub fn success(message: &str, data: T) -> (reply: Self)
        ensures
            reply.carries(OK, message@, data),
    {
        Self { status: OK, message: message.to_owned(), data }
    }

    /// The status is one that can be sent: a number of three digits.
    pub open spec fn spec_has_sendable_status(&self) -> bool {
        100 <= self.status <= 999
    }

    /// Whether the status is one that can be sent: a number of three digits.
    pub fn has_sendable_status(&self) -> (sendable: bool)
        ensures
            sendable == self.spec_has_sendable_status(),
    {
        100 <= self.status && self.status <= 999
    }

    /// The text that stands for the reply where one line must do: its message.
    pub fn message_text(&self) -> (text: String)
        ensures
            text@ == self.message@,
    {
        self.message.clone()
    }
}

impl ApiResponse<String> {
    /// The reply has this status and message, and its payload is the text `data`.
    pub open spec fn says(self, status: u16, message: Seq<char>, data: Seq<char>) -> bool {
        self.status == status && self.message@ == message && self.data@ == data
    }

    /// A reply whose payload is a text.
    pub fn text(status: u16, message: &str, data: &str) -> (reply: Self)
        ensures
            reply.says(status, message@, data@),
    {
        Self { status, message: message.to_owned(), data: data.to_owned() }
    }
}

/// What is sent in place of a reply that cannot be written down.
pub fn serialization_fallback() -> (body: &'static str)
    ensures
        body@ == r#"{"status": 500, "message": "Serialization error", "data": null}"#@,
{
    r#"{"status": 500, "message": "Serialization error", "data": null}"#
}

/// The reply `found` was to carry, or the refusal that takes its place: 404
/// where nothing was found, 500 where the store failed. What the store said
/// is not repeated.
pub fn found_or_refusal<T>(
    found: Result<Option<T>, String>,
    missing_message: &str,
    missing_data: &str,
) -> (r: Result<T, ApiResponse<String>>)
    ensures
        match found {
            Ok(Some(item)) => r == Ok::<T, ApiResponse<String>>(item),
            Ok(None) => r matches Err(reply) && reply.says(
                NOT_FOUND,
                missing_message@,
                missing_data@,
            ),
            Err(_) => r matches Err(reply) && reply.says(
                INTERNAL_ERROR,
                "Database error"@,
                Seq::<char>::empty(),
            ),
        },
{
    proof {
        reveal_strlit("");
        assert(""@ =~= Seq::<char>::empty());
    }
    match found {
        Ok(Some(item)) => Ok(item),
        Ok(None) => Err(ApiResponse::text(NOT_FOUND, missing_message, missing_data)),
        Err(_) => Err(ApiResponse::text(INTERNAL_ERROR, "Database error", "")),
    }
}

/// The reply to a change that the store made, or the refusal (500, with
/// `failure_message`) where it failed. What the store said is not repeated.
pub fn done_or_refusal<T>(done: Result<T, String>, message: &str, failure_message: &str) -> (r:
    Result<ApiResponse<T>, ApiResponse<String>>)
    ensures
        match done {
            Ok(item) => r matches Ok(reply) && reply.carries(OK, message@, item),
            Err(_) => r matches Err(reply) && reply.says(
                INTERNAL_ERROR,
                failure_message@,
                Seq::<char>::empty(),
            ),
        },
{
    proof {
        reveal_strlit("");
        assert(""@ =~= Seq::<char>::empty());
    }
    match done {
        Ok(item) => Ok(ApiResponse::success(message, item)),
        Err(_) => Err(ApiResponse::text(INTERNAL_ERROR, failure_message, "")),
    }
}

} // verus!
