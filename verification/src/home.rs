//! What the two greeting endpoints reply.

use vstd::prelude::*;
use vstd::string::*;

use crate::api_response::{ApiResponse, OK};
use crate::text::{decimal, decimal_text, joined};

verus! {

/// The greeting for `name`.
pub open spec fn hello_message(name: Seq<char>) -> Seq<char> {
    "Hello, "@ + name + "!"@
}

/// The message that goes with the list of all users: how many there are.
pub open spec fn users_found_message(count: nat) -> Seq<char> {
    "Found users "@ + decimal_text(count)
}

/// The reply that greets `name` and carries the name.
pub fn hello_reply(name: &str) -> (reply: ApiResponse<String>)
    ensures
        reply.says(OK, hello_message(name@), name@),
{
    let mut message: String = joined("Hello, ", name);
    message.append("!");
    ApiResponse::new(OK, message, name.to_owned())
}

/// The reply that carries all users.
pub fn all_users_reply<T>(users: Vec<T>) -> (reply: ApiResponse<Vec<T>>)
    ensures
        reply.carries(OK, users_found_message(users@.len()), users),
{
    let count: String = decimal(users.len() as u64);
    let message: String = joined("Found users ", count.as_str());
    ApiResponse::new(OK, message, users)
}

} // verus!
