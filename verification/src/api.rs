use vstd::prelude::*;
use vstd::string::*;

use crate::error::{DeliveryError, Kind};
use crate::message::{concat2, sayln, Color, Message};

verus! {

/// The HTTP methods that `delivery api` sends.
#[derive(Debug, Clone, Copy, PartialEq, Eq, Structural)]
pub enum HttpMethod {
    Get,
    Post,
    Put,
    Delete,
}

/// The method that the `api` command names: `get`, `post`, `put` or `delete`,
/// in lower case; any other name is none.
pub open spec fn method_spec(method: Seq<char>) -> Option<HttpMethod> {
    if method == "get"@ {
        Some(HttpMethod::Get)
    } else if method == "post"@ {
        Some(HttpMethod::Post)
    } else if method == "put"@ {
        Some(HttpMethod::Put)
    } else if method == "delete"@ {
        Some(HttpMethod::Delete)
    } else {
        None
    }
}

/// The method of an `api` request; any name but the four known ones is
/// refused with `UnsupportedHttpMethod`.
pub fn parse_http_method(method: &str) -> (res: Result<HttpMethod, DeliveryError>)
    ensures
        match method_spec(method@) {
            Some(m) => res == Ok::<HttpMethod, DeliveryError>(m),
            None => res matches Err(e) && e.kind == Kind::UnsupportedHttpMethod && e.detail is None,
        },
{
    let m = String::from_str(method);
    if m == String::from_str("get") {
        Ok(HttpMethod::Get)
    } else if m == String::from_str("post") {
        Ok(HttpMethod::Post)
    } else if m == String::from_str("put") {
        Ok(HttpMethod::Put)
    } else if m == String::from_str("delete") {
        Ok(HttpMethod::Delete)
    } else {
        Err(DeliveryError::new(Kind::UnsupportedHttpMethod))
    }
}

/// Whether `delivery api` prints the body of a response with this status:
/// every status but 204 No Content.
pub fn response_is_printed(status: u16) -> (res: bool)
    ensures
        res == (status != 204),
{
    status != 204
}

/// What `delivery token` prints once the server has issued `token`, before
/// it saves it.
pub fn token_message(token: &str) -> (res: Message)
    ensures
        res@ == sayln(Color::Magenta, "token: "@ + token@),
{
    Message { color: Color::Magenta, text: concat2("token: ", token), newline: true }
}

/// What `delivery token` prints once it has saved the token to `store_path`.
pub fn token_saved_message(store_path: &str) -> (res: Message)
    ensures
        res@ == sayln(Color::Green, "saved API token to: "@ + store_path@),
{
    Message { color: Color::Green, text: concat2("saved API token to: ", store_path), newline: true }
}

} // verus!
