//! The endpoints that greet: they need no store and no claims.

use crate::response::{message_response, Response, ResponseView, Status};
use vstd::prelude::*;
use vstd::string::StringExecFns;

verus! {

/// The answer of the front page.
pub fn home() -> (response: Response)
    ensures
        response@ == message_response(Status::Success, "welcome to rust not api"@),
{
    Response::message(Status::Success, "welcome to rust not api")
}

/// The answer that greets the world.
pub fn index() -> (response: Response)
    ensures
        response@ == message_response(Status::Success, "hello world!"@),
{
    Response::message(Status::Success, "hello world!")
}

/// The answer that greets `name`.
pub open spec fn greeting(name: Seq<char>) -> ResponseView {
    message_response(Status::Success, "Hello, "@ + name)
}

/// The answer that greets `name`.
pub fn hello(name: &str) -> (response: Response)
    ensures
        response@ == greeting(name@),
{
    let mut message = String::from_str("Hello, ");
    message.append(name);
    Response::message(Status::Success, message.as_str())
}

} // verus!
