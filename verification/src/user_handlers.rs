//! The endpoints that read users: the list for administrators, and a user's
//! own profile.

use crate::auth_handlers::unauthorized;
use crate::jwt::Claims;
use crate::messages::{user_reply_view, LoginAndGetUser, Reply, Step};
use crate::models::{users_view, User, UserView};
use crate::response::{
    message_response, plain_response, Body, BodyView, Response, ResponseView, Status,
};
use vstd::prelude::*;

verus! {

/// The mathematical value of a reply that carries a list of users.
pub open spec fn users_reply_view(reply: Reply<Vec<User>>) -> Reply<Seq<UserView>> {
    match reply {
        Reply::Done(users) => Reply::Done(users_view(users@)),
        Reply::Failed => Reply::Failed,
        Reply::Unreachable => Reply::Unreachable,
    }
}

/// The answer to a request for every user once the store has replied.
pub open spec fn users_listed(reply: Reply<Seq<UserView>>) -> ResponseView {
    match reply {
        Reply::Done(users) => plain_response(Status::Success, BodyView::Users(users)),
        Reply::Failed => message_response(Status::NotFound, "no users found"@),
        Reply::Unreachable => message_response(
            Status::InternalServerError,
            "unable to retrieve users"@,
        ),
    }
}

/// The answer to a request for every user once the store has replied. The
/// route is administrative: the request has passed the role gate.
pub fn fetch_users(reply: Reply<Vec<User>>) -> (response: Response)
    ensures
        response@ == users_listed(users_reply_view(reply)),
{
    match reply {
        Reply::Done(users) => Response::plain(Status::Success, Body::Users(users)),
        Reply::Failed => Response::message(Status::NotFound, "no users found"),
        Reply::Unreachable => Response::message(
            Status::InternalServerError,
            "unable to retrieve users",
        ),
    }
}

/// What a request for one's own profile asks of the store: the user whose
/// claims came with the request. Without claims the request is turned away.
pub fn get_user_lookup(claims: Option<&Claims>) -> (step: Step<LoginAndGetUser>)
    ensures
        match step {
            Step::Send(message) => claims matches Some(claims) && message.email@ == claims.email@
                && message.password@ == Seq::<char>::empty(),
            Step::Respond(response) => claims is None && response@ == unauthorized(),
        },
{
    match claims {
        Some(claims) => Step::Send(
            LoginAndGetUser { email: claims.email.clone(), password: String::new() },
        ),
        None => Step::Respond(Response::message(Status::Unauthorized, "unauthorized access")),
    }
}

/// The answer to a request for one's own profile once the store has replied.
pub open spec fn profile(reply: Reply<UserView>) -> ResponseView {
    match reply {
        Reply::Done(user) => plain_response(Status::Success, BodyView::Profile { user }),
        Reply::Failed => message_response(Status::Unauthorized, "invalid email or password"@),
        Reply::Unreachable => message_response(
            Status::InternalServerError,
            "unable to retrieve user"@,
        ),
    }
}

/// The answer to a request for one's own profile once the store has replied.
pub fn get_user(reply: Reply<User>) -> (response: Response)
    ensures
        response@ == profile(user_reply_view(reply)),
{
    match reply {
        Reply::Done(user) => Response::plain(Status::Success, Body::Profile { user }),
        Reply::Failed => Response::message(Status::Unauthorized, "invalid email or password"),
        Reply::Unreachable => Response::message(
            Status::InternalServerError,
            "unable to retrieve user",
        ),
    }
}

} // verus!
