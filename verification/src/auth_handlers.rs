//! Registration, login, change of password, logout and deletion of an
//! account: what each endpoint asks of the store, and what it answers once
//! the store has replied.

use crate::config::AuthConfig;
use crate::jwt::{encode_jwt_at, encoded, issued, lives_as, token_view, Claims, SigningError};
use crate::messages::{
    user_reply_view, CreateUser, DeleteUser, LoginAndGetUser, LoginUserRequest, RegisterUserRequest,
    Reply, Step, UpdatePasswordRequest, UpdateUserPassword,
};
use crate::models::{User, UserView};
use crate::password::{accepts, hash_password, verify_password, MAX_COST, MIN_COST};
use crate::response::{
    message_response, plain_response, Body, BodyView, Response, ResponseView, SessionCookie,
    SessionCookieView, Status,
};
use vstd::prelude::*;

verus! {

/// The text of an optional hash.
pub open spec fn hash_view(hash: Option<String>) -> Option<Seq<char>> {
    match hash {
        Some(hash) => Some(hash@),
        None => None,
    }
}

/// When a cookie set at `now` for `ttl` seconds expires: at their sum, or at
/// the last second that a `u64` holds where the sum lies beyond it.
pub open spec fn cookie_expiry(now: u64, ttl: u64) -> u64 {
    if now + ttl <= u64::MAX {
        (now + ttl) as u64
    } else {
        u64::MAX
    }
}

/// The answer to a registration whose password could not be hashed.
pub open spec fn hashing_failed() -> ResponseView {
    message_response(Status::InternalServerError, "password hashing failed"@)
}

/// The answer to a request that reached a handler without claims.
pub open spec fn unauthorized() -> ResponseView {
    message_response(Status::Unauthorized, "unauthorized access"@)
}

/// What a registration does once the password has been hashed, or has not.
pub fn registration(body: &RegisterUserRequest, hash: Option<String>) -> (step: Step<CreateUser>)
    ensures
        match step {
            Step::Send(message) => hash_view(hash) == Some(message.password@) && message.username@
                == body.username@ && message.email@ == body.email@,
            Step::Respond(response) => hash is None && response@ == hashing_failed(),
        },
{
    match hash {
        Some(hash) => Step::Send(
            CreateUser {
                username: body.username.clone(),
                email: body.email.clone(),
                password: hash,
            },
        ),
        None => Step::Respond(
            Response::message(Status::InternalServerError, "password hashing failed"),
        ),
    }
}

/// A registration: the password is hashed at the cost that the settings
/// name, and the store is asked to create the user with the hash. Where
/// hashing fails, as with a cost outside 4 to 31, the request is answered with
/// an internal error and nothing is stored. The hash that is sent is one that
/// the password is accepted against.
pub fn register_user(body: &RegisterUserRequest, config: &AuthConfig) -> (step: Step<CreateUser>)
    ensures
        match step {
            Step::Send(message) => accepts(body.password@, message.password@) && message.username@
                == body.username@ && message.email@ == body.email@,
            Step::Respond(response) => response@ == hashing_failed(),
        },
        !(MIN_COST <= config.hash_cost <= MAX_COST) ==> step is Respond,
{
    let hash = hash_password(body.password.as_str(), config.hash_cost);
    registration(body, hash)
}

/// The answer to a registration once the store has replied.
pub open spec fn registered(reply: Reply<UserView>) -> ResponseView {
    match reply {
        Reply::Done(user) => plain_response(Status::Success, BodyView::Registered(user)),
        Reply::Failed => message_response(Status::InternalServerError, "failed to create user"@),
        Reply::Unreachable => message_response(
            Status::InternalServerError,
            "unable to create user"@,
        ),
    }
}

/// The answer to a registration once the store has replied.
pub fn register_user_reply(reply: Reply<User>) -> (response: Response)
    ensures
        response@ == registered(user_reply_view(reply)),
{
    match reply {
        Reply::Done(user) => Response::plain(Status::Success, Body::Registered(user)),
        Reply::Failed => Response::message(Status::InternalServerError, "failed to create user"),
        Reply::Unreachable => Response::message(
            Status::InternalServerError,
            "unable to create user",
        ),
    }
}

/// What a login asks of the store: the user with the email of the request.
pub fn login_lookup(body: &LoginUserRequest) -> (message: LoginAndGetUser)
    ensures
        message.email@ == body.email@,
        message.password@ == body.password@,
{
    LoginAndGetUser { email: body.email.clone(), password: body.password.clone() }
}

/// The answer to a login for a user that the store found, once the password
/// has been checked and, where it was accepted, a token has been asked for:
/// the token with the user's email and name and a cookie that carries it, an
/// internal error where no token was made, and `Unauthorized` where the
/// password was not accepted.
pub open spec fn login_answer(
    user: UserView,
    accepted: bool,
    token: Result<Seq<char>, SigningError>,
    expires: u64,
) -> ResponseView {
    if !accepted {
        message_response(Status::Unauthorized, "invalid credentials"@)
    } else {
        match token {
            Ok(token) => ResponseView {
                status: Status::Success,
                body: BodyView::LoggedIn { token, email: user.email, username: user.username },
                cookie: Some(SessionCookieView { value: token, expires }),
            },
            Err(_) => message_response(Status::InternalServerError, "failed to generate token"@),
        }
    }
}

/// The answer to a login once the store has replied.
pub open spec fn logged_in(
    password: Seq<char>,
    reply: Reply<UserView>,
    config: crate::config::AuthConfigView,
    now: u64,
) -> ResponseView {
    match reply {
        Reply::Done(user) => login_answer(
            user,
            accepts(password, user.password),
            encoded(user.email, user.id, user.role, config.secret, config.token_ttl, now),
            cookie_expiry(now, config.cookie_ttl),
        ),
        Reply::Failed => message_response(Status::Unauthorized, "invalid email or password"@),
        Reply::Unreachable => message_response(
            Status::InternalServerError,
            "unable to login user"@,
        ),
    }
}

/// The answer to a login for a user that the store found.
pub fn login_response(user: User, accepted: bool, token: Result<String, SigningError>, expires: u64) -> (response:
    Response)
    ensures
        response@ == login_answer(user@, accepted, token_view(token), expires),
{
    if !accepted {
        return Response::message(Status::Unauthorized, "invalid credentials");
    }
    match token {
        Ok(token) => Response {
            status: Status::Success,
            body: Body::LoggedIn {
                token: token.clone(),
                email: user.email,
                username: user.username,
            },
            cookie: Some(SessionCookie { value: token, expires }),
        },
        Err(_) => Response::message(Status::InternalServerError, "failed to generate token"),
    }
}

/// A login, once the store has replied: the password of the request is
/// checked against the stored hash, and where it is accepted a token is
/// issued at `now` for the user's email, id and role.
///
/// With an accepted password and an expiry that fits the claim the answer is
/// a success that carries a token. The token of a successful answer decodes
/// under the secret of the settings to claims with that email, id and role at
/// every time up to its expiry.
pub fn login_user(body: &LoginUserRequest, reply: Reply<User>, config: &AuthConfig, now: u64) -> (response:
    Response)
    ensures
        response@ == logged_in(body.password@, user_reply_view(reply), config@, now),
        user_reply_view(reply) matches Reply::Done(user) ==> (response@.body is LoggedIn <==> accepts(
            body.password@,
            user.password,
        ) && issued(user.email, user.id, user.role, now, config.token_ttl) is Some),
        response@.body matches BodyView::LoggedIn { token, .. } ==> match user_reply_view(reply) {
            Reply::Done(user) => issued(user.email, user.id, user.role, now, config.token_ttl)
                is Some && lives_as(
                token,
                config.secret@,
                issued(user.email, user.id, user.role, now, config.token_ttl).unwrap(),
            ),
            _ => false,
        },
{
    match reply {
        Reply::Done(user) => {
            let accepted = verify_password(body.password.as_str(), user.password.as_str());
            let expires = now.saturating_add(config.cookie_ttl);
            if accepted {
                let token = encode_jwt_at(
                    user.email.clone(),
                    user.id,
                    user.role.clone(),
                    config.secret.as_str(),
                    config.token_ttl,
                    now,
                );
                login_response(user, true, token, expires)
            } else {
                login_response(user, false, Err(SigningError::Refused), expires)
            }
        },
        Reply::Failed => Response::message(Status::Unauthorized, "invalid email or password"),
        Reply::Unreachable => Response::message(
            Status::InternalServerError,
            "unable to login user",
        ),
    }
}

/// What a change of password asks of the store first: the user whose claims
/// came with the request. Without claims the request is turned away.
pub fn update_password_lookup(claims: Option<&Claims>) -> (step: Step<LoginAndGetUser>)
    ensures
        match step {
            Step::Send(message) => claims matches Some(claims) && message.email@ == claims.email@
                && message.password@ == Seq::<char>::empty(),
            Step::Respond(response) => claims is None && response@ == unauthorized(),
        },
{
    match claims {
        Some(claims) => Step::Send(
            LoginAndGetUser { email: claims.email.clone(), password: String::new() },
        ),
        None => Step::Respond(Response::message(Status::Unauthorized, "unauthorized access")),
    }
}

/// What a change of password does for a user that the store found, once the
/// old password has been checked and, where it was accepted, the new one has
/// been hashed. An old password that is not accepted is a failed check of
/// credentials: nothing is sent, and the answer is `Unauthorized`.
pub fn password_change(user_id: i32, old_accepted: bool, new_hash: Option<String>) -> (step: Step<
    UpdateUserPassword,
>)
    ensures
        match step {
            Step::Send(message) => old_accepted && hash_view(new_hash) == Some(
                message.new_password@,
            ) && message.user_id == user_id,
            Step::Respond(response) => if !old_accepted {
                response@ == message_response(Status::Unauthorized, "invalid old password"@)
            } else {
                new_hash is None && response@ == hashing_failed()
            },
        },
{
    if !old_accepted {
        return Step::Respond(Response::message(Status::Unauthorized, "invalid old password"));
    }
    match new_hash {
        Some(hash) => Step::Send(UpdateUserPassword { user_id, new_password: hash }),
        None => Step::Respond(
            Response::message(Status::InternalServerError, "password hashing failed"),
        ),
    }
}

/// A change of password, once the store has replied with the user: the old
/// password is checked against the stored hash; where it is accepted the new
/// one is hashed and the store is asked to keep the hash for the user of the
/// claims. The hash that is sent is one that the new password is accepted
/// against.
pub fn update_password(
    claims: &Claims,
    body: &UpdatePasswordRequest,
    reply: Reply<User>,
    config: &AuthConfig,
) -> (step: Step<UpdateUserPassword>)
    ensures
        match user_reply_view(reply) {
            Reply::Done(user) => match step {
                Step::Send(message) => accepts(body.old_password@, user.password) && accepts(
                    body.new_password@,
                    message.new_password@,
                ) && message.user_id == claims.id,
                Step::Respond(response) => if !accepts(body.old_password@, user.password) {
                    response@ == message_response(Status::Unauthorized, "invalid old password"@)
                } else {
                    response@ == hashing_failed()
                },
            },
            Reply::Failed => step matches Step::Respond(response) && response@ == message_response(
                Status::InternalServerError,
                "failed to retrieve user"@,
            ),
            Reply::Unreachable => step matches Step::Respond(response) && response@
                == message_response(Status::InternalServerError, "internal server error"@),
        },
        user_reply_view(reply) matches Reply::Done(user) ==> accepts(
            body.old_password@,
            user.password,
        ) ==> !(MIN_COST <= config.hash_cost <= MAX_COST) ==> step is Respond,
{
    match reply {
        Reply::Done(user) => {
            if verify_password(body.old_password.as_str(), user.password.as_str()) {
                let hash = hash_password(body.new_password.as_str(), config.hash_cost);
                password_change(claims.id, true, hash)
            } else {
                password_change(claims.id, false, None)
            }
        },
        Reply::Failed => Step::Respond(
            Response::message(Status::InternalServerError, "failed to retrieve user"),
        ),
        Reply::Unreachable => Step::Respond(
            Response::message(Status::InternalServerError, "internal server error"),
        ),
    }
}

/// The answer to a change of password once the store has replied.
pub fn update_password_reply(reply: Reply<usize>) -> (response: Response)
    ensures
        response@ == (match reply {
            Reply::Done(_) => message_response(Status::Success, "password updated"@),
            _ => message_response(Status::InternalServerError, "failed to update password"@),
        }),
{
    match reply {
        Reply::Done(_) => Response::message(Status::Success, "password updated"),
        _ => Response::message(Status::InternalServerError, "failed to update password"),
    }
}

/// An answer with a message and a cookie that ends the session: its value is
/// a word in place of a token, and it expires at `now`.
pub open spec fn session_ended(message: Seq<char>, word: Seq<char>, now: u64) -> ResponseView {
    ResponseView {
        status: Status::Success,
        body: BodyView::Message { message },
        cookie: Some(SessionCookieView { value: word, expires: now }),
    }
}

/// The answer to a logout: the cookie is replaced by one that expires at
/// once.
pub fn logout_user(now: u64) -> (response: Response)
    ensures
        response@ == session_ended("user logged out"@, "logout"@, now),
{
    Response {
        status: Status::Success,
        body: Body::Message { message: "user logged out".to_owned() },
        cookie: Some(SessionCookie { value: "logout".to_owned(), expires: now }),
    }
}

/// What a deletion asks of the store: to delete the user of the claims.
/// Without claims the request is turned away.
pub fn delete_user(claims: Option<&Claims>) -> (step: Step<DeleteUser>)
    ensures
        match step {
            Step::Send(message) => claims matches Some(claims) && message.user_id == claims.id,
            Step::Respond(response) => claims is None && response@ == unauthorized(),
        },
{
    match claims {
        Some(claims) => Step::Send(DeleteUser { user_id: claims.id }),
        None => Step::Respond(Response::message(Status::Unauthorized, "unauthorized access")),
    }
}

/// The answer to a deletion once the store has replied with the number of
/// rows it deleted.
pub open spec fn deleted(reply: Reply<usize>, now: u64) -> ResponseView {
    match reply {
        Reply::Done(rows) => if rows > 0 {
            session_ended("user deleted"@, "delete"@, now)
        } else {
            message_response(Status::NotFound, "user not found"@)
        },
        _ => message_response(Status::InternalServerError, "failed to delete user"@),
    }
}

/// The answer to a deletion once the store has replied.
pub fn delete_user_reply(reply: Reply<usize>, now: u64) -> (response: Response)
    ensures
        response@ == deleted(reply, now),
{
    match reply {
        Reply::Done(rows) => {
            if rows > 0 {
                Response {
                    status: Status::Success,
                    body: Body::Message { message: "user deleted".to_owned() },
                    cookie: Some(SessionCookie { value: "delete".to_owned(), expires: now }),
                }
            } else {
                Response::message(Status::NotFound, "user not found")
            }
        },
        _ => Response::message(Status::InternalServerError, "failed to delete user"),
    }
}

/// Registering, then logging in: where the store holds for a user a hash
/// that the password is accepted against, as every hash is that a
/// registration sends, a login with that password at `now` is answered with
/// the token issued at `now` for the user's email, id and role and with a
/// cookie that carries it, or, where no token could be made, with an internal
/// error. With a password that is not accepted it is answered
/// `Unauthorized`.
pub proof fn lemma_accepted_password_logs_in(
    password: Seq<char>,
    user: UserView,
    config: crate::config::AuthConfigView,
    now: u64,
)
    ensures
        ({
            let answer = logged_in(password, Reply::Done(user), config, now);
            let token = encoded(user.email, user.id, user.role, config.secret, config.token_ttl, now);
            &&& accepts(password, user.password) ==> match token {
                Ok(token) => answer.status == Status::Success && answer.body == (BodyView::LoggedIn {
                    token,
                    email: user.email,
                    username: user.username,
                }) && answer.cookie == Some(
                    SessionCookieView { value: token, expires: cookie_expiry(now, config.cookie_ttl) },
                ),
                Err(_) => answer.status == Status::InternalServerError,
            }
            &&& !accepts(password, user.password) ==> answer == message_response(
                Status::Unauthorized,
                "invalid credentials"@,
            )
        }),
{
}

} // verus!
