//! The checks in front of the protected routes: a request passes only with a
//! session cookie and with an `Authorization` header whose token decodes, and
//! an administrative route only with a role on its list.
//!
//! The cookie is asked for but not read: the token that counts is the
//! header's.

use crate::config::AuthConfig;
use crate::jwt::{decode_jwt_at, decoded, opened_token, Claims, ClaimsView, TokenError, TokenErrorView};
use crate::response::{
    details_response, message_response, plain_response, Body, BodyView, Response, ResponseView,
    Status,
};
use crate::text::{remove_all, without};
use vstd::prelude::*;

verus! {

/// Whether a request goes on to its handler.
#[derive(Debug, Clone, PartialEq, Eq)]
pub enum Gate {
    /// It does, in the name of the user that the claims describe.
    Proceed(Claims),
    /// It does not, and is answered with this.
    Reject(Response),
}

/// The mathematical value of a [`Gate`].
pub enum GateView {
    Proceed(ClaimsView),
    Reject(ResponseView),
}

impl View for Gate {
    type V = GateView;

    open spec fn view(&self) -> GateView {
        match self {
            Gate::Proceed(claims) => GateView::Proceed(claims@),
            Gate::Reject(response) => GateView::Reject(response@),
        }
    }
}

/// The token in an `Authorization` header: the header without `Bearer `.
pub open spec fn bearer_token(authorization: Seq<char>) -> Seq<char> {
    without(authorization, "Bearer "@)
}

/// The answer to a token that did not decode.
pub open spec fn token_rejection(error: TokenErrorView) -> ResponseView {
    match error {
        TokenErrorView::ExpiredToken => message_response(
            Status::Unauthorized,
            "Token has expired"@,
        ),
        TokenErrorView::InvalidSignature => message_response(
            Status::Unauthorized,
            "Invalid token signature"@,
        ),
        TokenErrorView::MalformedToken(detail) => details_response(
            Status::Unauthorized,
            "Invalid token"@,
            detail,
        ),
    }
}

/// Who a request speaks for: the claims of the header's token, or the answer
/// that turns the request away. A missing cookie is noticed first, a missing
/// header second (and answered with `missing_header`), and only then is the
/// token decoded.
pub open spec fn authentication(
    cookie: Option<Seq<char>>,
    authorization: Option<Seq<char>>,
    missing_header: Seq<char>,
    secret: Seq<char>,
    now: u64,
) -> Result<ClaimsView, ResponseView> {
    if cookie is None {
        Err(message_response(Status::Unauthorized, "Token is not available in the cookie"@))
    } else {
        match authorization {
            None => Err(message_response(Status::Unauthorized, missing_header)),
            Some(header) => match decoded(opened_token(bearer_token(header), secret), now) {
                Ok(claims) => Ok(claims),
                Err(error) => Err(token_rejection(error)),
            },
        }
    }
}

/// What guards the routes that any signed-in user may take.
pub open spec fn auth_gate(
    cookie: Option<Seq<char>>,
    authorization: Option<Seq<char>>,
    secret: Seq<char>,
    now: u64,
) -> GateView {
    match authentication(
        cookie,
        authorization,
        "Provide an authentication token in the request"@,
        secret,
        now,
    ) {
        Ok(claims) => GateView::Proceed(claims),
        Err(response) => GateView::Reject(response),
    }
}

/// The characters of each role on a list.
pub open spec fn roles_view(roles: Seq<String>) -> Seq<Seq<char>> {
    roles.map_values(|role: String| role@)
}

/// What the role gate makes of claims that were found: on with a role that
/// is on the list, and `Forbidden` with any other.
pub open spec fn role_gate(claims: ClaimsView, allowed_roles: Seq<Seq<char>>) -> GateView {
    if allowed_roles.contains(claims.role) {
        GateView::Proceed(claims)
    } else {
        GateView::Reject(message_response(Status::Forbidden, "Only admin can access this route"@))
    }
}

/// What guards the routes that only the listed roles may take.
pub open spec fn permission_gate(
    cookie: Option<Seq<char>>,
    authorization: Option<Seq<char>>,
    allowed_roles: Seq<Seq<char>>,
    secret: Seq<char>,
    now: u64,
) -> GateView {
    match authentication(cookie, authorization, "Provide an authentication token"@, secret, now) {
        Ok(claims) => role_gate(claims, allowed_roles),
        Err(response) => GateView::Reject(response),
    }
}

/// The roles that may take the administrative routes.
pub open spec fn admin_roles() -> Seq<Seq<char>> {
    seq!["admin"@]
}

/// The characters of a text that may be absent.
pub open spec fn optional_view(text: Option<&str>) -> Option<Seq<char>> {
    match text {
        Some(text) => Some(text@),
        None => None,
    }
}

/// The mathematical value of what authentication found.
pub open spec fn found_view(found: Result<Claims, Response>) -> Result<ClaimsView, ResponseView> {
    match found {
        Ok(claims) => Ok(claims@),
        Err(response) => Err(response@),
    }
}

/// The answer to a token that did not decode.
pub fn reject_token(error: TokenError) -> (response: Response)
    ensures
        response@ == token_rejection(error@),
{
    match error {
        TokenError::ExpiredToken => Response::message(Status::Unauthorized, "Token has expired"),
        TokenError::InvalidSignature => Response::message(
            Status::Unauthorized,
            "Invalid token signature",
        ),
        TokenError::MalformedToken(detail) => Response::details(
            Status::Unauthorized,
            "Invalid token",
            detail,
        ),
    }
}

/// Who a request speaks for.
pub fn authenticate(
    cookie: Option<&str>,
    authorization: Option<&str>,
    missing_header: &str,
    secret: &str,
    now: u64,
) -> (found: Result<Claims, Response>)
    ensures
        found_view(found) == authentication(
            optional_view(cookie),
            optional_view(authorization),
            missing_header@,
            secret@,
            now,
        ),
{
    if cookie.is_none() {
        return Err(
            Response::message(Status::Unauthorized, "Token is not available in the cookie"),
        );
    }
    let header = match authorization {
        Some(header) => header,
        None => {
            return Err(Response::message(Status::Unauthorized, missing_header));
        },
    };
    let token = remove_all(header, "Bearer ");
    match decode_jwt_at(token.as_str(), secret, now) {
        Ok(claims) => Ok(claims),
        Err(error) => Err(reject_token(error)),
    }
}

/// Guards the routes that any signed-in user may take. The claims that are
/// let through are for the handler to read.
pub fn check_auth_middleware(
    cookie: Option<&str>,
    authorization: Option<&str>,
    config: &AuthConfig,
    now: u64,
) -> (gate: Gate)
    ensures
        gate@ == auth_gate(optional_view(cookie), optional_view(authorization), config.secret@, now),
{
    match authenticate(
        cookie,
        authorization,
        "Provide an authentication token in the request",
        config.secret.as_str(),
        now,
    ) {
        Ok(claims) => Gate::Proceed(claims),
        Err(response) => Gate::Reject(response),
    }
}

/// Whether `role` is on the list.
pub fn role_allowed(role: &String, allowed_roles: &Vec<String>) -> (allowed: bool)
    ensures
        allowed == roles_view(allowed_roles@).contains(role@),
{
    let mut i: usize = 0;
    while i < allowed_roles.len()
        invariant
            i <= allowed_roles.len(),
            forall|j: int| 0 <= j < i ==> roles_view(allowed_roles@)[j] != role@,
        decreases allowed_roles.len() - i,
    {
        if allowed_roles[i] == *role {
            assert(roles_view(allowed_roles@)[i as int] == role@);
            return true;
        }
        i += 1;
    }
    false
}

/// The role gate, for claims that were found.
pub fn check_role(claims: Claims, allowed_roles: &Vec<String>) -> (gate: Gate)
    ensures
        gate@ == role_gate(claims@, roles_view(allowed_roles@)),
{
    if role_allowed(&claims.role, allowed_roles) {
        Gate::Proceed(claims)
    } else {
        Gate::Reject(Response::message(Status::Forbidden, "Only admin can access this route"))
    }
}

/// Guards the routes that only the listed roles may take.
pub fn check_auth_permissions(
    cookie: Option<&str>,
    authorization: Option<&str>,
    allowed_roles: &Vec<String>,
    config: &AuthConfig,
    now: u64,
) -> (gate: Gate)
    ensures
        gate@ == permission_gate(
            optional_view(cookie),
            optional_view(authorization),
            roles_view(allowed_roles@),
            config.secret@,
            now,
        ),
{
    match authenticate(
        cookie,
        authorization,
        "Provide an authentication token",
        config.secret.as_str(),
        now,
    ) {
        Ok(claims) => check_role(claims, allowed_roles),
        Err(response) => Gate::Reject(response),
    }
}

/// Guards the administrative routes: only the role `admin` passes.
pub fn auth_stats_middleware(
    cookie: Option<&str>,
    authorization: Option<&str>,
    config: &AuthConfig,
    now: u64,
) -> (gate: Gate)
    ensures
        gate@ == permission_gate(
            optional_view(cookie),
            optional_view(authorization),
            admin_roles(),
            config.secret@,
            now,
        ),
{
    let mut allowed_roles: Vec<String> = Vec::new();
    allowed_roles.push("admin".to_owned());
    assert(roles_view(allowed_roles@) =~= admin_roles());
    check_auth_permissions(cookie, authorization, &allowed_roles, config, now)
}

/// The answer where the handler behind a check failed: an internal error with
/// the failure in words.
pub fn downstream_failure(details: String) -> (response: Response)
    ensures
        response@ == details_response(
            Status::InternalServerError,
            "Internal server error"@,
            details@,
        ),
{
    Response::details(Status::InternalServerError, "Internal server error", details)
}

/// The mathematical value of claims that may be absent.
pub open spec fn context_view(claims: Option<&Claims>) -> Option<ClaimsView> {
    match claims {
        Some(claims) => Some(claims@),
        None => None,
    }
}

/// The answer to a request that reached a protected handler without claims:
/// it is not authenticated.
pub open spec fn claims_missing() -> ResponseView {
    plain_response(Status::Unauthorized, BodyView::Text("Bad Claims"@))
}

/// The claims that a handler behind [`check_auth_middleware`] is called
/// with: those that were let through, copied. A request that carries none is
/// not authenticated, and is answered `Unauthorized`.
pub fn from_request(claims: Option<&Claims>) -> (found: Result<Claims, Response>)
    ensures
        match found {
            Ok(copy) => context_view(claims) == Some(copy@),
            Err(response) => claims is None && response@ == claims_missing(),
        },
{
    match claims {
        Some(claims) => Ok(claims.clone()),
        None => Err(Response::plain(Status::Unauthorized, Body::Text("Bad Claims".to_owned()))),
    }
}

/// The role gate decides by the role alone: a request whose token decodes is
/// answered `Forbidden` on an administrative route where its role is not
/// `admin`, and passes where it is.
pub proof fn lemma_admin_gate(
    cookie: Option<Seq<char>>,
    authorization: Option<Seq<char>>,
    secret: Seq<char>,
    now: u64,
)
    ensures
        match authentication(cookie, authorization, "Provide an authentication token"@, secret, now) {
            Ok(claims) => {
                let gate = permission_gate(cookie, authorization, admin_roles(), secret, now);
                &&& claims.role != "admin"@ ==> gate == GateView::Reject(
                    message_response(Status::Forbidden, "Only admin can access this route"@),
                )
                &&& claims.role == "admin"@ ==> gate == GateView::Proceed(claims)
            },
            Err(_) => true,
        },
{
    assert(admin_roles()[0] == "admin"@);
}

} // verus!
