use note_api::config::AuthConfig;
use note_api::jwt::{encode_jwt_at, Claims};
use note_api::middleware::{
    auth_stats_middleware, authenticate, check_auth_middleware, check_auth_permissions,
    check_role, downstream_failure, from_request, reject_token, role_allowed, Gate,
};
use note_api::jwt::TokenError;
use note_api::response::{Body, Response, Status};

const SECRET: &str = "a-signing-secret";
const NOW: u64 = 1_700_000_000;
const DAY: u64 = 86_400;

fn config() -> AuthConfig {
    AuthConfig::new(SECRET.to_string())
}

fn token(role: &str) -> String {
    encode_jwt_at("alice@example.com".to_string(), 7, role.to_string(), SECRET, DAY, NOW).unwrap()
}

fn bearer(role: &str) -> String {
    format!("Bearer {}", token(role))
}

fn claims(role: &str) -> Claims {
    Claims {
        exp: (NOW + DAY) as usize,
        iat: NOW as usize,
        email: "alice@example.com".to_string(),
        id: 7,
        role: role.to_string(),
    }
}

fn message(status: Status, text: &str) -> Response {
    Response { status, body: Body::Message { message: text.to_string() }, cookie: None }
}

#[test]
fn a_request_without_a_cookie_is_unauthorized() {
    let gate = check_auth_middleware(None, Some(&bearer("user")), &config(), NOW);
    assert_eq!(
        gate,
        Gate::Reject(message(Status::Unauthorized, "Token is not available in the cookie"))
    );
}

#[test]
fn the_cookie_is_missed_before_the_header() {
    let gate = check_auth_middleware(None, None, &config(), NOW);
    assert_eq!(
        gate,
        Gate::Reject(message(Status::Unauthorized, "Token is not available in the cookie"))
    );
}

#[test]
fn a_request_without_a_header_is_unauthorized() {
    let gate = check_auth_middleware(Some("whatever"), None, &config(), NOW);
    assert_eq!(
        gate,
        Gate::Reject(message(
            Status::Unauthorized,
            "Provide an authentication token in the request"
        ))
    );
    let gate = auth_stats_middleware(Some("whatever"), None, &config(), NOW);
    assert_eq!(
        gate,
        Gate::Reject(message(Status::Unauthorized, "Provide an authentication token"))
    );
}

#[test]
fn a_request_with_cookie_and_token_passes_with_its_claims() {
    let gate = check_auth_middleware(Some("anything"), Some(&bearer("user")), &config(), NOW + 5);
    assert_eq!(gate, Gate::Proceed(claims("user")));
}

#[test]
fn the_cookie_is_not_read() {
    let header = bearer("user");
    for cookie in ["", "logout", "another.token.here"] {
        let gate = check_auth_middleware(Some(cookie), Some(&header), &config(), NOW);
        assert_eq!(gate, Gate::Proceed(claims("user")));
    }
}

#[test]
fn the_token_may_come_without_the_word_bearer() {
    let gate = check_auth_middleware(Some("c"), Some(&token("user")), &config(), NOW);
    assert_eq!(gate, Gate::Proceed(claims("user")));
}

#[test]
fn an_expired_token_is_unauthorized() {
    let gate = check_auth_middleware(Some("c"), Some(&bearer("user")), &config(), NOW + DAY + 1);
    assert_eq!(gate, Gate::Reject(message(Status::Unauthorized, "Token has expired")));
}

#[test]
fn a_token_under_another_secret_is_unauthorized() {
    let other = AuthConfig::new("another".to_string());
    let gate = check_auth_middleware(Some("c"), Some(&bearer("user")), &other, NOW);
    assert_eq!(gate, Gate::Reject(message(Status::Unauthorized, "Invalid token signature")));
}

#[test]
fn a_text_that_is_no_token_is_unauthorized_with_details() {
    let gate = check_auth_middleware(Some("c"), Some("Bearer nonsense"), &config(), NOW);
    match gate {
        Gate::Reject(Response {
            status: Status::Unauthorized,
            body: Body::Details { message, details },
            cookie: None,
        }) => {
            assert_eq!(message, "Invalid token");
            assert!(!details.is_empty());
        }
        other => panic!("{other:?}"),
    }
}

#[test]
fn no_token_is_decoded_without_a_cookie() {
    let gate = check_auth_middleware(None, Some("Bearer nonsense"), &config(), NOW);
    assert_eq!(
        gate,
        Gate::Reject(message(Status::Unauthorized, "Token is not available in the cookie"))
    );
}

#[test]
fn reject_token_answers_each_error() {
    assert_eq!(
        reject_token(TokenError::ExpiredToken),
        message(Status::Unauthorized, "Token has expired")
    );
    assert_eq!(
        reject_token(TokenError::InvalidSignature),
        message(Status::Unauthorized, "Invalid token signature")
    );
    assert_eq!(
        reject_token(TokenError::MalformedToken("InvalidToken".to_string())),
        Response {
            status: Status::Unauthorized,
            body: Body::Details {
                message: "Invalid token".to_string(),
                details: "InvalidToken".to_string()
            },
            cookie: None,
        }
    );
}

#[test]
fn authenticate_answers_a_missing_header_as_told() {
    assert_eq!(
        authenticate(Some("c"), None, "no header", SECRET, NOW),
        Err(message(Status::Unauthorized, "no header"))
    );
    assert_eq!(
        authenticate(Some("c"), Some(&bearer("admin")), "no header", SECRET, NOW),
        Ok(claims("admin"))
    );
}

#[test]
fn a_user_is_forbidden_on_an_administrative_route() {
    let gate = auth_stats_middleware(Some("c"), Some(&bearer("user")), &config(), NOW);
    assert_eq!(gate, Gate::Reject(message(Status::Forbidden, "Only admin can access this route")));
}

#[test]
fn an_admin_passes_an_administrative_route() {
    let gate = auth_stats_middleware(Some("c"), Some(&bearer("admin")), &config(), NOW);
    assert_eq!(gate, Gate::Proceed(claims("admin")));
}

#[test]
fn roles_are_compared_exactly() {
    for role in ["Admin", "admin ", "", "administrator", "user"] {
        let gate = auth_stats_middleware(Some("c"), Some(&bearer(role)), &config(), NOW);
        assert_eq!(
            gate,
            Gate::Reject(message(Status::Forbidden, "Only admin can access this route")),
            "{role:?}"
        );
    }
}

#[test]
fn an_expired_admin_token_is_unauthorized_not_forbidden() {
    let gate = auth_stats_middleware(Some("c"), Some(&bearer("admin")), &config(), NOW + DAY + 1);
    assert_eq!(gate, Gate::Reject(message(Status::Unauthorized, "Token has expired")));
}

#[test]
fn check_auth_permissions_takes_any_list_of_roles() {
    let roles = vec!["editor".to_string(), "user".to_string()];
    let header = bearer("user");
    assert_eq!(
        check_auth_permissions(Some("c"), Some(&header), &roles, &config(), NOW),
        Gate::Proceed(claims("user"))
    );
    let header = bearer("admin");
    assert_eq!(
        check_auth_permissions(Some("c"), Some(&header), &roles, &config(), NOW),
        Gate::Reject(message(Status::Forbidden, "Only admin can access this route"))
    );
    assert_eq!(
        check_auth_permissions(Some("c"), Some(&header), &Vec::new(), &config(), NOW),
        Gate::Reject(message(Status::Forbidden, "Only admin can access this route"))
    );
}

#[test]
fn role_allowed_looks_through_the_list() {
    let roles = vec!["admin".to_string(), "editor".to_string()];
    assert!(role_allowed(&"admin".to_string(), &roles));
    assert!(role_allowed(&"editor".to_string(), &roles));
    assert!(!role_allowed(&"user".to_string(), &roles));
    assert!(!role_allowed(&"admin".to_string(), &Vec::new()));
}

#[test]
fn check_role_decides_for_claims_that_were_found() {
    let roles = vec!["admin".to_string()];
    assert_eq!(check_role(claims("admin"), &roles), Gate::Proceed(claims("admin")));
    assert_eq!(
        check_role(claims("user"), &roles),
        Gate::Reject(message(Status::Forbidden, "Only admin can access this route"))
    );
}

#[test]
fn a_failure_behind_the_check_is_an_internal_error() {
    assert_eq!(
        downstream_failure("pool timed out".to_string()),
        Response {
            status: Status::InternalServerError,
            body: Body::Details {
                message: "Internal server error".to_string(),
                details: "pool timed out".to_string()
            },
            cookie: None,
        }
    );
}

#[test]
fn from_request_copies_the_claims_or_answers_unauthorized() {
    let found = claims("user");
    assert_eq!(from_request(Some(&found)), Ok(claims("user")));
    assert_eq!(
        from_request(None),
        Err(Response {
            status: Status::Unauthorized,
            body: Body::Text("Bad Claims".to_string()),
            cookie: None
        })
    );
}
