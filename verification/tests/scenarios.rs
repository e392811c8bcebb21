use note_api::actors::new_user;
use note_api::auth_handlers::{login_lookup, login_user, register_user, register_user_reply};
use note_api::config::AuthConfig;
use note_api::jwt::{decode_jwt_at, Claims};
use note_api::messages::{
    LoginUserRequest, OTPMessage, RegisterUserRequest, Reply, Step, ValidateOTPRequest,
    VerifyOTPRequest,
};
use note_api::middleware::{auth_stats_middleware, check_auth_middleware, Gate};
use note_api::models::User;
use note_api::response::{Body, Response, Status};
use note_api::two_fa_handlers::{
    generate_otp_handler, generate_otp_reply, otp_lookup, token_validate_handler,
    verify_otp_handler, verify_otp_reply,
};
use note_api::user_handlers::fetch_users;

const NOW: u64 = 1_700_000_000;

fn config() -> AuthConfig {
    let mut config = AuthConfig::new("a-signing-secret".to_string());
    config.hash_cost = 4;
    config
}

fn register(store: &mut Vec<User>, name: &str, password: &str) -> Response {
    let body = RegisterUserRequest {
        username: name.to_string(),
        email: format!("{name}@example.com"),
        password: password.to_string(),
    };
    let message = match register_user(&body, &config()) {
        Step::Send(message) => message,
        Step::Respond(response) => return response,
    };
    let row = new_user(message, store.len() as i64);
    let user = User {
        id: store.len() as i32 + 1,
        username: row.username,
        email: row.email,
        password: row.password,
        role: row.role,
        otp_enabled: false,
        otp_verified: false,
        otp_base32: None,
        otp_auth_url: None,
    };
    store.push(user.clone());
    register_user_reply(Reply::Done(user))
}

fn find(store: &[User], email: &str) -> Reply<User> {
    match store.iter().find(|user| user.email == email) {
        Some(user) => Reply::Done(user.clone()),
        None => Reply::Failed,
    }
}

fn login(store: &[User], name: &str, password: &str, now: u64) -> Response {
    let body =
        LoginUserRequest { email: format!("{name}@example.com"), password: password.to_string() };
    let lookup = login_lookup(&body);
    login_user(&body, find(store, &lookup.email), &config(), now)
}

fn token_of(response: &Response) -> String {
    match &response.body {
        Body::LoggedIn { token, .. } => token.clone(),
        other => panic!("{other:?}"),
    }
}

fn update(store: &mut [User], message: OTPMessage) -> Reply<User> {
    for user in store.iter_mut() {
        if user.email == message.email {
            *user = message.apply(user.clone());
            return Reply::Done(user.clone());
        }
    }
    Reply::Failed
}

fn claims_behind(token: &str, now: u64) -> Claims {
    let header = format!("Bearer {token}");
    match check_auth_middleware(Some(token), Some(&header), &config(), now) {
        Gate::Proceed(claims) => claims,
        Gate::Reject(response) => panic!("{response:?}"),
    }
}

fn current_code(secret: &str, now: u64) -> String {
    let bytes = totp_rs::Secret::Encoded(secret.to_string()).to_bytes().unwrap();
    totp_rs::TOTP::new(totp_rs::Algorithm::SHA1, 6, 1, 30, bytes).unwrap().generate(now)
}

#[test]
fn a_registered_pair_logs_in_and_its_token_decodes_to_the_user() {
    let mut store = Vec::new();
    for (name, password) in [("ann", "pw-one"), ("ben", "pw two"), ("cy", "")] {
        assert_eq!(register(&mut store, name, password).status, Status::Success);
    }
    for (index, (name, password)) in
        [("ann", "pw-one"), ("ben", "pw two"), ("cy", "")].into_iter().enumerate()
    {
        let response = login(&store, name, password, NOW);
        assert_eq!(response.status, Status::Success);
        let claims = decode_jwt_at(&token_of(&response), "a-signing-secret", NOW + 10).unwrap();
        assert_eq!(claims.email, format!("{name}@example.com"));
        assert_eq!(claims.id, index as i32 + 1);
        assert_eq!(claims.role, if index == 0 { "admin" } else { "user" });
    }
    assert_eq!(login(&store, "ann", "pw two", NOW).status, Status::Unauthorized);
    assert_eq!(login(&store, "dee", "pw-one", NOW).status, Status::Unauthorized);
}

#[test]
fn the_first_user_administers_and_the_second_does_not() {
    let mut store = Vec::new();
    let first = register(&mut store, "ann", "pw-one");
    match &first.body {
        Body::Registered(user) => assert_eq!(user.role, "admin"),
        other => panic!("{other:?}"),
    }
    let second = register(&mut store, "ben", "pw-two");
    match &second.body {
        Body::Registered(user) => assert_eq!(user.role, "user"),
        other => panic!("{other:?}"),
    }

    let token = token_of(&login(&store, "ann", "pw-one", NOW));
    let header = format!("Bearer {token}");
    match auth_stats_middleware(Some(&token), Some(&header), &config(), NOW + 1) {
        Gate::Proceed(claims) => assert_eq!(claims.role, "admin"),
        Gate::Reject(response) => panic!("{response:?}"),
    }
    let listed = fetch_users(Reply::Done(store.clone()));
    assert_eq!(listed.status.code(), 200);
    match listed.body {
        Body::Users(users) => {
            assert_eq!(users.len(), 2);
            assert_eq!(users[0].username, "ann");
            assert_eq!(users[1].username, "ben");
        }
        other => panic!("{other:?}"),
    }

    let token = token_of(&login(&store, "ben", "pw-two", NOW));
    let header = format!("Bearer {token}");
    match auth_stats_middleware(Some(&token), Some(&header), &config(), NOW + 1) {
        Gate::Reject(response) => assert_eq!(response.status.code(), 403),
        Gate::Proceed(claims) => panic!("{claims:?}"),
    }
}

#[test]
fn a_code_counts_at_login_only_after_it_has_been_verified() {
    let mut store = Vec::new();
    register(&mut store, "ann", "pw-one");
    let token = token_of(&login(&store, "ann", "pw-one", NOW));
    let claims = claims_behind(&token, NOW + 1);

    let enrolment = match generate_otp_handler(Some(&claims), &config()) {
        Step::Send(message) => message,
        Step::Respond(response) => panic!("{response:?}"),
    };
    let reply = update(&mut store, enrolment.clone());
    let generated = generate_otp_reply(enrolment, reply);
    assert_eq!(generated.status, Status::Success);
    let secret = match generated.body {
        Body::OtpGenerated { otp_base32, .. } => otp_base32,
        other => panic!("{other:?}"),
    };
    assert!(store[0].otp_enabled);
    assert!(!store[0].otp_verified);

    let at = NOW + 40;
    let code = current_code(&secret, at);
    let lookup = match otp_lookup(Some(&claims)) {
        Step::Send(lookup) => lookup,
        Step::Respond(response) => panic!("{response:?}"),
    };
    let early = token_validate_handler(
        &ValidateOTPRequest { otp_token: code.clone() },
        find(&store, &lookup.email),
        at,
    );
    assert_eq!(early.status.code(), 403);
    match early.body {
        Body::Generic(body) => assert_eq!(body.message, "otp not validated"),
        other => panic!("{other:?}"),
    }

    let message = match verify_otp_handler(
        &claims,
        &VerifyOTPRequest { otp_token: code },
        find(&store, &lookup.email),
        at,
    ) {
        Step::Send(message) => message,
        Step::Respond(response) => panic!("{response:?}"),
    };
    let reply = update(&mut store, message);
    let verified = verify_otp_reply(reply);
    assert_eq!(verified.status.code(), 200);
    match verified.body {
        Body::OtpVerified { user } => assert!(user.otp_verified),
        other => panic!("{other:?}"),
    }
    assert!(store[0].otp_verified);

    let later = at + 600;
    let validated = token_validate_handler(
        &ValidateOTPRequest { otp_token: current_code(&secret, later) },
        find(&store, &lookup.email),
        later,
    );
    assert_eq!(validated.status.code(), 200);
    match validated.body {
        Body::OtpValidated { user } => assert_eq!(user.email, "ann@example.com"),
        other => panic!("{other:?}"),
    }
}

#[test]
fn a_token_lives_for_its_lifetime_and_no_longer() {
    let mut store = Vec::new();
    register(&mut store, "ann", "pw-one");
    let token = token_of(&login(&store, "ann", "pw-one", NOW));
    let header = format!("Bearer {token}");
    for at in [NOW, NOW + 1, NOW + 86_399, NOW + 86_400] {
        assert!(matches!(
            check_auth_middleware(Some("c"), Some(&header), &config(), at),
            Gate::Proceed(_)
        ));
    }
    for at in [NOW + 86_401, NOW + 100_000] {
        match check_auth_middleware(Some("c"), Some(&header), &config(), at) {
            Gate::Reject(response) => {
                assert_eq!(response.status.code(), 401);
                assert_eq!(
                    response.body,
                    Body::Message { message: "Token has expired".to_string() }
                );
            }
            other => panic!("{other:?}"),
        }
    }
}
