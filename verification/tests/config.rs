use note_api::clock::current_time;
use note_api::config::{parse_port, AuthConfig, COOKIE_TTL, HASH_COST, TOKEN_TTL};
use note_api::notes::ActiveStatus;
use note_api::response::Status;

#[test]
fn the_defaults_are_a_day_and_cost_twelve() {
    assert_eq!(TOKEN_TTL, 86_400);
    assert_eq!(COOKIE_TTL, 86_400);
    assert_eq!(HASH_COST, 12);
    assert_eq!(HASH_COST, bcrypt::DEFAULT_COST);
}

#[test]
fn auth_config_new_takes_the_defaults() {
    assert_eq!(
        AuthConfig::new("s3cret".to_string()),
        AuthConfig {
            secret: "s3cret".to_string(),
            token_ttl: 86_400,
            cookie_ttl: 86_400,
            hash_cost: 12,
            issuer: "RustNoteAPI".to_string(),
        }
    );
}

#[test]
fn parse_port_reads_decimal_ports() {
    assert_eq!(parse_port("8080"), Some(8080));
    assert_eq!(parse_port("0"), Some(0));
    assert_eq!(parse_port("65535"), Some(65535));
    assert_eq!(parse_port("+443"), Some(443));
    assert_eq!(parse_port("00080"), Some(80));
    assert_eq!(parse_port("000000000000000000000000000001"), Some(1));
}

#[test]
fn parse_port_refuses_what_is_no_port() {
    for text in ["", "+", "-1", "65536", "99999", "80 ", " 80", "8o", "0x50", "++1", "1+", "８０", "4294967296", "18446744073709551616"] {
        assert_eq!(parse_port(text), None, "{text:?}");
    }
}

#[test]
fn parse_port_agrees_with_the_standard_parser() {
    for text in ["1", "12", "123", "1234", "12345", "65535", "65536", "70000", "+0", "+65535", "+65536", "-0", "a", "1a", "0000", "655350", "6553 5"] {
        assert_eq!(parse_port(text), text.parse::<u16>().ok(), "{text:?}");
    }
}

#[test]
fn the_clock_reads_a_time_of_this_century() {
    let now = current_time();
    assert!(now > 1_700_000_000);
    assert!(now < 4_102_444_800);
    let later = current_time();
    assert!(later >= now);
    assert!(later - now < 60);
}

#[test]
fn active_status_as_bool() {
    assert!(ActiveStatus::Active.as_bool());
    assert!(!ActiveStatus::Inactive.as_bool());
}

#[test]
fn statuses_have_their_codes() {
    assert_eq!(Status::Success.code(), 200);
    assert_eq!(Status::BadRequest.code(), 400);
    assert_eq!(Status::Unauthorized.code(), 401);
    assert_eq!(Status::Forbidden.code(), 403);
    assert_eq!(Status::NotFound.code(), 404);
    assert_eq!(Status::InternalServerError.code(), 500);
}
