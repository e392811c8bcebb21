use note_api::messages::OTPMessage;
use note_api::models::User;
use note_api::totp::OtpError;
use note_api::two_fa::{check_stored, disable, generate, validate_for_login, verify};

const NOW: u64 = 1_700_000_010;
const SECRET: &str = "AEBAGBAFAYDQQCIKBMGA2DQPCAIREEYUCU";

fn key() -> Vec<u8> {
    (1..=21).collect()
}

fn code_at(time: u64) -> String {
    totp_rs::TOTP::new(totp_rs::Algorithm::SHA1, 6, 1, 30, key()).unwrap().generate(time)
}

fn wrong_code(time: u64) -> String {
    let accepted = [code_at(time - 30), code_at(time), code_at(time + 30)];
    for candidate in ["000000", "111111", "222222", "333333"] {
        if !accepted.contains(&candidate.to_string()) {
            return candidate.to_string();
        }
    }
    unreachable!()
}

fn fresh_user() -> User {
    User {
        id: 3,
        username: "alice".to_string(),
        email: "alice@example.com".to_string(),
        password: "$2b$04$hash".to_string(),
        role: "user".to_string(),
        otp_enabled: false,
        otp_verified: false,
        otp_base32: None,
        otp_auth_url: None,
    }
}

fn enrolled_user() -> User {
    generate("alice@example.com".to_string(), "RustNoteAPI", SECRET.to_string()).apply(fresh_user())
}

#[test]
fn generate_enables_without_verifying() {
    let message = generate("alice@example.com".to_string(), "RustNoteAPI", SECRET.to_string());
    assert_eq!(
        message,
        OTPMessage {
            email: "alice@example.com".to_string(),
            otp_verified: false,
            otp_enabled: true,
            otp_base32: Some(SECRET.to_string()),
            otp_auth_url: Some(
                "otpauth://totp/RustNoteAPI:alice@example.com?secret=AEBAGBAFAYDQQCIKBMGA2DQPCAIREEYUCU&issuer=RustNoteAPI"
                    .to_string()
            ),
        }
    );
}

#[test]
fn generating_again_replaces_the_secret_and_resets_verification() {
    let user = enrolled_user();
    let verified = verify(&user, user.email.clone(), &code_at(NOW), NOW).unwrap().apply(user);
    assert!(verified.otp_verified);
    let other = "KRSXG5CTMVRXEZLUKN2XAZLSKNSWG4TFOQ";
    let again = generate(verified.email.clone(), "RustNoteAPI", other.to_string()).apply(verified);
    assert!(again.otp_enabled);
    assert!(!again.otp_verified);
    assert_eq!(again.otp_base32.as_deref(), Some(other));
}

#[test]
fn verify_with_the_current_code_marks_the_user_verified() {
    let user = enrolled_user();
    assert!(!user.otp_verified);
    let message = verify(&user, "alice@example.com".to_string(), &code_at(NOW), NOW).unwrap();
    assert_eq!(
        message,
        OTPMessage {
            email: "alice@example.com".to_string(),
            otp_verified: true,
            otp_enabled: true,
            otp_base32: user.otp_base32.clone(),
            otp_auth_url: user.otp_auth_url.clone(),
        }
    );
    let after = message.apply(user);
    assert!(after.otp_verified);
    assert!(after.otp_enabled);
    assert_eq!(after.otp_base32.as_deref(), Some(SECRET));
}

#[test]
fn verify_with_another_code_is_refused_and_changes_nothing() {
    let user = enrolled_user();
    assert_eq!(
        verify(&user, "alice@example.com".to_string(), &wrong_code(NOW), NOW),
        Err(OtpError::InvalidCode)
    );
    assert!(!user.otp_verified);
}

#[test]
fn verify_without_a_secret_cannot_check() {
    assert_eq!(
        verify(&fresh_user(), "alice@example.com".to_string(), "123456", NOW),
        Err(OtpError::SecretMissing)
    );
}

#[test]
fn verify_after_withdrawal_cannot_check() {
    let user = disable("alice@example.com".to_string()).apply(enrolled_user());
    assert_eq!(
        verify(&user, "alice@example.com".to_string(), &code_at(NOW), NOW),
        Err(OtpError::SecretTooShort)
    );
}

#[test]
fn verify_wants_the_uri_beside_the_secret() {
    let mut user = enrolled_user();
    user.otp_auth_url = None;
    assert_eq!(
        verify(&user, "alice@example.com".to_string(), &code_at(NOW), NOW),
        Err(OtpError::UriMissing)
    );
    assert_eq!(
        verify(&user, "alice@example.com".to_string(), &wrong_code(NOW), NOW),
        Err(OtpError::InvalidCode)
    );
}

#[test]
fn validate_for_login_before_verification_fails_whatever_the_code() {
    let user = enrolled_user();
    assert_eq!(validate_for_login(&user, &code_at(NOW), NOW), Err(OtpError::NotVerified));
    assert_eq!(validate_for_login(&user, &wrong_code(NOW), NOW), Err(OtpError::NotVerified));
    assert_eq!(validate_for_login(&user, "", 0), Err(OtpError::NotVerified));
    assert_eq!(validate_for_login(&fresh_user(), &code_at(NOW), NOW), Err(OtpError::NotVerified));
}

#[test]
fn validate_for_login_after_verification_goes_by_the_code() {
    let user = enrolled_user();
    let user = verify(&user, user.email.clone(), &code_at(NOW), NOW).unwrap().apply(user);
    assert_eq!(validate_for_login(&user, &code_at(NOW + 300), NOW + 300), Ok(()));
    assert_eq!(
        validate_for_login(&user, &wrong_code(NOW + 300), NOW + 300),
        Err(OtpError::InvalidCode)
    );
    assert_eq!(validate_for_login(&user, &code_at(NOW), NOW + 300), Err(OtpError::InvalidCode));
    assert_eq!(validate_for_login(&user, &code_at(NOW), 5), Err(OtpError::TimeOutOfRange));
}

#[test]
fn disable_resets_from_any_state() {
    let verified = {
        let user = enrolled_user();
        verify(&user, user.email.clone(), &code_at(NOW), NOW).unwrap().apply(user)
    };
    for user in [fresh_user(), enrolled_user(), verified] {
        let after = disable(user.email.clone()).apply(user);
        assert!(!after.otp_enabled);
        assert!(!after.otp_verified);
        assert_eq!(after.otp_base32.as_deref(), Some(""));
        assert_eq!(after.otp_auth_url.as_deref(), Some(""));
        assert_eq!(after.email, "alice@example.com");
        assert_eq!(after.id, 3);
    }
}

#[test]
fn disable_twice_is_disable_once() {
    let once = disable("alice@example.com".to_string()).apply(enrolled_user());
    let twice = disable("alice@example.com".to_string()).apply(once.clone());
    assert_eq!(once, twice);
}

#[test]
fn disable_writes_empty_texts() {
    assert_eq!(
        disable("alice@example.com".to_string()),
        OTPMessage {
            email: "alice@example.com".to_string(),
            otp_verified: false,
            otp_enabled: false,
            otp_base32: Some(String::new()),
            otp_auth_url: Some(String::new()),
        }
    );
}

#[test]
fn a_message_for_another_email_leaves_the_user_alone() {
    let user = enrolled_user();
    assert_eq!(disable("bob@example.com".to_string()).apply(user.clone()), user);
}

#[test]
fn check_stored_reads_the_secret_of_the_user() {
    assert_eq!(check_stored(&enrolled_user(), &code_at(NOW), NOW), Ok(true));
    assert_eq!(check_stored(&enrolled_user(), &wrong_code(NOW), NOW), Ok(false));
    assert_eq!(check_stored(&fresh_user(), &code_at(NOW), NOW), Err(OtpError::SecretMissing));
    let mut user = enrolled_user();
    user.otp_base32 = Some("not base32".to_string());
    assert_eq!(check_stored(&user, &code_at(NOW), NOW), Err(OtpError::SecretUnreadable));
}

#[test]
fn verified_message_goes_by_the_verdict_it_is_given() {
    let user = enrolled_user();
    let message =
        note_api::two_fa::verified_message(&user, "alice@example.com".to_string(), Ok(true))
            .unwrap();
    assert!(message.otp_verified && message.otp_enabled);
    assert_eq!(message.otp_base32, user.otp_base32);
    assert_eq!(message.otp_auth_url, user.otp_auth_url);
    assert_eq!(
        note_api::two_fa::verified_message(&user, "alice@example.com".to_string(), Ok(false)),
        Err(OtpError::InvalidCode)
    );
    assert_eq!(
        note_api::two_fa::verified_message(
            &user,
            "alice@example.com".to_string(),
            Err(OtpError::TimeOutOfRange)
        ),
        Err(OtpError::TimeOutOfRange)
    );
}

#[test]
fn validated_goes_by_the_verdict_it_is_given() {
    assert_eq!(note_api::two_fa::validated(Ok(true)), Ok(()));
    assert_eq!(note_api::two_fa::validated(Ok(false)), Err(OtpError::InvalidCode));
    assert_eq!(
        note_api::two_fa::validated(Err(OtpError::SecretMissing)),
        Err(OtpError::SecretMissing)
    );
}
