//! The one-time-password state of a user: disabled, generated and not yet
//! verified, verified, and disabled again.
//!
//! Each operation gives the message that makes the store take the step;
//! [`applied`] says what the store holds afterwards.

use crate::actors::applied;
use crate::messages::{OTPMessage, OTPMessageView};
use crate::models::{otp_consistent, User, UserView};
use crate::totp::{code_check, code_matches, uri_text, provisioning_uri, OtpError};
use vstd::prelude::*;

verus! {

/// The message that enrols the user with this email under a new secret:
/// enabled, not yet verified, with the secret and its provisioning URI.
pub open spec fn generated(email: Seq<char>, issuer: Seq<char>, secret: Seq<char>) -> OTPMessageView {
    OTPMessageView {
        email,
        otp_verified: false,
        otp_enabled: true,
        otp_base32: Some(secret),
        otp_auth_url: Some(uri_text(issuer, email, secret)),
    }
}

/// The message that withdraws one-time passwords from the user with this
/// email: neither enabled nor verified, with an empty secret and URI.
pub open spec fn disabled(email: Seq<char>) -> OTPMessageView {
    OTPMessageView {
        email,
        otp_verified: false,
        otp_enabled: false,
        otp_base32: Some(Seq::<char>::empty()),
        otp_auth_url: Some(Seq::<char>::empty()),
    }
}

/// What a check of `code` against the secret stored for `user` gives.
pub open spec fn stored_check(user: UserView, code: Seq<char>, now: u64) -> Result<bool, OtpError> {
    match user.otp_base32 {
        None => Err(OtpError::SecretMissing),
        Some(secret) => code_check(secret, code, now),
    }
}

/// What the first verification gives: for an accepted code the message that
/// marks the user with this email verified and keeps the secret and the URI;
/// for a refused code `InvalidCode`, and no message.
pub open spec fn verify_outcome(user: UserView, email: Seq<char>, code: Seq<char>, now: u64) -> Result<
    OTPMessageView,
    OtpError,
> {
    verify_verdict(user, email, stored_check(user, code, now))
}

/// What the first verification gives once the code has been checked.
pub open spec fn verify_verdict(user: UserView, email: Seq<char>, verdict: Result<bool, OtpError>) -> Result<
    OTPMessageView,
    OtpError,
> {
    match verdict {
        Err(error) => Err(error),
        Ok(false) => Err(OtpError::InvalidCode),
        Ok(true) => match user.otp_auth_url {
            None => Err(OtpError::UriMissing),
            Some(uri) => Ok(
                OTPMessageView {
                    email,
                    otp_verified: true,
                    otp_enabled: true,
                    otp_base32: user.otp_base32,
                    otp_auth_url: Some(uri),
                },
            ),
        },
    }
}

/// What a check at login gives: `NotVerified` for a user who has not yet
/// verified, whatever the code; else the verdict on the code.
pub open spec fn validate_outcome(user: UserView, code: Seq<char>, now: u64) -> Result<(), OtpError> {
    if !user.otp_verified {
        Err(OtpError::NotVerified)
    } else {
        validate_verdict(stored_check(user, code, now))
    }
}

/// What a check at login gives for a verified user once the code has been
/// checked.
pub open spec fn validate_verdict(verdict: Result<bool, OtpError>) -> Result<(), OtpError> {
    match verdict {
        Err(error) => Err(error),
        Ok(false) => Err(OtpError::InvalidCode),
        Ok(true) => Ok(()),
    }
}

/// The mathematical value of a message that was made or refused.
pub open spec fn message_view(outcome: Result<OTPMessage, OtpError>) -> Result<OTPMessageView, OtpError> {
    match outcome {
        Ok(message) => Ok(message@),
        Err(error) => Err(error),
    }
}

/// The message that enrols the user with this email under `secret`.
pub fn generate(email: String, issuer: &str, secret: String) -> (message: OTPMessage)
    ensures
        message@ == generated(email@, issuer@, secret@),
{
    let uri = provisioning_uri(issuer, email.as_str(), secret.as_str());
    OTPMessage {
        email,
        otp_verified: false,
        otp_enabled: true,
        otp_base32: Some(secret),
        otp_auth_url: Some(uri),
    }
}

/// Checks `code` against the secret stored for `user`.
pub fn check_stored(user: &User, code: &str, now: u64) -> (verdict: Result<bool, OtpError>)
    ensures
        verdict == stored_check(user@, code@, now),
{
    match &user.otp_base32 {
        None => Err(OtpError::SecretMissing),
        Some(secret) => code_matches(secret.as_str(), code, now),
    }
}

/// What the first verification gives once the code has been checked.
pub fn verified_message(user: &User, email: String, verdict: Result<bool, OtpError>) -> (outcome: Result<
    OTPMessage,
    OtpError,
>)
    ensures
        message_view(outcome) == verify_verdict(user@, email@, verdict),
{
    match verdict {
        Err(error) => Err(error),
        Ok(false) => Err(OtpError::InvalidCode),
        Ok(true) => match &user.otp_auth_url {
            None => Err(OtpError::UriMissing),
            Some(uri) => Ok(
                OTPMessage {
                    email,
                    otp_verified: true,
                    otp_enabled: true,
                    otp_base32: match &user.otp_base32 {
                        Some(secret) => Some(secret.clone()),
                        None => None,
                    },
                    otp_auth_url: Some(uri.clone()),
                },
            ),
        },
    }
}

/// The first verification of `user`, who holds the account with this email.
pub fn verify(user: &User, email: String, code: &str, now: u64) -> (outcome: Result<
    OTPMessage,
    OtpError,
>)
    ensures
        message_view(outcome) == verify_outcome(user@, email@, code@, now),
{
    let verdict = check_stored(user, code, now);
    verified_message(user, email, verdict)
}

/// What a check at login gives for a verified user once the code has been
/// checked.
pub fn validated(verdict: Result<bool, OtpError>) -> (outcome: Result<(), OtpError>)
    ensures
        outcome == validate_verdict(verdict),
{
    match verdict {
        Err(error) => Err(error),
        Ok(false) => Err(OtpError::InvalidCode),
        Ok(true) => Ok(()),
    }
}

/// The check of a code as a second factor at login.
pub fn validate_for_login(user: &User, code: &str, now: u64) -> (outcome: Result<(), OtpError>)
    ensures
        outcome == validate_outcome(user@, code@, now),
{
    if !user.otp_verified {
        return Err(OtpError::NotVerified);
    }
    validated(check_stored(user, code, now))
}

/// The message that withdraws one-time passwords from the user with this
/// email.
pub fn disable(email: String) -> (message: OTPMessage)
    ensures
        message@ == disabled(email@),
{
    OTPMessage {
        email,
        otp_verified: false,
        otp_enabled: false,
        otp_base32: Some(String::new()),
        otp_auth_url: Some(String::new()),
    }
}

/// Generating, then verifying: after enrolment the user is enabled and not
/// verified. A verification with a code that the stored secret accepts then
/// gives a message after which the user is verified, still enabled, and holds
/// the same secret. A verification with a code that it refuses gives
/// `InvalidCode` and no message, so the user stays unverified.
pub proof fn lemma_generate_then_verify(
    user: UserView,
    issuer: Seq<char>,
    secret: Seq<char>,
    code: Seq<char>,
    now: u64,
)
    ensures
        ({
            let enrolled = applied(user, generated(user.email, issuer, secret));
            let outcome = verify_outcome(enrolled, user.email, code, now);
            &&& enrolled.otp_enabled && !enrolled.otp_verified
            &&& enrolled.otp_base32 == Some(secret)
            &&& code_check(secret, code, now) == Ok::<bool, OtpError>(true) ==> outcome is Ok && ({
                let verified = applied(enrolled, outcome.unwrap());
                verified.otp_verified && verified.otp_enabled && verified.otp_base32 == Some(secret)
            })
            &&& code_check(secret, code, now) == Ok::<bool, OtpError>(false) ==> outcome == Err::<
                OTPMessageView,
                OtpError,
            >(OtpError::InvalidCode)
        }),
{
}

/// Before any verification a check at login fails with `NotVerified`,
/// whatever the code and the time: so it does for every unverified user, and
/// a user is unverified right after enrolment and right after withdrawal.
pub proof fn lemma_validate_needs_verification(
    user: UserView,
    issuer: Seq<char>,
    secret: Seq<char>,
    code: Seq<char>,
    now: u64,
)
    ensures
        !user.otp_verified ==> validate_outcome(user, code, now) == Err::<(), OtpError>(
            OtpError::NotVerified,
        ),
        validate_outcome(applied(user, generated(user.email, issuer, secret)), code, now) == Err::<
            (),
            OtpError,
        >(OtpError::NotVerified),
        validate_outcome(applied(user, disabled(user.email)), code, now) == Err::<(), OtpError>(
            OtpError::NotVerified,
        ),
{
}

/// Withdrawal resets the user from any state: afterwards one-time passwords
/// are neither enabled nor verified and the secret and the URI are empty.
/// Withdrawing twice ends in the same state as withdrawing once.
pub proof fn lemma_disable_resets(user: UserView)
    ensures
        ({
            let once = applied(user, disabled(user.email));
            &&& !once.otp_enabled && !once.otp_verified
            &&& once.otp_base32 == Some(Seq::<char>::empty())
            &&& once.otp_auth_url == Some(Seq::<char>::empty())
            &&& applied(once, disabled(user.email)) == once
        }),
{
}

/// Every step keeps the rule that a verified user is enabled and holds a
/// secret: enrolment, withdrawal, and the message of a verification that went
/// through.
pub proof fn lemma_steps_keep_consistency(
    user: UserView,
    email: Seq<char>,
    issuer: Seq<char>,
    secret: Seq<char>,
    code: Seq<char>,
    now: u64,
)
    requires
        otp_consistent(user),
    ensures
        otp_consistent(applied(user, generated(email, issuer, secret))),
        otp_consistent(applied(user, disabled(email))),
        verify_outcome(user, email, code, now) matches Ok(message) ==> otp_consistent(
            applied(user, message),
        ),
{
}

} // verus!
