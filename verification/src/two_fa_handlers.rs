//! The endpoints of two-factor authentication: enrolment, the first
//! verification, the check at login and withdrawal.

use crate::auth_handlers::unauthorized;
use crate::config::AuthConfig;
use crate::jwt::Claims;
use crate::messages::{
    user_reply_view, LoginAndGetUser, OTPMessage, OTPMessageView, Reply, Step, ValidateOTPRequest,
    VerifyOTPRequest,
};
use crate::models::{User, UserView};
use crate::response::{
    failure_response, message_response, plain_response, Body, BodyView, Response, ResponseView,
    Status,
};
use crate::actors::applied;
use crate::totp::{
    base32_bytes, base32_text, generate_secret, secret_for, secret_from, secret_of, time_in_range,
    totp_code, OtpError, MIN_SECRET_BYTES, OTP_DIGITS, OTP_STEP, SECRET_BYTES,
};
use crate::two_fa::{
    disable, disabled, generate, generated, message_view, validate_for_login, validate_outcome,
    verify, verify_outcome,
};
use vstd::prelude::*;

verus! {

/// The mathematical value of a step that sends an [`OTPMessage`].
pub enum OtpStepView {
    Send(OTPMessageView),
    Respond(ResponseView),
}

/// The mathematical value of a step that sends an [`OTPMessage`].
pub open spec fn otp_step_view(step: Step<OTPMessage>) -> OtpStepView {
    match step {
        Step::Send(message) => OtpStepView::Send(message@),
        Step::Respond(response) => OtpStepView::Respond(response@),
    }
}

/// The email of the claims, where there are claims.
pub open spec fn claimed_email(claims: Option<&Claims>) -> Option<Seq<char>> {
    match claims {
        Some(claims) => Some(claims.email@),
        None => None,
    }
}

/// The answer to a check that could not be made: the stored secret is
/// missing or unusable, or the time is out of range.
pub open spec fn check_unavailable() -> ResponseView {
    failure_response(Status::InternalServerError, "internal server error"@)
}

/// What enrolment does once a secret has been made, or has not: it asks the
/// store to keep the secret and its URI for the user of the claims, enabled
/// and not yet verified.
pub open spec fn enrolment(
    email: Option<Seq<char>>,
    issuer: Seq<char>,
    secret: Result<Seq<char>, OtpError>,
) -> OtpStepView {
    match email {
        None => OtpStepView::Respond(unauthorized()),
        Some(email) => match secret {
            Ok(secret) => OtpStepView::Send(generated(email, issuer, secret)),
            Err(_) => OtpStepView::Respond(
                message_response(Status::InternalServerError, "failed to generate otp"@),
            ),
        },
    }
}

/// Enrolment with a secret made of `bytes`. Sixteen bytes or more give a
/// secret, and the secret that is sent is one that a check reads the bytes
/// back from.
pub fn generate_otp_from(claims: Option<&Claims>, issuer: &str, bytes: Vec<u8>) -> (step: Step<
    OTPMessage,
>)
    ensures
        otp_step_view(step) == enrolment(claimed_email(claims), issuer@, secret_from(bytes@)),
        step is Send ==> secret_for(base32_text(bytes@), bytes@),
{
    let claims = match claims {
        Some(claims) => claims,
        None => {
            return Step::Respond(Response::message(Status::Unauthorized, "unauthorized access"));
        },
    };
    match secret_of(bytes) {
        Ok(secret) => Step::Send(generate(claims.email.clone(), issuer, secret)),
        Err(_) => Step::Respond(
            Response::message(Status::InternalServerError, "failed to generate otp"),
        ),
    }
}

/// The step enrols the user with this email under the secret drawn as
/// `bytes`: twenty-one of them, whose text is sent with its URI, and from
/// which a check reads them back.
pub open spec fn enrols_with(
    step: OtpStepView,
    email: Seq<char>,
    issuer: Seq<char>,
    bytes: Seq<u8>,
) -> bool {
    &&& bytes.len() == SECRET_BYTES
    &&& step == OtpStepView::Send(generated(email, issuer, base32_text(bytes)))
    &&& secret_for(base32_text(bytes), bytes)
}

/// Enrolment: a secret is made of twenty-one random bytes, and the store is
/// asked to keep it and its URI for the user of the claims, enabled and not
/// yet verified. Without claims the request is turned away, and no secret is
/// drawn.
pub fn generate_otp_handler(claims: Option<&Claims>, config: &AuthConfig) -> (step: Step<OTPMessage>)
    ensures
        claims is None ==> otp_step_view(step) == OtpStepView::Respond(unauthorized()),
        claims matches Some(claims) ==> exists|bytes: Seq<u8>| #[trigger]
            enrols_with(otp_step_view(step), claims.email@, config.issuer@, bytes),
{
    let claims = match claims {
        Some(claims) => claims,
        None => {
            return Step::Respond(Response::message(Status::Unauthorized, "unauthorized access"));
        },
    };
    match generate_secret() {
        Ok(secret) => {
            let ghost drawn_bytes = choose|bytes: Seq<u8>|
                crate::totp::drawn(Ok::<Seq<char>, OtpError>(secret@), bytes);
            let step = Step::Send(generate(claims.email.clone(), config.issuer.as_str(), secret));
            assert(enrols_with(otp_step_view(step), claims.email@, config.issuer@, drawn_bytes));
            step
        },
        Err(_) => Step::Respond(
            Response::message(Status::InternalServerError, "failed to generate otp"),
        ),
    }
}

/// The answer to an enrolment once the store has replied: the URI and the
/// secret that were sent, for the user to scan or to type.
pub open spec fn enrolled(sent: OTPMessageView, reply: Reply<UserView>) -> ResponseView {
    match (reply, sent.otp_auth_url, sent.otp_base32) {
        (Reply::Done(_), Some(otp_auth_url), Some(otp_base32)) => plain_response(
            Status::Success,
            BodyView::OtpGenerated { otp_auth_url, otp_base32 },
        ),
        _ => message_response(Status::InternalServerError, "failed to generate otp"@),
    }
}

/// The answer to an enrolment once the store has replied.
pub fn generate_otp_reply(sent: OTPMessage, reply: Reply<User>) -> (response: Response)
    ensures
        response@ == enrolled(sent@, user_reply_view(reply)),
{
    match (reply, sent.otp_auth_url, sent.otp_base32) {
        (Reply::Done(_), Some(otp_auth_url), Some(otp_base32)) => Response::plain(
            Status::Success,
            Body::OtpGenerated { otp_auth_url, otp_base32 },
        ),
        _ => Response::message(Status::InternalServerError, "failed to generate otp"),
    }
}

/// What a check of a code asks of the store first: the user whose claims came
/// with the request. Without claims the request is turned away.
pub fn otp_lookup(claims: Option<&Claims>) -> (step: Step<LoginAndGetUser>)
    ensures
        match step {
            Step::Send(message) => claims matches Some(claims) && message.email@ == claims.email@
                && message.password@ == Seq::<char>::empty(),
            Step::Respond(response) => claims is None && response@ == failure_response(
                Status::Unauthorized,
                "unauthorized access"@,
            ),
        },
{
    match claims {
        Some(claims) => Step::Send(
            LoginAndGetUser { email: claims.email.clone(), password: String::new() },
        ),
        None => Step::Respond(Response::failure(Status::Unauthorized, "unauthorized access")),
    }
}

/// What the first verification does for a user that the store found: for an
/// accepted code it asks the store to mark the user verified, and for a
/// refused one it answers `Forbidden` and asks nothing.
pub open spec fn verification(outcome: Result<OTPMessageView, OtpError>) -> OtpStepView {
    match outcome {
        Ok(message) => OtpStepView::Send(message),
        Err(OtpError::InvalidCode) => OtpStepView::Respond(
            failure_response(Status::Forbidden, "invalid token"@),
        ),
        Err(_) => OtpStepView::Respond(check_unavailable()),
    }
}

/// What the first verification does for a user that the store found, once
/// the code has been checked.
pub fn verification_step(outcome: Result<OTPMessage, OtpError>) -> (step: Step<OTPMessage>)
    ensures
        otp_step_view(step) == verification(message_view(outcome)),
{
    match outcome {
        Ok(message) => Step::Send(message),
        Err(OtpError::InvalidCode) => Step::Respond(
            Response::failure(Status::Forbidden, "invalid token"),
        ),
        Err(_) => Step::Respond(
            Response::failure(Status::InternalServerError, "internal server error"),
        ),
    }
}

/// What the first verification does once the store has replied.
pub open spec fn verifying(
    email: Seq<char>,
    code: Seq<char>,
    reply: Reply<UserView>,
    now: u64,
) -> OtpStepView {
    match reply {
        Reply::Done(user) => verification(verify_outcome(user, email, code, now)),
        Reply::Failed => OtpStepView::Respond(
            failure_response(Status::InternalServerError, "failed to retrieve user"@),
        ),
        Reply::Unreachable => OtpStepView::Respond(check_unavailable()),
    }
}

/// The first verification, once the store has replied with the user of the
/// claims.
pub fn verify_otp_handler(claims: &Claims, body: &VerifyOTPRequest, reply: Reply<User>, now: u64) -> (step:
    Step<OTPMessage>)
    ensures
        otp_step_view(step) == verifying(
            claims.email@,
            body.otp_token@,
            user_reply_view(reply),
            now,
        ),
{
    match reply {
        Reply::Done(user) => verification_step(
            verify(&user, claims.email.clone(), body.otp_token.as_str(), now),
        ),
        Reply::Failed => Step::Respond(
            Response::failure(Status::InternalServerError, "failed to retrieve user"),
        ),
        Reply::Unreachable => Step::Respond(
            Response::failure(Status::InternalServerError, "internal server error"),
        ),
    }
}

/// The answer to the first verification once the store has kept it.
pub open spec fn verified(reply: Reply<UserView>) -> ResponseView {
    match reply {
        Reply::Done(user) => plain_response(Status::Success, BodyView::OtpVerified { user }),
        _ => failure_response(Status::InternalServerError, "failed to update otp status"@),
    }
}

/// The answer to the first verification once the store has kept it.
pub fn verify_otp_reply(reply: Reply<User>) -> (response: Response)
    ensures
        response@ == verified(user_reply_view(reply)),
{
    match reply {
        Reply::Done(user) => Response::plain(Status::Success, Body::OtpVerified { user }),
        _ => Response::failure(Status::InternalServerError, "failed to update otp status"),
    }
}

/// The answer to a check at login for a user that the store found.
pub open spec fn validation(user: UserView, outcome: Result<(), OtpError>) -> ResponseView {
    match outcome {
        Ok(_) => plain_response(Status::Success, BodyView::OtpValidated { user }),
        Err(OtpError::NotVerified) => failure_response(Status::Forbidden, "otp not validated"@),
        Err(OtpError::InvalidCode) => failure_response(Status::Forbidden, "invalid otp token"@),
        Err(_) => check_unavailable(),
    }
}

/// The answer to a check at login for a user that the store found, once the
/// code has been checked.
pub fn validation_response(user: User, outcome: Result<(), OtpError>) -> (response: Response)
    ensures
        response@ == validation(user@, outcome),
{
    match outcome {
        Ok(_) => Response::plain(Status::Success, Body::OtpValidated { user }),
        Err(OtpError::NotVerified) => Response::failure(Status::Forbidden, "otp not validated"),
        Err(OtpError::InvalidCode) => Response::failure(Status::Forbidden, "invalid otp token"),
        Err(_) => Response::failure(Status::InternalServerError, "internal server error"),
    }
}

/// The answer to a check at login once the store has replied.
pub open spec fn validating(code: Seq<char>, reply: Reply<UserView>, now: u64) -> ResponseView {
    match reply {
        Reply::Done(user) => validation(user, validate_outcome(user, code, now)),
        Reply::Failed => failure_response(
            Status::InternalServerError,
            "failed to retrieve user"@,
        ),
        Reply::Unreachable => check_unavailable(),
    }
}

/// The check of a code at login, once the store has replied with the user of
/// the claims.
pub fn token_validate_handler(body: &ValidateOTPRequest, reply: Reply<User>, now: u64) -> (response:
    Response)
    ensures
        response@ == validating(body.otp_token@, user_reply_view(reply), now),
{
    match reply {
        Reply::Done(user) => {
            let outcome = validate_for_login(&user, body.otp_token.as_str(), now);
            validation_response(user, outcome)
        },
        Reply::Failed => Response::failure(
            Status::InternalServerError,
            "failed to retrieve user",
        ),
        Reply::Unreachable => Response::failure(
            Status::InternalServerError,
            "internal server error",
        ),
    }
}

/// Withdrawal: the store is asked to reset the one-time-password fields of
/// the user of the claims. Without claims the request is turned away.
pub fn disable_otp_handler(claims: Option<&Claims>) -> (step: Step<OTPMessage>)
    ensures
        otp_step_view(step) == (match claims {
            Some(claims) => OtpStepView::Send(disabled(claims.email@)),
            None => OtpStepView::Respond(unauthorized()),
        }),
{
    match claims {
        Some(claims) => Step::Send(disable(claims.email.clone())),
        None => Step::Respond(Response::message(Status::Unauthorized, "unauthorized access")),
    }
}

/// The answer to a withdrawal once the store has replied.
pub open spec fn withdrawn(reply: Reply<UserView>) -> ResponseView {
    match reply {
        Reply::Done(data) => plain_response(Status::Success, BodyView::OtpDisabled { data }),
        _ => message_response(Status::InternalServerError, "failed to disable otp"@),
    }
}

/// The answer to a withdrawal once the store has replied.
pub fn disable_otp_reply(reply: Reply<User>) -> (response: Response)
    ensures
        response@ == withdrawn(user_reply_view(reply)),
{
    match reply {
        Reply::Done(data) => Response::plain(Status::Success, Body::OtpDisabled { data }),
        _ => Response::message(Status::InternalServerError, "failed to disable otp"),
    }
}

/// A refused code is answered `Forbidden`, at the first verification and at
/// login, and so is a check at login before the first verification.
pub proof fn lemma_refusals_are_forbidden(user: UserView)
    ensures
        verification(Err(OtpError::InvalidCode)) == OtpStepView::Respond(
            failure_response(Status::Forbidden, "invalid token"@),
        ),
        validation(user, Err(OtpError::InvalidCode)).status == Status::Forbidden,
        validation(user, Err(OtpError::NotVerified)).status == Status::Forbidden,
{
}

/// The stored secret of the user is not empty and stands for `raw`, sixteen
/// bytes or more, and the time is one at which a code can be checked.
pub open spec fn checkable_secret(user: UserView, raw: Seq<u8>, now: u64) -> bool {
    &&& match user.otp_base32 {
        Some(secret) => secret.len() > 0 && base32_bytes(secret) == Some(raw),
        None => false,
    }
    &&& raw.len() >= MIN_SECRET_BYTES
    &&& time_in_range(now)
}

/// The first verification with the code of the current step: for a user whose
/// stored secret can be checked and who holds a URI, the store is asked to
/// mark the user verified and to keep the secret and the URI; the store then
/// holds the user as verified and enabled, with nothing else changed; and its
/// reply is answered with a success.
pub proof fn lemma_current_code_is_verified(
    user: UserView,
    raw: Seq<u8>,
    now: u64,
    updated: UserView,
)
    requires
        checkable_secret(user, raw, now),
        user.otp_auth_url is Some,
    ensures
        ({
            let code = totp_code(raw, OTP_DIGITS, (now / OTP_STEP) as int);
            let message = OTPMessageView {
                email: user.email,
                otp_verified: true,
                otp_enabled: true,
                otp_base32: user.otp_base32,
                otp_auth_url: user.otp_auth_url,
            };
            &&& verifying(user.email, code, Reply::Done(user), now) == OtpStepView::Send(message)
            &&& applied(user, message) == (UserView {
                otp_verified: true,
                otp_enabled: true,
                ..user
            })
            &&& verified(Reply::Done(updated)) == plain_response(
                Status::Success,
                BodyView::OtpVerified { user: updated },
            )
        }),
{
    crate::totp::lemma_current_code_accepted(raw, now, 0);
}

/// The first verification with a code that is not the code of the current
/// step, of the one before or of the one after: for a user whose stored
/// secret can be checked, the request is answered `Forbidden` and the store
/// is asked nothing, so that the user stays as it is.
pub proof fn lemma_other_code_is_refused(
    user: UserView,
    raw: Seq<u8>,
    code: Seq<char>,
    now: u64,
)
    requires
        checkable_secret(user, raw, now),
        forall|counter: int|
            now / OTP_STEP - 1 <= counter <= now / OTP_STEP + 1 ==> #[trigger] totp_code(
                raw,
                OTP_DIGITS,
                counter,
            ) != code,
    ensures
        verifying(user.email, code, Reply::Done(user), now) == OtpStepView::Respond(
            failure_response(Status::Forbidden, "invalid token"@),
        ),
{
}

/// The check at login with the code of the current step, for a verified user
/// whose stored secret can be checked: the answer is a success that carries
/// the user. For a user who is not verified it is `Forbidden`, whatever the
/// code.
pub proof fn lemma_current_code_is_validated(user: UserView, raw: Seq<u8>, code: Seq<char>, now: u64)
    requires
        checkable_secret(user, raw, now),
    ensures
        user.otp_verified ==> validating(
            totp_code(raw, OTP_DIGITS, (now / OTP_STEP) as int),
            Reply::Done(user),
            now,
        ) == plain_response(Status::Success, BodyView::OtpValidated { user }),
        !user.otp_verified ==> validating(code, Reply::Done(user), now) == failure_response(
            Status::Forbidden,
            "otp not validated"@,
        ),
{
    crate::totp::lemma_current_code_accepted(raw, now, 0);
}

} // verus!
