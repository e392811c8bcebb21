//! Time-based one-time passwords: the shared secret, the provisioning URI
//! that carries it to an authenticator app, and the check of a code.
//!
//! The codes are `totp_rs`'s (HMAC-SHA1, six digits, steps of thirty seconds,
//! one step of tolerance to either side); the secret's text is `base32`'s.

use rand::Rng;
use vstd::prelude::*;

verus! {

/// `totp_rs::SecretParseError`: a secret that is not base32; carried and
/// never read.
#[verifier::external_type_specification]
#[verifier::external_body]
pub struct ExSecretParseError(totp_rs::SecretParseError);

/// `totp_rs::TotpUrlError`: parameters that the generator refuses; carried
/// and never read.
#[verifier::external_type_specification]
#[verifier::external_body]
pub struct ExTotpUrlError(totp_rs::TotpUrlError);

/// The number of digits of a code.
pub const OTP_DIGITS: usize = 6;

/// The number of steps before and after the current one whose codes are
/// accepted too.
pub const OTP_SKEW: u8 = 1;

/// The length of a step, in seconds.
pub const OTP_STEP: u64 = 30;

/// The number of random bytes in a new secret.
pub const SECRET_BYTES: usize = 21;

/// The least number of bytes that a secret must decode to.
pub const MIN_SECRET_BYTES: usize = 16;

/// The text of `bytes` in base32 (RFC 4648, upper case, no padding), as
/// `base32::encode` writes it.
pub uninterp spec fn base32_text(bytes: Seq<u8>) -> Seq<char>;

/// The bytes that `text` stands for in base32 (RFC 4648, no padding), as
/// `base32::decode` reads it; none where `text` is no such encoding.
pub uninterp spec fn base32_bytes(text: Seq<char>) -> Option<Seq<u8>>;

/// The code that `totp_rs::TOTP::generate` gives under HMAC-SHA1 for a secret
/// and a number of digits at any time within the step numbered `counter`.
pub uninterp spec fn totp_code(secret: Seq<u8>, digits: usize, counter: int) -> Seq<char>;

/// The secret and the digits that `totp_rs::TOTP::new` takes.
pub open spec fn totp_parameters_ok(secret: Seq<u8>, digits: usize) -> bool {
    6 <= digits <= 8 && secret.len() >= MIN_SECRET_BYTES
}

/// The times at which a check neither reaches before the first step nor past
/// the last second that a `u64` holds.
pub open spec fn checkable(skew: u8, step: u64, time: u64) -> bool {
    step > 0 && time / step >= skew && (time / step + skew) * step <= u64::MAX
}

/// A code is accepted at `time` where it is the code of the current step or
/// of one of the `skew` steps before or after it.
pub open spec fn code_accepted(
    secret: Seq<u8>,
    digits: usize,
    skew: u8,
    step: u64,
    code: Seq<char>,
    time: u64,
) -> bool {
    exists|counter: int|
        time / step - skew <= counter <= time / step + skew && #[trigger] totp_code(
            secret,
            digits,
            counter,
        ) == code
}

/// `rand::thread_rng` and `Rng::gen`: twenty-one bytes from the thread's
/// generator. Nothing is claimed of them but their number.
#[verifier::external_body]
fn random_secret_bytes() -> (bytes: Vec<u8>)
    ensures
        bytes@.len() == SECRET_BYTES,
{
    rand::thread_rng().gen::<[u8; 21]>().to_vec()
}

/// The number of characters that `length` bytes take in base32 without
/// padding: one for every five bits, the last one filled up.
pub open spec fn base32_length(length: nat) -> nat {
    (length * 8 + 4) / 5
}

/// `base32::encode` with the RFC 4648 alphabet and no padding: the text, one
/// character for every five bits of the bytes. The text stands for the bytes
/// it was made of: `base32::decode` with the same alphabet reads them back.
#[verifier::external_body]
fn base32_encode(bytes: &Vec<u8>) -> (text: String)
    ensures
        text@ == base32_text(bytes@),
        text@.len() == base32_length(bytes@.len()),
        base32_bytes(text@) == Some(bytes@),
{
    base32::encode(base32::Alphabet::Rfc4648 { padding: false }, bytes)
}

/// `totp_rs::Secret::to_bytes` of an encoded secret, which is
/// `base32::decode` with the RFC 4648 alphabet and no padding.
#[verifier::external_body]
fn secret_bytes(encoded: &str) -> (bytes: Result<Vec<u8>, totp_rs::SecretParseError>)
    ensures
        match bytes {
            Ok(raw) => base32_bytes(encoded@) == Some(raw@),
            Err(_) => base32_bytes(encoded@) is None,
        },
{
    totp_rs::Secret::Encoded(encoded.to_owned()).to_bytes()
}

/// `totp_rs::TOTP::new` under HMAC-SHA1 and `TOTP::get_secret_base32`: the
/// secret in base32, where the generator takes the secret and the digits.
#[verifier::external_body]
fn totp_secret_text(secret: Vec<u8>, digits: usize, skew: u8, step: u64) -> (text: Result<
    String,
    totp_rs::TotpUrlError,
>)
    ensures
        match text {
            Ok(text) => totp_parameters_ok(secret@, digits) && text@ == base32_text(secret@),
            Err(_) => !totp_parameters_ok(secret@, digits),
        },
{
    let totp = totp_rs::TOTP::new(totp_rs::Algorithm::SHA1, digits, skew, step, secret)?;
    Ok(totp.get_secret_base32())
}

/// `totp_rs::TOTP::new` under HMAC-SHA1 and `TOTP::check`: whether the code
/// is that of a step within the tolerance around `time`, where the generator
/// takes the secret and the digits. `check` computes `time / step - skew` and
/// the start of each step it tries, so the time must leave room for both.
#[verifier::external_body]
fn totp_check(secret: Vec<u8>, digits: usize, skew: u8, step: u64, code: &str, time: u64) -> (verdict:
    Result<bool, totp_rs::TotpUrlError>)
    requires
        checkable(skew, step, time),
    ensures
        match verdict {
            Ok(accepted) => totp_parameters_ok(secret@, digits) && accepted == (exists|counter: int|
                time / step - skew <= counter <= time / step + skew && #[trigger] totp_code(
                    secret@,
                    digits,
                    counter,
                ) == code@),
            Err(_) => !totp_parameters_ok(secret@, digits),
        },
{
    let totp = totp_rs::TOTP::new(totp_rs::Algorithm::SHA1, digits, skew, step, secret)?;
    Ok(totp.check(code, time))
}

/// Why a one-time password was not accepted, or could not be checked.
#[derive(Debug, Clone, Copy, PartialEq, Eq, Structural)]
pub enum OtpError {
    /// The user has not yet proved possession of the secret.
    NotVerified,
    /// The code is not one of those accepted now.
    InvalidCode,
    /// No secret is stored for the user.
    SecretMissing,
    /// The stored secret is not base32.
    SecretUnreadable,
    /// The stored secret is empty or decodes to fewer than sixteen bytes.
    SecretTooShort,
    /// The time of the check lies within the first step after the Unix epoch,
    /// or within the last one that a `u64` holds.
    TimeOutOfRange,
    /// No provisioning URI is stored beside the secret.
    UriMissing,
}

/// The times at which this service checks a code.
pub open spec fn time_in_range(now: u64) -> bool {
    OTP_STEP <= now <= u64::MAX - OTP_STEP
}

/// The secret that comes of `bytes`: their base32 text, which the generator
/// refuses for fewer than sixteen bytes.
pub open spec fn secret_from(bytes: Seq<u8>) -> Result<Seq<char>, OtpError> {
    if bytes.len() < MIN_SECRET_BYTES {
        Err(OtpError::SecretTooShort)
    } else {
        Ok(base32_text(bytes))
    }
}

/// The secret is the text of `bytes`, and a check reads `bytes` back from it:
/// it is not empty and stands for them in base32.
pub open spec fn secret_for(secret: Seq<char>, bytes: Seq<u8>) -> bool {
    &&& secret == base32_text(bytes)
    &&& secret.len() == base32_length(bytes.len())
    &&& secret.len() > 0
    &&& base32_bytes(secret) == Some(bytes)
}

/// What a check of `code` against the stored secret gives at `now`.
pub open spec fn code_check(secret: Seq<char>, code: Seq<char>, now: u64) -> Result<bool, OtpError> {
    if secret.len() == 0 {
        Err(OtpError::SecretTooShort)
    } else {
        match base32_bytes(secret) {
            None => Err(OtpError::SecretUnreadable),
            Some(raw) => if raw.len() < MIN_SECRET_BYTES {
                Err(OtpError::SecretTooShort)
            } else if !time_in_range(now) {
                Err(OtpError::TimeOutOfRange)
            } else {
                Ok(code_accepted(raw, OTP_DIGITS, OTP_SKEW, OTP_STEP, code, now))
            },
        }
    }
}

/// The provisioning URI for an account: `otpauth://totp/`, the issuer, a
/// colon, the email, `?secret=`, the secret, `&issuer=` and the issuer again.
pub open spec fn uri_text(issuer: Seq<char>, email: Seq<char>, secret: Seq<char>) -> Seq<char> {
    "otpauth://totp/"@ + issuer + ":"@ + email + "?secret="@ + secret + "&issuer="@ + issuer
}

/// The mathematical value of a text that was made or refused.
pub open spec fn made_view(made: Result<String, OtpError>) -> Result<Seq<char>, OtpError> {
    match made {
        Ok(text) => Ok(text@),
        Err(error) => Err(error),
    }
}

/// The secret, in base32, that comes of `bytes`: there is one for sixteen
/// bytes or more, and a check reads the bytes back from it.
pub fn secret_of(bytes: Vec<u8>) -> (secret: Result<String, OtpError>)
    ensures
        made_view(secret) == secret_from(bytes@),
        secret matches Ok(text) ==> secret_for(text@, bytes@),
{
    let encoded = base32_encode(&bytes);
    let raw = match secret_bytes(encoded.as_str()) {
        Ok(raw) => raw,
        Err(_) => {
            return Err(OtpError::SecretUnreadable);
        },
    };
    assert(raw@ == bytes@);
    match totp_secret_text(raw, OTP_DIGITS, OTP_SKEW, OTP_STEP) {
        Ok(text) => {
            assert(base32_length(bytes@.len()) > 0);
            Ok(text)
        },
        Err(_) => Err(OtpError::SecretTooShort),
    }
}

/// The secret was drawn as `bytes`: twenty-one of them, of which it is the
/// text.
pub open spec fn drawn(secret: Result<Seq<char>, OtpError>, bytes: Seq<u8>) -> bool {
    &&& bytes.len() == SECRET_BYTES
    &&& secret == Ok::<Seq<char>, OtpError>(base32_text(bytes))
    &&& secret_for(base32_text(bytes), bytes)
}

/// A new secret, in base32, from twenty-one random bytes: thirty-four
/// characters from which a check reads the bytes back.
pub fn generate_secret() -> (secret: Result<String, OtpError>)
    ensures
        secret is Ok,
        exists|bytes: Seq<u8>| #[trigger] drawn(made_view(secret), bytes),
{
    let bytes = random_secret_bytes();
    let ghost drawn_bytes = bytes@;
    let secret = secret_of(bytes);
    assert(drawn(made_view(secret), drawn_bytes));
    secret
}

/// The provisioning URI for an account.
pub fn provisioning_uri(issuer: &str, email: &str, secret: &str) -> (uri: String)
    ensures
        uri@ == uri_text(issuer@, email@, secret@),
{
    let mut uri = String::new();
    uri.append("otpauth://totp/");
    uri.append(issuer);
    uri.append(":");
    uri.append(email);
    uri.append("?secret=");
    uri.append(secret);
    uri.append("&issuer=");
    uri.append(issuer);
    assert(uri@ =~= uri_text(issuer@, email@, secret@));
    uri
}

/// Whether a check can be made, once the stored secret has been read: the
/// secret must not be empty, must be base32, and must decode to sixteen bytes
/// or more (`decoded` is the number it decoded to, if it did); and the time
/// must be in range. The faults are named in this order.
pub open spec fn readiness(secret_empty: bool, decoded: Option<usize>, now: u64) -> Result<(), OtpError> {
    if secret_empty {
        Err(OtpError::SecretTooShort)
    } else {
        match decoded {
            None => Err(OtpError::SecretUnreadable),
            Some(length) => if length < MIN_SECRET_BYTES {
                Err(OtpError::SecretTooShort)
            } else if !time_in_range(now) {
                Err(OtpError::TimeOutOfRange)
            } else {
                Ok(())
            },
        }
    }
}

/// Whether a check can be made, once the stored secret has been read.
pub fn check_readiness(secret_empty: bool, decoded: Option<usize>, now: u64) -> (ready: Result<
    (),
    OtpError,
>)
    ensures
        ready == readiness(secret_empty, decoded, now),
{
    if secret_empty {
        return Err(OtpError::SecretTooShort);
    }
    match decoded {
        None => Err(OtpError::SecretUnreadable),
        Some(length) => {
            if length < MIN_SECRET_BYTES {
                Err(OtpError::SecretTooShort)
            } else if now < OTP_STEP || now > u64::MAX - OTP_STEP {
                Err(OtpError::TimeOutOfRange)
            } else {
                Ok(())
            }
        },
    }
}

/// Whether `code` is accepted at `now` against the stored secret.
pub fn code_matches(secret: &str, code: &str, now: u64) -> (verdict: Result<bool, OtpError>)
    ensures
        verdict == code_check(secret@, code@, now),
{
    let secret_empty = secret.unicode_len() == 0;
    let raw: Option<Vec<u8>> = if secret_empty {
        None
    } else {
        match secret_bytes(secret) {
            Ok(raw) => Some(raw),
            Err(_) => None,
        }
    };
    let decoded: Option<usize> = match &raw {
        Some(raw) => Some(raw.len()),
        None => None,
    };
    match check_readiness(secret_empty, decoded, now) {
        Err(error) => Err(error),
        Ok(_) => match raw {
            Some(raw) => {
                assert(checkable(OTP_SKEW, OTP_STEP, now));
                match totp_check(raw, OTP_DIGITS, OTP_SKEW, OTP_STEP, code, now) {
                    Ok(accepted) => Ok(accepted),
                    Err(_) => Err(OtpError::SecretTooShort),
                }
            },
            None => Err(OtpError::SecretUnreadable),
        },
    }
}

/// The code of the step that holds `now` is accepted at `now`, and so are
/// those of the step before and of the step after.
pub proof fn lemma_current_code_accepted(secret: Seq<u8>, now: u64, offset: int)
    requires
        -1 <= offset <= 1,
    ensures
        code_accepted(
            secret,
            OTP_DIGITS,
            OTP_SKEW,
            OTP_STEP,
            totp_code(secret, OTP_DIGITS, now / OTP_STEP + offset),
            now,
        ),
{
    assert(now / OTP_STEP - OTP_SKEW <= now / OTP_STEP + offset <= now / OTP_STEP + OTP_SKEW);
}

} // verus!
