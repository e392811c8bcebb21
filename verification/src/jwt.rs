//! Session tokens: claims, their issue and expiry, and the signed text that
//! carries them.
//!
//! Signing and signature checking are `jsonwebtoken`'s. This module decides
//! what goes into a token, what must come out of one, and when it has expired.

use crate::clock::current_time;
use crate::config::AuthConfig;
use crate::json::{
    integer_member, members, new_object, plain, put_signed, put_text, put_unsigned, signed_at,
    text_at, text_member, unsigned_at, JsonObject, Member,
};
use vstd::prelude::*;
use vstd::string::StringExecFns;

verus! {

/// `jsonwebtoken::errors::Error`: why signing failed; carried and never read.
#[verifier::external_type_specification]
#[verifier::external_body]
pub struct ExJwtError(jsonwebtoken::errors::Error);

/// The payload of a session token.
#[derive(Debug, PartialEq, Eq)]
pub struct Claims {
    /// When the token expires, in seconds since the Unix epoch.
    pub exp: usize,
    /// When the token was issued, in seconds since the Unix epoch.
    pub iat: usize,
    /// The email of the user.
    pub email: String,
    /// The id of the user.
    pub id: i32,
    /// The role of the user.
    pub role: String,
}

/// The mathematical value of [`Claims`].
pub struct ClaimsView {
    pub exp: usize,
    pub iat: usize,
    pub email: Seq<char>,
    pub id: i32,
    pub role: Seq<char>,
}

impl View for Claims {
    type V = ClaimsView;

    open spec fn view(&self) -> ClaimsView {
        ClaimsView {
            exp: self.exp,
            iat: self.iat,
            email: self.email@,
            id: self.id,
            role: self.role@,
        }
    }
}

impl Clone for Claims {
    fn clone(&self) -> (copy: Claims)
        ensures
            copy@ == self@,
    {
        Claims {
            exp: self.exp,
            iat: self.iat,
            email: self.email.clone(),
            id: self.id,
            role: self.role.clone(),
        }
    }
}

/// Why a token was not accepted.
#[derive(Debug, Clone, PartialEq, Eq)]
pub enum TokenError {
    /// The token's expiry lies before the time of the check.
    ExpiredToken,
    /// The signature does not belong to the token under the secret.
    InvalidSignature,
    /// The text is no token, or its payload lacks a claim; with the reason.
    MalformedToken(String),
}

/// Why a token was not issued.
#[derive(Debug, Clone, Copy, PartialEq, Eq, Structural)]
pub enum SigningError {
    /// The expiry does not fit the claim.
    ExpiryOutOfRange,
    /// The signer refused the payload or the key. The signer in use does not
    /// refuse a payload of claims.
    Refused,
}

/// The mathematical value of a [`TokenError`].
pub enum TokenErrorView {
    ExpiredToken,
    InvalidSignature,
    MalformedToken(Seq<char>),
}

impl View for TokenError {
    type V = TokenErrorView;

    open spec fn view(&self) -> TokenErrorView {
        match self {
            TokenError::ExpiredToken => TokenErrorView::ExpiredToken,
            TokenError::InvalidSignature => TokenErrorView::InvalidSignature,
            TokenError::MalformedToken(detail) => TokenErrorView::MalformedToken(detail@),
        }
    }
}

/// The mathematical value of the outcome of a check or a decoding.
pub open spec fn outcome_view(outcome: Result<Claims, TokenError>) -> Result<
    ClaimsView,
    TokenErrorView,
> {
    match outcome {
        Ok(claims) => Ok(claims@),
        Err(error) => Err(error@),
    }
}

/// The mathematical value of the outcome of an encoding.
pub open spec fn token_view(outcome: Result<String, SigningError>) -> Result<
    Seq<char>,
    SigningError,
> {
    match outcome {
        Ok(token) => Ok(token@),
        Err(error) => Err(error),
    }
}

/// The reason given for a payload that lacks a claim or holds one out of range.
pub open spec fn incomplete_claims() -> Seq<char> {
    "token claims are missing or out of range"@
}

/// The claims of a token issued at `now` that lasts `ttl` seconds: none where
/// the expiry does not fit the claim.
pub open spec fn issued(email: Seq<char>, id: i32, role: Seq<char>, now: u64, ttl: u64) -> Option<
    ClaimsView,
> {
    if now + ttl <= usize::MAX {
        Some(ClaimsView { exp: (now + ttl) as usize, iat: now as usize, email, id, role })
    } else {
        None
    }
}

/// The members of the payload that carries `claims`.
pub open spec fn claims_members(claims: ClaimsView) -> Map<Seq<char>, Member> {
    Map::<Seq<char>, Member>::empty().insert("exp"@, Member::Integer(claims.exp as int)).insert(
        "iat"@,
        Member::Integer(claims.iat as int),
    ).insert("email"@, Member::Text(claims.email)).insert(
        "id"@,
        Member::Integer(claims.id as int),
    ).insert("role"@, Member::Text(claims.role))
}

/// The claims that a payload with these members carries: all five must be
/// there, each of its kind and within the range of its field.
pub open spec fn claims_in(fields: Map<Seq<char>, Member>) -> Option<ClaimsView> {
    match (
        integer_member(fields, "exp"@),
        integer_member(fields, "iat"@),
        text_member(fields, "email"@),
        integer_member(fields, "id"@),
        text_member(fields, "role"@),
    ) {
        (Some(exp), Some(iat), Some(email), Some(id), Some(role)) => {
            if 0 <= exp <= usize::MAX && 0 <= iat <= usize::MAX && i32::MIN <= id <= i32::MAX {
                Some(ClaimsView { exp: exp as usize, iat: iat as usize, email, id: id as i32, role })
            } else {
                None
            }
        },
        _ => None,
    }
}

/// A token has expired once the time of the check lies after its expiry.
pub open spec fn expired(claims: ClaimsView, now: u64) -> bool {
    claims.exp < now
}

/// What a check of `claims` at `now` gives.
pub open spec fn checked(claims: ClaimsView, now: u64) -> Result<ClaimsView, TokenErrorView> {
    if expired(claims, now) {
        Err(TokenErrorView::ExpiredToken)
    } else {
        Ok(claims)
    }
}

/// What `jsonwebtoken` makes of a text under a secret, before any claim is read.
pub enum Opened {
    /// The signature holds, and the payload is a JSON object with these members.
    Payload(Map<Seq<char>, Member>),
    /// The signature does not hold.
    BadSignature,
    /// The text was refused for another reason, given in words.
    Rejected(Seq<char>),
}

/// What decoding gives for an opened token at `now`.
pub open spec fn decoded(opened: Opened, now: u64) -> Result<ClaimsView, TokenErrorView> {
    match opened {
        Opened::BadSignature => Err(TokenErrorView::InvalidSignature),
        Opened::Rejected(detail) => Err(TokenErrorView::MalformedToken(detail)),
        Opened::Payload(fields) => match claims_in(fields) {
            None => Err(TokenErrorView::MalformedToken(incomplete_claims())),
            Some(claims) => checked(claims, now),
        },
    }
}

/// The token decodes under `secret` to `claims` at every time up to their
/// expiry, and fails as expired at every time after it.
pub open spec fn lives_as(token: Seq<char>, secret: Seq<char>, claims: ClaimsView) -> bool {
    forall|at: u64| #[trigger]
        decoded(opened_token(token, secret), at) == checked(claims, at)
}

/// What encoding gives for claims issued at `now`, once the signed text is known.
pub open spec fn encoded(
    email: Seq<char>,
    id: i32,
    role: Seq<char>,
    secret: Seq<char>,
    ttl: u64,
    now: u64,
) -> Result<Seq<char>, SigningError> {
    match issued(email, id, role, now, ttl) {
        None => Err(SigningError::ExpiryOutOfRange),
        Some(claims) => signed(claims, secret),
    }
}

/// What signing gives for `claims`, once the signed text is known.
pub open spec fn signed(claims: ClaimsView, secret: Seq<char>) -> Result<Seq<char>, SigningError> {
    match signed_token(claims_members(claims), secret) {
        Some(token) => Ok(token),
        None => Err(SigningError::Refused),
    }
}

/// The text that `jsonwebtoken::encode` gives for a payload with these
/// members under this secret; none where it reports an error.
pub uninterp spec fn signed_token(fields: Map<Seq<char>, Member>, secret: Seq<char>) -> Option<
    Seq<char>,
>;

/// What `jsonwebtoken::decode` makes of a text under this secret when expiry
/// is left to the caller.
pub uninterp spec fn opened_token(token: Seq<char>, secret: Seq<char>) -> Opened;

/// A payload that `jsonwebtoken::decode` lets through once the signature
/// holds: it has an expiry that a `u64` holds, and names no audience.
pub open spec fn opens_again(fields: Map<Seq<char>, Member>) -> bool {
    &&& match integer_member(fields, "exp"@) {
        Some(expiry) => 0 <= expiry <= u64::MAX,
        None => false,
    }
    &&& !fields.contains_key("aud"@)
}

/// How opening a token failed.
enum OpenFailure {
    BadSignature,
    Rejected(String),
}

/// `jsonwebtoken::encode` with the default header (HS256) and the secret as
/// the key: the compact token whose payload is the JSON object. The object's
/// members are strings and integers, so its JSON text is fixed by them.
///
/// The call succeeds: the key is a secret as HS256 asks, an object of strings
/// and integers always has a JSON text, and signing with a secret has no
/// error to report.
///
/// The token opens again under the same secret: `decode` signs the first two
/// parts anew and compares, reads the payload back from its JSON text, and of
/// the registered claims asks only for an `exp` that is a number and for no
/// `aud`.
#[verifier::external_body]
fn jwt_sign(payload: &JsonObject, secret: &str) -> (token: Result<
    String,
    jsonwebtoken::errors::Error,
>)
    requires
        plain(members(*payload)),
    ensures
        token is Ok,
        match token {
            Ok(text) => signed_token(members(*payload), secret@) == Some(text@),
            Err(_) => signed_token(members(*payload), secret@) is None,
        },
        token matches Ok(text) ==> opens_again(members(*payload)) ==> opened_token(text@, secret@)
            == Opened::Payload(members(*payload)),
{
    let key = jsonwebtoken::EncodingKey::from_secret(secret.as_bytes());
    jsonwebtoken::encode(&jsonwebtoken::Header::default(), payload, &key)
}

/// `jsonwebtoken::decode` with the secret as the key and the default
/// validation but for expiry, which is switched off: with it off the call
/// reads no clock, so the outcome is fixed by the text and the secret. The
/// payload comes back as a JSON object; an error comes back as its kind,
/// `InvalidSignature` apart from the others, which carry their message.
#[verifier::external_body]
fn jwt_open(token: &str, secret: &str) -> (opened: Result<JsonObject, OpenFailure>)
    ensures
        match opened {
            Ok(payload) => opened_token(token@, secret@) == Opened::Payload(members(payload)),
            Err(OpenFailure::BadSignature) => opened_token(token@, secret@) == Opened::BadSignature,
            Err(OpenFailure::Rejected(detail)) => opened_token(token@, secret@) == Opened::Rejected(
                detail@,
            ),
        },
{
    let mut validation = jsonwebtoken::Validation::default();
    validation.validate_exp = false;
    let key = jsonwebtoken::DecodingKey::from_secret(secret.as_bytes());
    match jsonwebtoken::decode::<JsonObject>(token, &key, &validation) {
        Ok(data) => Ok(data.claims),
        Err(error) => Err(
            match error.kind() {
                jsonwebtoken::errors::ErrorKind::InvalidSignature => OpenFailure::BadSignature,
                _ => OpenFailure::Rejected(error.to_string()),
            },
        ),
    }
}

/// The claims of a token for this user, issued at `now` and lasting `ttl`
/// seconds.
pub fn issue_claims(email: String, id: i32, role: String, now: u64, ttl: u64) -> (claims: Option<
    Claims,
>)
    ensures
        match claims {
            Some(claims) => issued(email@, id, role@, now, ttl) == Some(claims@),
            None => issued(email@, id, role@, now, ttl) is None,
        },
{
    let expiry: u64 = match now.checked_add(ttl) {
        Some(expiry) => expiry,
        None => {
            return None;
        },
    };
    if expiry > usize::MAX as u64 {
        return None;
    }
    Some(Claims { exp: expiry as usize, iat: now as usize, email, id, role })
}

/// The JSON object that carries `claims` in a token.
pub fn payload_of(claims: &Claims) -> (payload: JsonObject)
    ensures
        members(payload) == claims_members(claims@),
{
    let mut payload = new_object();
    put_unsigned(&mut payload, "exp", claims.exp as u64);
    put_unsigned(&mut payload, "iat", claims.iat as u64);
    put_text(&mut payload, "email", claims.email.as_str());
    put_signed(&mut payload, "id", claims.id as i64);
    put_text(&mut payload, "role", claims.role.as_str());
    payload
}

/// The claims that a token's payload carries, where it carries all of them.
pub fn claims_of(payload: &JsonObject) -> (claims: Option<Claims>)
    ensures
        match claims {
            Some(claims) => claims_in(members(*payload)) == Some(claims@),
            None => claims_in(members(*payload)) is None,
        },
{
    let exp = unsigned_at(payload, "exp");
    let iat = unsigned_at(payload, "iat");
    let email = text_at(payload, "email");
    let id = signed_at(payload, "id");
    let role = text_at(payload, "role");
    match (exp, iat, email, id, role) {
        (Some(exp), Some(iat), Some(email), Some(id), Some(role)) => {
            if exp > usize::MAX as u64 || iat > usize::MAX as u64 || id < i32::MIN as i64 || id
                > i32::MAX as i64 {
                None
            } else {
                Some(Claims { exp: exp as usize, iat: iat as usize, email, id: id as i32, role })
            }
        },
        _ => None,
    }
}

/// Accepts `claims` at `now` unless they have expired.
pub fn check_expiry(claims: Claims, now: u64) -> (outcome: Result<Claims, TokenError>)
    ensures
        outcome_view(outcome) == checked(claims@, now),
{
    if (claims.exp as u64) < now {
        Err(TokenError::ExpiredToken)
    } else {
        Ok(claims)
    }
}

/// The signed token that carries `claims`: signing claims succeeds, and the
/// token opens again under the same secret, to a payload that carries the
/// same claims.
pub fn sign_claims(claims: &Claims, secret: &str) -> (token: Result<String, SigningError>)
    ensures
        token is Ok,
        token_view(token) == signed(claims@, secret@),
        token matches Ok(text) ==> opened_token(text@, secret@) == Opened::Payload(
            claims_members(claims@),
        ),
{
    let payload = payload_of(claims);
    proof {
        lemma_payload_keeps_claims(claims@);
    }
    match jwt_sign(&payload, secret) {
        Ok(token) => Ok(token),
        Err(_) => Err(SigningError::Refused),
    }
}

/// A signed token for this user, issued at `now` and lasting `ttl` seconds.
///
/// A token is issued wherever the expiry fits the claim. It decodes under the
/// same secret to the claims it was issued with at every time up to its
/// expiry, and fails as expired at every time after it.
pub fn encode_jwt_at(email: String, id: i32, role: String, secret: &str, ttl: u64, now: u64) -> (token:
    Result<String, SigningError>)
    ensures
        token_view(token) == encoded(email@, id, role@, secret@, ttl, now),
        token is Ok <==> issued(email@, id, role@, now, ttl) is Some,
        token matches Ok(text) ==> issued(email@, id, role@, now, ttl) is Some && lives_as(
            text@,
            secret@,
            issued(email@, id, role@, now, ttl).unwrap(),
        ),
{
    match issue_claims(email, id, role, now, ttl) {
        None => Err(SigningError::ExpiryOutOfRange),
        Some(claims) => {
            proof {
                lemma_payload_keeps_claims(claims@);
            }
            sign_claims(&claims, secret)
        },
    }
}

/// The claims of `jwt`, where its signature holds under `secret`, its payload
/// carries every claim and it has not expired at `now`.
pub fn decode_jwt_at(jwt: &str, secret: &str, now: u64) -> (outcome: Result<Claims, TokenError>)
    ensures
        outcome_view(outcome) == decoded(opened_token(jwt@, secret@), now),
{
    match jwt_open(jwt, secret) {
        Err(OpenFailure::BadSignature) => Err(TokenError::InvalidSignature),
        Err(OpenFailure::Rejected(detail)) => Err(TokenError::MalformedToken(detail)),
        Ok(payload) => match claims_of(&payload) {
            None => Err(
                TokenError::MalformedToken(
                    String::from_str("token claims are missing or out of range"),
                ),
            ),
            Some(claims) => check_expiry(claims, now),
        },
    }
}

/// The token was issued at `now` for this user and lives from then for
/// `ttl` seconds: it is the text that encoding at `now` gives, and it decodes
/// under the secret to the claims issued at `now` until they expire.
pub open spec fn issued_at(
    token: Seq<char>,
    email: Seq<char>,
    id: i32,
    role: Seq<char>,
    secret: Seq<char>,
    ttl: u64,
    now: u64,
) -> bool {
    &&& encoded(email, id, role, secret, ttl, now) == Ok::<Seq<char>, SigningError>(token)
    &&& issued(email, id, role, now, ttl) is Some
    &&& lives_as(token, secret, issued(email, id, role, now, ttl).unwrap())
}

/// The outcome is that of encoding at `now`; and a token that came of it was
/// issued at `now`.
pub open spec fn encoding_at(
    outcome: Result<Seq<char>, SigningError>,
    email: Seq<char>,
    id: i32,
    role: Seq<char>,
    secret: Seq<char>,
    ttl: u64,
    now: u64,
) -> bool {
    &&& outcome == encoded(email, id, role, secret, ttl, now)
    &&& match outcome {
        Ok(token) => issued_at(token, email, id, role, secret, ttl, now),
        Err(_) => issued(email, id, role, now, ttl) is None,
    }
}

/// A signed token for this user, issued now and lasting as long as the
/// settings say: what [`encode_jwt_at`] gives for the time that the clock
/// tells. So a token is issued unless its expiry does not fit the claim, and
/// it decodes under the secret of the settings to this email, id and role
/// from the time of the reading until it expires.
pub fn encode_jwt(email: String, id: i32, role: String, config: &AuthConfig) -> (token: Result<
    String,
    SigningError,
>)
    ensures
        exists|now: u64|
            now <= i64::MAX && #[trigger] encoding_at(
                token_view(token),
                email@,
                id,
                role@,
                config.secret@,
                config.token_ttl,
                now,
            ),
{
    let now = current_time();
    let token = encode_jwt_at(email, id, role, config.secret.as_str(), config.token_ttl, now);
    assert(encoding_at(
        token_view(token),
        email@,
        id,
        role@,
        config.secret@,
        config.token_ttl,
        now,
    ));
    token
}

/// The claims of `jwt` as of now: what [`decode_jwt_at`] gives for the time
/// that the clock tells.
pub fn decode_jwt(jwt: String, config: &AuthConfig) -> (outcome: Result<Claims, TokenError>)
    ensures
        exists|now: u64|
            now <= i64::MAX && outcome_view(outcome) == #[trigger] decoded(
                opened_token(jwt@, config.secret@),
                now,
            ),
{
    let now = current_time();
    let outcome = decode_jwt_at(jwt.as_str(), config.secret.as_str(), now);
    assert(outcome_view(outcome) == decoded(opened_token(jwt@, config.secret@), now));
    outcome
}

/// Claims that went into a payload come out of it unchanged, and the payload
/// is one that opens again once signed.
pub proof fn lemma_payload_keeps_claims(claims: ClaimsView)
    ensures
        claims_in(claims_members(claims)) == Some(claims),
        plain(claims_members(claims)),
        opens_again(claims_members(claims)),
{
    reveal_strlit("aud");
    assert("aud"@.len() == 3 && "aud"@[0] == 'a');
    reveal_strlit("exp");
    reveal_strlit("iat");
    reveal_strlit("email");
    reveal_strlit("id");
    reveal_strlit("role");
    assert("exp"@.len() == 3 && "iat"@.len() == 3 && "email"@.len() == 5 && "id"@.len() == 2
        && "role"@.len() == 4);
    assert("exp"@[0] == 'e' && "iat"@[0] == 'i');
}

/// A token issued at `issued_at` for `ttl` seconds, once its signature has
/// been found to hold, decodes to the claims it was issued with at any time up
/// to its expiry, and fails as expired at any time after it.
pub proof fn lemma_token_lifetime(
    email: Seq<char>,
    id: i32,
    role: Seq<char>,
    issued_at: u64,
    ttl: u64,
    now: u64,
)
    requires
        issued(email, id, role, issued_at, ttl) is Some,
    ensures
        ({
            let claims = issued(email, id, role, issued_at, ttl).unwrap();
            let outcome = decoded(Opened::Payload(claims_members(claims)), now);
            &&& now > issued_at + ttl ==> outcome == Err::<ClaimsView, TokenErrorView>(
                TokenErrorView::ExpiredToken,
            )
            &&& now <= issued_at + ttl ==> outcome == Ok::<ClaimsView, TokenErrorView>(claims)
            &&& claims.email == email && claims.id == id && claims.role == role
        }),
{
    let claims = issued(email, id, role, issued_at, ttl).unwrap();
    lemma_payload_keeps_claims(claims);
}

} // verus!
