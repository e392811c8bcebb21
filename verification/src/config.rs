//! Settings that are fixed when the service starts.

use crate::text::chars_of;
use vstd::prelude::*;
use vstd::string::StringExecFns;

verus! {

/// How long a session token lasts, in seconds: 24 hours.
pub const TOKEN_TTL: u64 = 86_400;

/// How long the session cookie lasts, in seconds: one day.
pub const COOKIE_TTL: u64 = 86_400;

/// The cost factor that passwords are hashed with.
pub const HASH_COST: u32 = 12;

/// The settings of the authentication core.
#[derive(Debug, Clone, PartialEq, Eq)]
pub struct AuthConfig {
    /// The symmetric secret that tokens are signed and verified with.
    pub secret: String,
    /// Seconds between a token's issue and its expiry.
    pub token_ttl: u64,
    /// Seconds between a login and the expiry of its cookie.
    pub cookie_ttl: u64,
    /// The cost factor of the password hash.
    pub hash_cost: u32,
    /// The name under which authenticator apps list the account.
    pub issuer: String,
}

/// The mathematical value of an [`AuthConfig`].
pub struct AuthConfigView {
    pub secret: Seq<char>,
    pub token_ttl: u64,
    pub cookie_ttl: u64,
    pub hash_cost: u32,
    pub issuer: Seq<char>,
}

impl View for AuthConfig {
    type V = AuthConfigView;

    open spec fn view(&self) -> AuthConfigView {
        AuthConfigView {
            secret: self.secret@,
            token_ttl: self.token_ttl,
            cookie_ttl: self.cookie_ttl,
            hash_cost: self.hash_cost,
            issuer: self.issuer@,
        }
    }
}

impl AuthConfig {
    /// The settings of the service for a signing secret: tokens and cookies
    /// last a day, passwords are hashed at cost 12, and the issuer is
    /// `RustNoteAPI`.
    pub fn new(secret: String) -> (config: AuthConfig)
        ensures
            config@ == (AuthConfigView {
                secret: secret@,
                token_ttl: TOKEN_TTL,
                cookie_ttl: COOKIE_TTL,
                hash_cost: HASH_COST,
                issuer: "RustNoteAPI"@,
            }),
    {
        AuthConfig {
            secret,
            token_ttl: TOKEN_TTL,
            cookie_ttl: COOKIE_TTL,
            hash_cost: HASH_COST,
            issuer: String::from_str("RustNoteAPI"),
        }
    }
}

/// Whether a character is a decimal digit.
pub open spec fn is_digit(c: char) -> bool {
    '0' <= c <= '9'
}

/// The number that a text of decimal digits stands for.
pub open spec fn decimal_value(digits: Seq<char>) -> nat
    decreases digits.len(),
{
    if digits.len() == 0 {
        0
    } else {
        decimal_value(digits.drop_last()) * 10 + (digits.last() as nat - '0' as nat) as nat
    }
}

/// The digits of a port as it is written: the text itself, or what follows
/// one plus sign at its start.
pub open spec fn port_digits(text: Seq<char>) -> Seq<char> {
    if text.len() > 0 && text[0] == '+' {
        text.skip(1)
    } else {
        text
    }
}

/// The port that a text stands for: at least one decimal digit, after at
/// most one plus sign, with a value that a `u16` holds.
pub open spec fn port_of(text: Seq<char>) -> Option<u16> {
    let digits = port_digits(text);
    if digits.len() > 0 && (forall|i: int| 0 <= i < digits.len() ==> is_digit(#[trigger] digits[i]))
        && decimal_value(digits) <= u16::MAX {
        Some(decimal_value(digits) as u16)
    } else {
        None
    }
}

/// A text of digits stands for at least as much as any of its beginnings.
proof fn lemma_decimal_grows(digits: Seq<char>, k: int)
    requires
        0 <= k <= digits.len(),
        forall|i: int| 0 <= i < digits.len() ==> is_digit(#[trigger] digits[i]),
    ensures
        decimal_value(digits.take(k)) <= decimal_value(digits),
    decreases digits.len() - k,
{
    if k < digits.len() {
        lemma_decimal_grows(digits, k + 1);
        assert(digits.take(k + 1).drop_last() =~= digits.take(k));
        assert(digits.take(k + 1).last() == digits[k]);
    } else {
        assert(digits.take(k) =~= digits);
    }
}

/// The port that a text stands for.
pub fn parse_port(text: &str) -> (port: Option<u16>)
    ensures
        port == port_of(text@),
{
    let chars = chars_of(text);
    let start: usize = if chars.len() > 0 && chars[0] == '+' {
        1
    } else {
        0
    };
    let ghost digits = port_digits(text@);
    assert(digits =~= text@.skip(start as int));
    if chars.len() == start {
        return None;
    }
    let mut value: u32 = 0;
    let mut i: usize = start;
    assert(digits.take(0) =~= Seq::<char>::empty());
    while i < chars.len()
        invariant
            chars@ == text@,
            digits == text@.skip(start as int),
            digits == port_digits(text@),
            start <= i <= chars.len(),
            start <= 1,
            value <= u16::MAX,
            value == decimal_value(digits.take(i - start)),
            forall|j: int| 0 <= j < i - start ==> is_digit(#[trigger] digits[j]),
        decreases chars.len() - i,
    {
        let c = chars[i];
        assert(digits[i - start] == c);
        if c < '0' || c > '9' {
            assert(!is_digit(digits[i - start]));
            return None;
        }
        let digit: u32 = c as u32 - '0' as u32;
        assert(digits.take(i - start + 1).drop_last() =~= digits.take(i - start));
        assert(digits.take(i - start + 1).last() == c);
        let next: u32 = value * 10 + digit;
        assert(next == decimal_value(digits.take(i - start + 1)));
        if next > 65535 {
            proof {
                if forall|j: int| 0 <= j < digits.len() ==> is_digit(#[trigger] digits[j]) {
                    lemma_decimal_grows(digits, i - start + 1);
                }
            }
            return None;
        }
        value = next;
        i += 1;
    }
    assert(digits.take(i - start) =~= digits);
    Some(value as u16)
}

} // verus!
