//! Validation of e-mail addresses and passwords supplied by callers.

use vstd::prelude::*;
use vstd::utf8::encode_utf8;
use crate::text::{contains_char_in, has_char_in, CharClass};

verus! {

/// Longest accepted e-mail address, in bytes.
pub const MAX_EMAIL_BYTES: usize = 255;
/// Shortest accepted password, in bytes.
pub const MIN_PASSWORD_BYTES: usize = 8;
/// Longest accepted password, in bytes.
pub const MAX_PASSWORD_BYTES: usize = 128;

/// Whether `text` matches the regular expression `pattern`; `None` when the
/// pattern does not compile.
pub uninterp spec fn regex_match_of(pattern: Seq<char>, text: Seq<char>) -> Option<bool>;

/// Relies on `regex::Regex::new` and `Regex::is_match`: whether the text
/// matches depends on the pattern and the text alone.
#[verifier::external_body]
fn regex_is_match(pattern: &str, text: &str) -> (r: Option<bool>)
    ensures
        r == regex_match_of(pattern@, text@),
{
    match regex::Regex::new(pattern) {
        Ok(re) => Some(re.is_match(text)),
        Err(_) => None,
    }
}

/// The shape of an accepted e-mail address: a local part, `@`, a domain with
/// at least one dot, and a top-level label of two or more letters.
pub open spec fn email_pattern() -> Seq<char> {
    "^[a-zA-Z0-9._%+-]+@[a-zA-Z0-9.-]+\\.[a-zA-Z]{2,}$"@
}

fn email_pattern_text() -> (r: &'static str)
    ensures
        r@ == email_pattern(),
{
    "^[a-zA-Z0-9._%+-]+@[a-zA-Z0-9.-]+\\.[a-zA-Z]{2,}$"
}

/// Length of `s` in UTF-8 bytes, as `str::len` gives it.
pub open spec fn byte_len(s: Seq<char>) -> usize {
    encode_utf8(s).len() as usize
}

/// A failure message, or success, seen as text.
pub open spec fn outcome_view(r: Result<(), String>) -> Result<(), Seq<char>> {
    match r {
        Ok(()) => Ok(()),
        Err(m) => Err(m@),
    }
}

/// The verdict on an e-mail address whose match against the address pattern
/// came out as `matched`.
pub open spec fn email_verdict(email: &str, matched: Option<bool>) -> Result<(), Seq<char>> {
    if email@.len() == 0 {
        Err("Email cannot be empty"@)
    } else if byte_len(email@) > MAX_EMAIL_BYTES {
        Err("Email too long (max 255 characters)"@)
    } else if matched != Some(true) {
        Err("Invalid email format"@)
    } else {
        Ok(())
    }
}

/// Judges an e-mail address given the outcome of matching it against the
/// address pattern: empty and overlong addresses are refused before the
/// pattern counts.
pub fn check_email(email: &str, matched: Option<bool>) -> (r: Result<(), String>)
    ensures
        outcome_view(r) == email_verdict(email, matched),
{
    if email.is_empty() {
        return Err("Email cannot be empty".to_owned());
    }
    if email.len() > MAX_EMAIL_BYTES {
        return Err("Email too long (max 255 characters)".to_owned());
    }
    match matched {
        Some(true) => Ok(()),
        _ => Err("Invalid email format".to_owned()),
    }
}

/// Validates the format of an e-mail address.
pub fn validate_email(email: &str) -> (r: Result<(), String>)
    ensures
        outcome_view(r) == email_verdict(email, regex_match_of(email_pattern(), email@)),
{
    if email.is_empty() || email.len() > MAX_EMAIL_BYTES {
        return check_email(email, None);
    }
    let matched = regex_is_match(email_pattern_text(), email);
    check_email(email, matched)
}

/// The verdict on a password: 8 to 128 bytes, with an upper-case letter, a
/// lower-case letter and a digit.
pub open spec fn password_verdict(password: &str) -> Result<(), Seq<char>> {
    if byte_len(password@) < MIN_PASSWORD_BYTES {
        Err("Password must be at least 8 characters long"@)
    } else if byte_len(password@) > MAX_PASSWORD_BYTES {
        Err("Password too long (max 128 characters)"@)
    } else if !has_char_in(password@, CharClass::Uppercase) || !has_char_in(password@, CharClass::Lowercase)
        || !has_char_in(password@, CharClass::Numeric) {
        Err("Password must contain uppercase, lowercase, and numbers"@)
    } else {
        Ok(())
    }
}

/// Validates the strength of a new password.
pub fn validate_password(password: &str) -> (r: Result<(), String>)
    ensures
        outcome_view(r) == password_verdict(password),
{
    if password.len() < MIN_PASSWORD_BYTES {
        return Err("Password must be at least 8 characters long".to_owned());
    }
    if password.len() > MAX_PASSWORD_BYTES {
        return Err("Password too long (max 128 characters)".to_owned());
    }
    let has_uppercase = contains_char_in(password, CharClass::Uppercase);
    let has_lowercase = contains_char_in(password, CharClass::Lowercase);
    let has_digit = contains_char_in(password, CharClass::Numeric);
    if !has_uppercase || !has_lowercase || !has_digit {
        return Err("Password must contain uppercase, lowercase, and numbers".to_owned());
    }
    Ok(())
}

} // verus!
