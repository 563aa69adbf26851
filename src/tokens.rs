//! Random tokens for sessions, e-mail verification and one-time codes.

use vstd::prelude::*;
use crate::errors::{decimal, decimal_text};
use crate::text::string_from_chars;

verus! {

/// Length of a verification or reset token.
pub const TOKEN_LEN: usize = 32;
/// Length of a session token.
pub const SESSION_TOKEN_LEN: usize = 64;
/// Number of digits of a one-time code.
pub const OTP_DIGITS: usize = 6;
/// One more than the largest one-time code.
pub const OTP_BOUND: u32 = 1_000_000;

/// Whether `c` is an ASCII letter or digit.
pub open spec fn ascii_alphanumeric(c: char) -> bool {
    ('a' <= c && c <= 'z') || ('A' <= c && c <= 'Z') || ('0' <= c && c <= '9')
}

/// Relies on `rand::thread_rng` sampling `rand::distributions::Alphanumeric`,
/// whose samples are ASCII letters and digits.
#[verifier::external_body]
fn random_alphanumeric() -> (r: char)
    ensures
        ascii_alphanumeric(r),
{
    char::from(rand::Rng::sample(&mut rand::thread_rng(), rand::distributions::Alphanumeric))
}

/// Relies on `rand::Rng::gen_range` over `0..bound`, which draws below the
/// bound and panics only on an empty range.
#[verifier::external_body]
fn random_below(bound: u32) -> (r: u32)
    requires
        bound > 0,
    ensures
        r < bound,
{
    rand::Rng::gen_range(&mut rand::thread_rng(), 0..bound)
}

/// A random text of `len` ASCII letters and digits.
pub fn random_alphanumeric_text(len: usize) -> (r: String)
    ensures
        r@.len() == len,
        forall|i: int| 0 <= i < len ==> ascii_alphanumeric(#[trigger] r@[i]),
{
    let mut chars: Vec<char> = Vec::new();
    while chars.len() < len
        invariant
            chars.len() <= len,
            forall|i: int| 0 <= i < chars.len() ==> ascii_alphanumeric(#[trigger] chars@[i]),
        decreases len - chars.len(),
    {
        chars.push(random_alphanumeric());
    }
    string_from_chars(chars)
}

/// A random 32-character token of ASCII letters and digits.
pub fn generate_token() -> (r: String)
    ensures
        r@.len() == TOKEN_LEN,
        forall|i: int| 0 <= i < TOKEN_LEN ==> ascii_alphanumeric(#[trigger] r@[i]),
{
    random_alphanumeric_text(TOKEN_LEN)
}

/// A random 64-character session token of ASCII letters and digits.
pub fn generate_session_token() -> (r: String)
    ensures
        r@.len() == SESSION_TOKEN_LEN,
        forall|i: int| 0 <= i < SESSION_TOKEN_LEN ==> ascii_alphanumeric(#[trigger] r@[i]),
{
    random_alphanumeric_text(SESSION_TOKEN_LEN)
}

/// `n` in decimal, padded with leading zeros to six digits.
pub open spec fn otp_digits(n: nat) -> Seq<char> {
    Seq::new((OTP_DIGITS - decimal(n).len()) as nat, |i: int| '0') + decimal(n)
}

proof fn lemma_decimal_len(n: nat, k: nat)
    requires
        n < pow10(k),
        k >= 1,
    ensures
        decimal(n).len() <= k,
    decreases n,
{
    if n >= 10 {
        assert(n / 10 < pow10((k - 1) as nat)) by (nonlinear_arith)
            requires n < pow10(k), pow10(k) == 10 * pow10((k - 1) as nat), n >= 10;
        if k == 1 {
            assert(false);
        }
        lemma_decimal_len(n / 10, (k - 1) as nat);
    }
}

/// Ten to the power `k`.
pub open spec fn pow10(k: nat) -> nat
    decreases k,
{
    if k == 0 {
        1
    } else {
        10 * pow10((k - 1) as nat)
    }
}

/// The six-digit text of a one-time code below one million.
pub fn otp_text(n: u32) -> (r: String)
    requires
        n < OTP_BOUND,
    ensures
        r@ == otp_digits(n as nat),
        r@.len() == OTP_DIGITS,
{
    proof {
        assert(pow10(0) == 1);
        assert(pow10(1) == 10);
        assert(pow10(2) == 100);
        assert(pow10(3) == 1000);
        assert(pow10(4) == 10000);
        assert(pow10(5) == 100000);
        assert(pow10(6) == 1000000);
        lemma_decimal_len(n as nat, 6);
    }
    let digits = decimal_text(n as usize);
    let mut padded = String::new();
    let mut i: usize = 0;
    let pad = OTP_DIGITS - digits.as_str().unicode_len();
    while i < pad
        invariant
            i <= pad,
            pad == OTP_DIGITS - decimal(n as nat).len(),
            padded@ == Seq::new(i as nat, |j: int| '0'),
        decreases pad - i,
    {
        padded.append("0");
        proof {
            reveal_strlit("0");
            assert(padded@ =~= Seq::new((i + 1) as nat, |j: int| '0'));
        }
        i = i + 1;
    }
    padded.append(digits.as_str());
    padded
}

/// A random six-digit one-time code.
pub fn generate_otp() -> (r: String)
    ensures
        exists|n: nat| n < OTP_BOUND && r@ == otp_digits(n),
        r@.len() == OTP_DIGITS,
{
    let n = random_below(OTP_BOUND);
    otp_text(n)
}

} // verus!
