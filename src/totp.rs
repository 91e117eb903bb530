//! Time-based one-time passwords: SHA-1, six digits, thirty-second steps and
//! no leeway beyond the step that holds the current time.
use vstd::prelude::*;

use rand::Rng;

use crate::address::{hex_encode, hex_of, lemma_hex_len};

verus! {

/// Digits in a code.
pub const DIGITS: u8 = 6;

/// Seconds in a time step.
pub const STEP: u64 = 30;

/// Steps before or after the current one that are also accepted.
pub const SKEW: u16 = 0;

/// Random bytes in a secret.
pub const SECRET_BYTES: usize = 32;

/// The code that totp-rs computes with SHA-1 from `secret` for time-step
/// counter `counter`, as `digits` decimal digits.
pub uninterp spec fn totp_code(secret: Seq<u8>, digits: u8, counter: int) -> Seq<char>;

/// The `otpauth://` enrollment URI that totp-rs writes for a SHA-1 secret.
pub uninterp spec fn otpauth_url(
    secret: Seq<u8>,
    digits: u8,
    step: u64,
    account: Seq<char>,
    issuer: Seq<char>,
) -> Seq<char>;

/// The code owed at `time` (seconds since the epoch).
pub open spec fn expected_code(secret: Seq<u8>, time: int) -> Seq<char> {
    totp_code(secret, DIGITS, time / STEP as int)
}

/// Whether `code` is accepted at `time`: exactly the code of the step that
/// holds `time`.
pub open spec fn accepts(secret: Seq<u8>, code: Seq<char>, time: int) -> bool {
    code == expected_code(secret, time)
}

/// Relies on totp_rs::Builder (SHA-1 by default), Totp::generate and Token's
/// Display: the code for counter `time / step`, padded to `digits` digits.
#[verifier::external_body]
fn totp_generate(secret: &[u8], digits: u8, step: u64, time: u64) -> (r: String)
    requires
        6 <= digits <= 8,
        step > 0,
    ensures
        r@ == totp_code(secret@, digits, (time / step) as int),
        r@.len() == digits,
{
    let totp = totp_rs::Builder::new().with_digits(digits).with_step_duration(step).with_secret(
        secret.to_vec(),
    ).build_noncompliant();
    totp.generate(time).to_string()
}

/// Relies on totp_rs::Totp::check (SHA-1 by default): the first counter,
/// from `time / step - skew` (not below zero) to `time / step + skew`, whose
/// code equals `token`; none when no counter of that window matches.
#[verifier::external_body]
fn totp_check(secret: &[u8], digits: u8, skew: u16, step: u64, token: &str, time: u64) -> (r:
    Option<u64>)
    requires
        6 <= digits <= 8,
        step > 0,
        (time / step + skew) * step <= u64::MAX,
    ensures
        r is None <==> (forall|c: int|
            time / step - skew <= c <= time / step + skew && c >= 0 ==> token@ != totp_code(
                secret@,
                digits,
                c,
            )),
        r is Some ==> time / step - skew <= r.unwrap() <= time / step + skew && token@
            == totp_code(secret@, digits, r.unwrap() as int),
{
    let totp = totp_rs::Builder::new().with_digits(digits).with_skew(skew).with_step_duration(
        step,
    ).with_secret(secret.to_vec()).build_noncompliant();
    totp.check(token, time)
}

/// Relies on totp_rs::Totp::to_url (SHA-1 by default): it fails exactly when
/// the account name is empty or holds a colon.
#[verifier::external_body]
fn totp_to_url(secret: &[u8], digits: u8, step: u64, account: &str, issuer: &str) -> (r: Option<
    String,
>)
    ensures
        r is Some <==> (account@.len() > 0 && !account@.contains(':')),
        r is Some ==> r.unwrap()@ == otpauth_url(secret@, digits, step, account@, issuer@),
{
    let totp = totp_rs::Builder::new().with_digits(digits).with_step_duration(step).with_secret(
        secret.to_vec(),
    ).with_account_name(account).with_issuer(Some(issuer)).build_noncompliant();
    totp.to_url().ok()
}

/// Relies on rand::thread_rng, a cryptographically secure generator:
/// `SECRET_BYTES` random bytes.
#[verifier::external_body]
fn random_secret_bytes() -> (r: Vec<u8>)
    ensures
        r@.len() == SECRET_BYTES,
{
    rand::thread_rng().gen::<[u8; 32]>().to_vec()
}

/// A fresh secret: 256 random bits, hex-encoded.
pub fn new_secret() -> (r: String)
    ensures
        r@.len() == 2 * SECRET_BYTES,
        exists|b: Seq<u8>| b.len() == SECRET_BYTES && r@ == hex_of(b),
{
    let bytes = random_secret_bytes();
    let r = hex_encode(bytes.as_slice());
    proof {
        lemma_hex_len(bytes@);
    }
    r
}

/// The enrollment URI for `secret` under `account_label` and `issuer`; none
/// when the label is empty or holds a colon.
pub fn provisioning_url(secret: &[u8], account_label: &str, issuer: &str) -> (r: Option<String>)
    ensures
        r is Some <==> (account_label@.len() > 0 && !account_label@.contains(':')),
        r is Some ==> r.unwrap()@ == otpauth_url(secret@, DIGITS, STEP, account_label@, issuer@),
{
    totp_to_url(secret, DIGITS, STEP, account_label, issuer)
}

/// The code for the time step that holds `time`.
pub fn code_for(secret: &[u8], time: u64) -> (r: String)
    ensures
        r@ == expected_code(secret@, time as int),
        r@.len() == DIGITS,
{
    totp_generate(secret, DIGITS, STEP, time)
}

/// Whether `code` is the code of the time step that holds `time`.
pub fn check(secret: &[u8], code: &str, time: u64) -> (r: bool)
    ensures
        r == accepts(secret@, code@, time as int),
{
    assert((time / STEP + SKEW) * STEP <= time) by (nonlinear_arith)
        requires STEP == 30, SKEW == 0;
    let matched = totp_check(secret, DIGITS, SKEW, STEP, code, time);
    matched.is_some()
}

/// A code is accepted in the step that it was made for, and not in the next
/// step, unless the two steps happen to share a code.
pub proof fn lemma_no_leeway(secret: Seq<u8>, t: int)
    requires
        t >= 0,
        totp_code(secret, DIGITS, t / STEP as int) != totp_code(
            secret,
            DIGITS,
            t / STEP as int + 1,
        ),
    ensures
        accepts(secret, expected_code(secret, t), t),
        !accepts(secret, expected_code(secret, t), t + STEP),
{
    assert((t + 30) / 30 == t / 30 + 1) by (nonlinear_arith)
        requires t >= 0;
}

} // verus!
