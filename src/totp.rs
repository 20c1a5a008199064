//! The current one-time code for a raw secret.
use vstd::prelude::*;
use totp_rs::{Algorithm, TOTP};
use crate::scrub::wipe_bytes;

verus! {

/// Length of one time step, in seconds, of the default RFC 6238 profile.
pub const TIME_STEP: u64 = 30;

/// Number of digits of a code in the default RFC 6238 profile.
pub const CODE_DIGITS: usize = 6;

/// Tolerated clock drift, in time steps, of the default RFC 6238 profile.
/// It plays no part in generating a code.
pub const SKEW: u8 = 1;

/// Kept for callers that match on it: no secret that decodes makes
/// generation fail.
#[derive(Debug, Clone, Copy, PartialEq, Eq, Structural)]
pub struct GeneratorError;

/// The HMAC-SHA1 code of `digits` decimal digits that `totp_rs` derives from
/// a secret for a time-step counter.
pub uninterp spec fn totp_sha1(secret: Seq<u8>, digits: nat, counter: int) -> Seq<char>;

/// The code for `secret` at `now` seconds since the Unix epoch, in the
/// default profile: six digits, 30-second steps.
pub open spec fn code_at(secret: Seq<u8>, now: u64) -> Seq<char> {
    totp_sha1(secret, CODE_DIGITS as nat, now as int / TIME_STEP as int)
}

/// Whether `s` is `n` ASCII digits.
pub open spec fn is_digits(s: Seq<char>, n: nat) -> bool {
    s.len() == n && forall|i: int| 0 <= i < s.len() ==> '0' <= #[trigger] s[i] <= '9'
}

/// Whether `s` is six ASCII digits.
pub open spec fn is_six_digits(s: Seq<char>) -> bool {
    is_digits(s, CODE_DIGITS as nat)
}

/// Relies on `totp_rs::TOTP::new_unchecked` with HMAC-SHA1, which accepts a
/// key of any length, and `TOTP::generate`: the code depends on the secret,
/// the digit count and `time / step` alone, and is written zero-padded to
/// `digits` digits. The secret is zeroed when the generator is dropped.
#[verifier::external_body]
fn generate_at(digits: usize, skew: u8, step: u64, secret: Vec<u8>, time: u64) -> (r: String)
    requires
        1 <= digits <= 9,
        step > 0,
    ensures
        r@ == totp_sha1(secret@, digits as nat, time as int / step as int),
        is_digits(r@, digits as nat),
{
    TOTP::new_unchecked(Algorithm::SHA1, digits, skew, step, secret).generate(time)
}

/// Produces the code for the secret at `now` (seconds since the Unix epoch),
/// then overwrites the secret.
pub fn current_code(secret: &mut Vec<u8>, now: u64) -> (r: Result<String, GeneratorError>)
    ensures
        r is Ok,
        r matches Ok(c) ==> c@ == code_at(old(secret)@, now) && is_six_digits(c@),
        final(secret)@.len() == 0,
{
    let owned = secret.clone();
    wipe_bytes(secret);
    Ok(generate_at(CODE_DIGITS, SKEW, TIME_STEP, owned, now))
}

/// Two moments in the same time step give the same code for the same secret.
pub proof fn code_stable_within_step(secret: Seq<u8>, t1: u64, t2: u64)
    requires
        t1 / TIME_STEP == t2 / TIME_STEP,
    ensures
        code_at(secret, t1) == code_at(secret, t2),
{
}

} // verus!
