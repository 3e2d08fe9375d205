//! The one-time-password side of the credential verifier.

use vstd::prelude::*;

verus! {

/// Checks a submitted one-time code against a shared TOTP secret over the
/// current time window (six digits, 30-second step, no extra skew).
///
/// Relies on libreauth's `TOTPBuilder` and `TOTP::is_valid` with an ASCII
/// key and the default parameters, and on the system clock standing past
/// the Unix epoch, as `is_valid` itself does. The answer depends on the
/// clock, so nothing is promised of it; a key the builder refuses counts
/// as a mismatch.
#[verifier::external_body]
pub(crate) fn verify_totp(secret: &str, code: &str) -> bool {
    match libreauth::oath::TOTPBuilder::new().ascii_key(secret).finalize() {
        Ok(totp) => totp.is_valid(code),
        Err(_) => false,
    }
}

} // verus!
