//! Account settings: enrolling the TOTP second factor.

use vstd::prelude::*;

verus! {

use crate::claims::AuthState;
use crate::repos::user::{enrollment_committed, User, UserStore};
use crate::repos::MemoryStore;
use crate::routes::auth::stored_user_with_id;
use crate::routes::{AuthError, ValidateForm};
use crate::session::{Session, SessionView};
use vstd::pervasive::unreached;

/// Starts a TOTP enrollment for the signed-in principal: the session keeps
/// `secret` as pending until a code generated from it has been verified,
/// and the account name for the key URI comes back. Nothing is committed
/// to the repository yet. A session that is not fully authenticated at
/// `now` is turned away untouched.
pub fn update_otp(session: &mut Session, secret: String, now: u64) -> (r: Result<String, AuthError>)
    ensures
        old(session)@.state(now) == AuthState::Authenticated ==> {
            &&& r matches Ok(name) && (old(session)@.claims matches Some(c) && name@ == c.username)
            &&& final(session)@ == (SessionView {
                pending_totp_secret: Some(secret@),
                ..old(session)@
            })
        },
        old(session)@.state(now) != AuthState::Authenticated ==> (r matches Err(e) && e
            == AuthError::InvalidCredentials && final(session)@ == old(session)@),
{
    match session.current_state(now) {
        AuthState::Authenticated => {
            let name = match &session.claims {
                Some(c) => c.username.clone(),
                None => unreached(),
            };
            session.begin_totp_enrollment(secret);
            Ok(name)
        },
        _ => Err(AuthError::InvalidCredentials),
    }
}

/// What the enrollment-verification endpoint did with one request.
#[derive(Clone, Copy, Debug, PartialEq, Eq, Structural)]
pub enum EnrollOutcome {
    /// The code verified against the pending secret: the enrollment is
    /// committed to the repository and the session's claims carry the
    /// second factor as enabled and satisfied.
    Committed,
    /// The code did not verify: the pending secret stays, the user may try
    /// again.
    Rejected,
    /// No enrollment was under way.
    NoPendingEnrollment,
    /// The session is not fully authenticated here, or its claims point at
    /// no stored user (the session is then logged out).
    NotSignedIn,
}

/// Finishes a TOTP enrollment: the submitted code is checked against the
/// pending secret, and only on success is the secret committed to the
/// user repository and reflected in the claims. An unverified secret is
/// never persisted.
pub fn validate_otp(
    session: &mut Session,
    store: &mut MemoryStore<User>,
    form: ValidateForm,
    now: u64,
) -> (r: EnrollOutcome)
    requires
        old(session)@.claims matches Some(c) ==> c.totp_attempt < u64::MAX,
    ensures
        old(session)@.state(now) != AuthState::Authenticated ==> r == EnrollOutcome::NotSignedIn
            && final(session)@ == old(session)@ && *final(store) == *old(store),
        old(session)@.state(now) == AuthState::Authenticated ==> {
            &&& (old(session)@.pending_totp_secret is None ==> r
                == EnrollOutcome::NoPendingEnrollment && final(session)@ == old(session)@ && *final(store) == *old(store))
            &&& (old(session)@.pending_totp_secret matches Some(sec) ==> (old(session)@.claims matches Some(c) ==> {
                ||| (r == EnrollOutcome::Rejected && final(session)@ == old(session)@ && *final(store) == *old(store))
                ||| (r == EnrollOutcome::Committed && enrollment_committed(
                    old(store).cache@,
                    final(store).cache@,
                    c.uid,
                    sec,
                ) && final(session)@ == old(session)@.enrollment_confirmed())
                ||| (r == EnrollOutcome::NotSignedIn && !stored_user_with_id(
                    old(store).cache@,
                    c.uid,
                ) && final(session)@ == SessionView::empty() && *final(store) == *old(store))
            }))
        },
{
    match session.current_state(now) {
        AuthState::Authenticated => {},
        _ => {
            return EnrollOutcome::NotSignedIn;
        },
    }
    let secret = match &session.pending_totp_secret {
        Some(s) => s.clone(),
        None => {
            return EnrollOutcome::NoPendingEnrollment;
        },
    };
    let valid = crate::totp::verify_totp(secret.as_str(), form.code.as_str());
    if !valid {
        return EnrollOutcome::Rejected;
    }
    let uid = match &session.claims {
        Some(c) => c.uid.clone(),
        None => unreached(),
    };
    match store.update_totp_enrollment(&uid, secret) {
        Ok(_) => {
            session.confirm_totp_enrollment();
            EnrollOutcome::Committed
        },
        Err(_) => {
            session.logout();
            EnrollOutcome::NotSignedIn
        },
    }
}

} // verus!
