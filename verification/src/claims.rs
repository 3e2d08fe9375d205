//! The authentication record ("claims") and the state derived from it.

use vstd::prelude::*;

verus! {

use crate::FAR_FUTURE;

/// What the authentication state machine concludes about a request, derived
/// purely from the current claims (or their absence) at a given instant.
#[derive(Clone, Copy, Debug, PartialEq, Eq, Structural)]
pub enum AuthState {
    /// No claims, or claims past their expiry.
    Anonymous,
    /// Claims present and current, but the principal still owes a
    /// time-based one-time-password check.
    NeedsSecondFactor,
    /// Claims present and current, and either no second factor is enabled
    /// or it has been satisfied.
    Authenticated,
}

/// The record a session carries for a signed-in principal.
///
/// `totp` is the instant until which the second factor counts as satisfied;
/// it is absent until a one-time code has been verified in this session.
pub struct Claims {
    pub sub: String,
    pub username: String,
    pub uid: String,
    pub exp: u64,
    pub totp_enabled: bool,
    pub totp_attempt: u64,
    pub totp: Option<u64>,
}

/// Mathematical image of a [`Claims`] record: strings as character
/// sequences, everything else as the plain values themselves.
pub struct ClaimsView {
    pub sub: Seq<char>,
    pub username: Seq<char>,
    pub uid: Seq<char>,
    pub exp: u64,
    pub totp_enabled: bool,
    pub totp_attempt: u64,
    pub totp: Option<u64>,
}

impl View for Claims {
    type V = ClaimsView;

    open spec fn view(&self) -> ClaimsView {
        ClaimsView {
            sub: self.sub@,
            username: self.username@,
            uid: self.uid@,
            exp: self.exp,
            totp_enabled: self.totp_enabled,
            totp_attempt: self.totp_attempt,
            totp: self.totp,
        }
    }
}

impl Clone for Claims {
    fn clone(&self) -> (r: Self)
        ensures
            r == *self,
    {
        Claims {
            sub: self.sub.clone(),
            username: self.username.clone(),
            uid: self.uid.clone(),
            exp: self.exp,
            totp_enabled: self.totp_enabled,
            totp_attempt: self.totp_attempt,
            totp: self.totp,
        }
    }
}

impl ClaimsView {
    /// Claims are invalid once their expiry instant has passed.
    pub open spec fn expired(self, now: u64) -> bool {
        now >= self.exp
    }

    /// The second factor counts as satisfied while `totp` holds a future
    /// instant.
    pub open spec fn second_factor_satisfied(self, now: u64) -> bool {
        match self.totp {
            Some(t) => now < t,
            None => false,
        }
    }

    /// The state these claims put a session in at instant `now`.
    pub open spec fn state(self, now: u64) -> AuthState {
        if self.expired(now) {
            AuthState::Anonymous
        } else if self.totp_enabled && !self.second_factor_satisfied(now) {
            AuthState::NeedsSecondFactor
        } else {
            AuthState::Authenticated
        }
    }

    /// The record built at login for a principal: fresh attempt counter,
    /// second factor not yet satisfied.
    pub open spec fn fresh(sub: Seq<char>, username: Seq<char>, uid: Seq<char>, totp_enabled: bool) -> ClaimsView {
        ClaimsView {
            sub: sub,
            username: username,
            uid: uid,
            exp: FAR_FUTURE,
            totp_enabled: totp_enabled,
            totp_attempt: 0,
            totp: None,
        }
    }
}

/// The state of a session that holds `c` (or nothing) at instant `now`.
pub open spec fn claims_state(c: Option<ClaimsView>, now: u64) -> AuthState {
    match c {
        None => AuthState::Anonymous,
        Some(c) => c.state(now),
    }
}

impl Claims {
    /// Evaluate the state these claims yield at instant `now`.
    pub fn state(&self, now: u64) -> (r: AuthState)
        ensures
            r == self@.state(now),
    {
        if now >= self.exp {
            AuthState::Anonymous
        } else if self.totp_enabled && !self.second_factor_satisfied(now) {
            AuthState::NeedsSecondFactor
        } else {
            AuthState::Authenticated
        }
    }

    /// Whether the second factor counts as satisfied at instant `now`.
    pub fn second_factor_satisfied(&self, now: u64) -> (r: bool)
        ensures
            r == self@.second_factor_satisfied(now),
    {
        match self.totp {
            Some(t) => now < t,
            None => false,
        }
    }
}

/// A principal without the second factor enabled is fully authenticated
/// whenever its claims are not expired, whatever `totp` holds.
pub proof fn lemma_no_totp_means_authenticated(c: ClaimsView, now: u64)
    requires
        !c.totp_enabled,
        !c.expired(now),
    ensures
        c.state(now) == AuthState::Authenticated,
{
}

/// With the second factor enabled and not yet satisfied in this session,
/// unexpired claims leave the session owing the second factor.
pub proof fn lemma_totp_pending_needs_second_factor(c: ClaimsView, now: u64)
    requires
        c.totp_enabled,
        c.totp is None,
        !c.expired(now),
    ensures
        c.state(now) == AuthState::NeedsSecondFactor,
{
}

} // verus!
