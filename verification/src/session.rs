//! The per-browser session and the authentication state machine that acts
//! on it.
//!
//! A session owns at most one [`Claims`] record plus two transient values:
//! the one-time redirect marker that keeps the second-factor prompt from
//! turning into a redirect loop, and a pending TOTP secret held while an
//! enrollment is under way. Every transition here is a pure data mutation
//! of the session value.

use vstd::prelude::*;

verus! {

use crate::FAR_FUTURE;
use crate::claims::{AuthState, Claims, ClaimsView, claims_state};
use crate::repos::user::User;

/// A session-store entry, decoded: the claims (if any) and the transient
/// keys.
pub struct Session {
    pub claims: Option<Claims>,
    pub totp_redirect: bool,
    pub pending_totp_secret: Option<String>,
}

/// Mathematical image of a [`Session`].
pub struct SessionView {
    pub claims: Option<ClaimsView>,
    pub totp_redirect: bool,
    pub pending_totp_secret: Option<Seq<char>>,
}

impl View for Session {
    type V = SessionView;

    open spec fn view(&self) -> SessionView {
        SessionView {
            claims: match self.claims {
                Some(c) => Some(c@),
                None => None,
            },
            totp_redirect: self.totp_redirect,
            pending_totp_secret: match self.pending_totp_secret {
                Some(s) => Some(s@),
                None => None,
            },
        }
    }
}

impl SessionView {
    /// The session a browser starts with, and the one `logout` leaves
    /// behind: no claims, no transient keys.
    pub open spec fn empty() -> SessionView {
        SessionView { claims: None, totp_redirect: false, pending_totp_secret: None }
    }

    /// The state the authentication machine assigns this session at `now`.
    pub open spec fn state(self, now: u64) -> AuthState {
        claims_state(self.claims, now)
    }

    /// The session after a successful login of `u`: fresh claims, redirect
    /// marker cleared, a pending enrollment left as it was.
    pub open spec fn logged_in(self, u: crate::repos::user::UserView) -> SessionView {
        SessionView {
            claims: Some(ClaimsView::fresh(u.username, u.username, u.id, u.totp_enabled)),
            totp_redirect: false,
            pending_totp_secret: self.pending_totp_secret,
        }
    }

    /// The session after the second factor has been verified: satisfied
    /// until the far future, attempt counter advanced.
    pub open spec fn second_factor_satisfied(self) -> SessionView {
        match self.claims {
            Some(c) => SessionView {
                claims: Some(
                    ClaimsView {
                        totp: Some(FAR_FUTURE),
                        totp_attempt: (c.totp_attempt + 1) as u64,
                        ..c
                    },
                ),
                ..self
            },
            None => self,
        }
    }

    /// The session after a failed second-factor attempt: the counter
    /// advances, the factor stays unsatisfied.
    pub open spec fn second_factor_failed(self) -> SessionView {
        match self.claims {
            Some(c) => SessionView {
                claims: Some(ClaimsView { totp: None, totp_attempt: (c.totp_attempt + 1) as u64, ..c }),
                ..self
            },
            None => self,
        }
    }

    /// The session after a TOTP enrollment has been verified and committed:
    /// the claims now carry the second factor as enabled and satisfied, the
    /// attempt counter advances, and the pending secret is gone.
    pub open spec fn enrollment_confirmed(self) -> SessionView {
        match self.claims {
            Some(c) => SessionView {
                claims: Some(
                    ClaimsView {
                        totp_enabled: true,
                        totp: Some(FAR_FUTURE),
                        totp_attempt: (c.totp_attempt + 1) as u64,
                        ..c
                    },
                ),
                totp_redirect: self.totp_redirect,
                pending_totp_secret: None,
            },
            None => self,
        }
    }

    /// The session after the one-time redirect has been consumed at `now`.
    pub open spec fn redirect_consumed(self, now: u64) -> SessionView {
        if self.state(now) == AuthState::NeedsSecondFactor && !self.totp_redirect {
            SessionView { totp_redirect: true, ..self }
        } else {
            self
        }
    }

    /// What consuming the one-time redirect at `now` reports: `true` means
    /// the redirect was already used and the caller must force a re-login.
    pub open spec fn redirect_consume_result(self, now: u64) -> bool {
        self.state(now) == AuthState::NeedsSecondFactor && self.totp_redirect
    }
}

impl Session {
    /// The session a browser starts with.
    pub fn new() -> (r: Session)
        ensures
            r@ == SessionView::empty(),
    {
        Session { claims: None, totp_redirect: false, pending_totp_secret: None }
    }

    /// Rebuilds a session value around what the session store held.
    pub fn restore(claims: Option<Claims>, totp_redirect: bool, pending_totp_secret: Option<String>) -> (r: Session)
        ensures
            r@ == (SessionView {
                claims: match claims {
                    Some(c) => Some(c@),
                    None => None,
                },
                totp_redirect: totp_redirect,
                pending_totp_secret: match pending_totp_secret {
                    Some(s) => Some(s@),
                    None => None,
                },
            }),
    {
        Session { claims, totp_redirect, pending_totp_secret }
    }

    /// The state of this session at instant `now`.
    pub fn current_state(&self, now: u64) -> (r: AuthState)
        ensures
            r == self@.state(now),
    {
        match &self.claims {
            None => AuthState::Anonymous,
            Some(c) => c.state(now),
        }
    }

    /// Whether the session belongs to a signed-in principal at `now` (the
    /// second factor may still be owed).
    pub fn is_authenticated(&self, now: u64) -> (r: bool)
        ensures
            r == (self@.state(now) != AuthState::Anonymous),
    {
        match self.current_state(now) {
            AuthState::Anonymous => false,
            AuthState::NeedsSecondFactor => true,
            AuthState::Authenticated => true,
        }
    }

    /// Whether the session still owes the second factor at `now`.
    pub fn requires_totp(&self, now: u64) -> (r: bool)
        ensures
            r == (self@.state(now) == AuthState::NeedsSecondFactor),
    {
        match self.current_state(now) {
            AuthState::Anonymous => false,
            AuthState::NeedsSecondFactor => true,
            AuthState::Authenticated => false,
        }
    }

    /// A copy of the claims the session holds, if any.
    pub fn claims(&self) -> (r: Option<Claims>)
        ensures
            r == self.claims,
    {
        match &self.claims {
            Some(c) => Some(c.clone()),
            None => None,
        }
    }

    /// Login after a successful primary-credential check: fresh claims for
    /// `user` (attempt counter zero, second factor unsatisfied), redirect
    /// marker cleared. The resulting state, anywhere before the claims
    /// expiry, is `Authenticated` when the principal has no second factor
    /// and `NeedsSecondFactor` when it has one.
    pub fn login(&mut self, user: &User)
        ensures
            final(self)@ == old(self)@.logged_in(user@),
            forall|now: u64|
                now < FAR_FUTURE ==> final(self)@.state(now) == if user.totp_enabled {
                    AuthState::NeedsSecondFactor
                } else {
                    AuthState::Authenticated
                },
    {
        self.claims = Some(
            Claims {
                sub: user.username.clone(),
                username: user.username.clone(),
                uid: user._id.clone(),
                exp: FAR_FUTURE,
                totp_enabled: user.totp_enabled,
                totp_attempt: 0,
                totp: None,
            },
        );
        self.totp_redirect = false;
    }

    /// Logout: destroys the claims and every transient key. Any state
    /// query afterwards, at any instant, answers `Anonymous`, and the
    /// one-time redirect marker is gone.
    pub fn logout(&mut self)
        ensures
            final(self)@ == SessionView::empty(),
            forall|now: u64| final(self)@.state(now) == AuthState::Anonymous,
            !final(self)@.totp_redirect,
    {
        self.claims = None;
        self.totp_redirect = false;
        self.pending_totp_secret = None;
    }

    /// Records a verified second factor: satisfied until the far future,
    /// attempt counter advanced. Only the claims change.
    pub fn satisfy_second_factor(&mut self)
        requires
            old(self)@.claims matches Some(c) && c.totp_attempt < u64::MAX,
        ensures
            final(self)@ == old(self)@.second_factor_satisfied(),
    {
        match &mut self.claims {
            Some(c) => {
                c.totp = Some(FAR_FUTURE);
                c.totp_attempt = c.totp_attempt + 1;
            },
            None => {},
        }
    }

    /// Records a failed second-factor attempt: the counter advances, the
    /// factor stays unsatisfied. Only the claims change.
    pub fn fail_second_factor(&mut self)
        requires
            old(self)@.claims matches Some(c) && c.totp_attempt < u64::MAX,
        ensures
            final(self)@ == old(self)@.second_factor_failed(),
    {
        match &mut self.claims {
            Some(c) => {
                c.totp = None;
                c.totp_attempt = c.totp_attempt + 1;
            },
            None => {},
        }
    }

    /// Clears the one-time redirect marker.
    pub fn clear_totp_redirect(&mut self)
        ensures
            final(self)@ == (SessionView { totp_redirect: false, ..old(self)@ }),
    {
        self.totp_redirect = false;
    }

    /// Consumes the one-time redirect toward the second-factor prompt.
    ///
    /// Meaningful only while the session owes the second factor: the first
    /// call then sets the marker and answers `false` (show the prompt); any
    /// later call without an intervening login answers `true`, telling the
    /// caller to force a re-login instead of redirecting again. In any
    /// other state nothing changes and the answer is `false`.
    pub fn prevent_totp_redirect(&mut self, now: u64) -> (r: bool)
        ensures
            final(self)@ == old(self)@.redirect_consumed(now),
            r == old(self)@.redirect_consume_result(now),
    {
        if !self.requires_totp(now) {
            return false;
        }
        if self.totp_redirect {
            true
        } else {
            self.totp_redirect = true;
            false
        }
    }

    /// Records a verified and committed TOTP enrollment: the claims now
    /// carry the second factor as enabled and satisfied, the attempt
    /// counter advances, and the pending secret is dropped.
    pub fn confirm_totp_enrollment(&mut self)
        requires
            old(self)@.claims matches Some(c) && c.totp_attempt < u64::MAX,
        ensures
            final(self)@ == old(self)@.enrollment_confirmed(),
    {
        match &mut self.claims {
            Some(c) => {
                c.totp_enabled = true;
                c.totp = Some(FAR_FUTURE);
                c.totp_attempt = c.totp_attempt + 1;
            },
            None => {},
        }
        self.pending_totp_secret = None;
    }

    /// Stores the secret of an enrollment that has been started but not
    /// yet verified.
    pub fn begin_totp_enrollment(&mut self, secret: String)
        ensures
            final(self)@ == (SessionView {
                pending_totp_secret: Some(secret@),
                ..old(self)@
            }),
    {
        self.pending_totp_secret = Some(secret);
    }

    /// Drops a pending enrollment secret.
    pub fn clear_totp_enrollment(&mut self)
        ensures
            final(self)@ == (SessionView { pending_totp_secret: None, ..old(self)@ }),
    {
        self.pending_totp_secret = None;
    }
}

/// Consuming the one-time redirect twice in succession, with no login in
/// between and the second factor still owed, answers `false` the first
/// time and `true` the second: the caller shows the prompt once and forces
/// a re-login afterwards.
pub proof fn lemma_redirect_consumed_once_then_refused(s: SessionView, now1: u64, now2: u64)
    requires
        !s.totp_redirect,
        s.state(now1) == AuthState::NeedsSecondFactor,
        s.redirect_consumed(now1).state(now2) == AuthState::NeedsSecondFactor,
    ensures
        s.redirect_consume_result(now1) == false,
        s.redirect_consumed(now1).redirect_consume_result(now2) == true,
{
}

/// Within one session the attempt counter never decreases: each transition
/// that touches it — a satisfied check, a failed check, a confirmed
/// enrollment — advances it by one.
pub proof fn lemma_attempt_counter_never_decreases(s: SessionView)
    requires
        s.claims matches Some(c) && c.totp_attempt < u64::MAX,
    ensures
        s.second_factor_satisfied().claims matches Some(c2) && (s.claims matches Some(c)
            && c2.totp_attempt == c.totp_attempt + 1),
        s.second_factor_failed().claims matches Some(c2) && (s.claims matches Some(c)
            && c2.totp_attempt == c.totp_attempt + 1),
        s.enrollment_confirmed().claims matches Some(c2) && (s.claims matches Some(c)
            && c2.totp_attempt == c.totp_attempt + 1),
{
}

} // verus!
