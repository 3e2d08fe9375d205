//! The route guard: the interceptor a router runs before a protected
//! handler, enforcing the authentication state machine's verdict.

use vstd::prelude::*;

verus! {

use crate::claims::AuthState;
use crate::session::{Session, SessionView};

/// What the guard tells the surrounding router to do with one request.
#[derive(Clone, Copy, Debug, PartialEq, Eq, Structural)]
pub enum GuardDecision {
    /// Fully authenticated: run the protected handler unchanged.
    Allow,
    /// Anonymous: redirect to the anonymous entry point; the handler never
    /// runs.
    RedirectHome,
    /// Second factor owed, first guarded request: redirect to the
    /// second-factor prompt; the handler never runs.
    RedirectSecondFactor,
    /// Second factor owed and the one-time redirect already used: the
    /// session has been logged out; redirect to the anonymous entry point.
    ForceLogout,
}

/// A route that can put itself behind the guard. Routers implement this
/// for their own route type; the library only states the shape.
pub trait RouteExt {
    fn authenticated(&mut self) -> &mut Self;
}

/// The guard itself. It owns no state: everything it decides comes from
/// the session and the instant of the request.
pub struct AuthenticatedMiddleware {}

impl AuthenticatedMiddleware {
    /// Decides one guarded request at instant `now`.
    ///
    /// Anonymous sessions are turned away; a session owing the second
    /// factor is redirected to the prompt exactly once and forcibly logged
    /// out when it comes back unverified; a fully authenticated session
    /// passes through untouched.
    pub fn handle(&self, session: &mut Session, now: u64) -> (r: GuardDecision)
        ensures
            old(session)@.state(now) == AuthState::Anonymous ==> r == GuardDecision::RedirectHome
                && final(session)@ == old(session)@,
            old(session)@.state(now) == AuthState::NeedsSecondFactor && !old(session)@.totp_redirect ==> r == GuardDecision::RedirectSecondFactor && final(session)@ == (
            SessionView { totp_redirect: true, ..old(session)@ }),
            old(session)@.state(now) == AuthState::NeedsSecondFactor && old(session)@.totp_redirect ==> r == GuardDecision::ForceLogout && final(session)@
                == SessionView::empty(),
            old(session)@.state(now) == AuthState::Authenticated ==> r == GuardDecision::Allow
                && final(session)@ == old(session)@,
    {
        if !session.is_authenticated(now) {
            return GuardDecision::RedirectHome;
        }
        if session.prevent_totp_redirect(now) {
            // The one-time redirect was already used: the user is stuck at
            // the prompt and must re-authenticate rather than loop.
            session.logout();
            return GuardDecision::ForceLogout;
        }
        if session.requires_totp(now) {
            return GuardDecision::RedirectSecondFactor;
        }
        GuardDecision::Allow
    }
}

} // verus!
