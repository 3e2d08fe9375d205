//! Registration, login and second-factor verification.

use vstd::prelude::*;

verus! {

use crate::claims::AuthState;
use crate::repos::id_matches;
use crate::repos::user::{credentials_match, User, UserStore};
use crate::repos::{MemoryStore, Store};
use crate::routes::{AuthError, FormErrors, UserCreateForm, UserForm, ValidateForm};
use crate::session::{Session, SessionView};
use vstd::pervasive::unreached;

/// Whether some stored user carries the identifier `id`.
pub open spec fn stored_user_with_id(cache: Seq<User>, id: Seq<char>) -> bool {
    exists|i: int| 0 <= i < cache.len() && #[trigger] id_matches(cache[i], id)
}

/// Whether `u` is the first stored user carrying the identifier `id`.
pub open spec fn is_first_user_with_id(cache: Seq<User>, id: Seq<char>, u: User) -> bool {
    exists|i: int|
        0 <= i < cache.len() && #[trigger] id_matches(cache[i], id) && cache[i] == u && (forall|
            j: int,
        |
            0 <= j < i ==> !id_matches(cache[j], id))
}

/// Whether some stored user matches the submitted credentials.
pub open spec fn stored_user_with_credentials(
    cache: Seq<User>,
    username: Seq<char>,
    password: Seq<char>,
) -> bool {
    exists|i: int|
        0 <= i < cache.len() && #[trigger] credentials_match(cache[i]@, username, password)
}

/// Whether `u` is the first stored user matching the submitted credentials.
pub open spec fn is_first_credential_match(
    cache: Seq<User>,
    username: Seq<char>,
    password: Seq<char>,
    u: User,
) -> bool {
    exists|i: int|
        0 <= i < cache.len() && #[trigger] credentials_match(cache[i]@, username, password)
            && cache[i] == u && (forall|j: int|
            0 <= j < i ==> !credentials_match(cache[j]@, username, password))
}

/// A fresh identifier for a new user record.
///
/// Relies on `uuid::Uuid::new_v4` and its hyphenated `Display` form: a
/// version-4 UUID always prints as 36 characters. Nothing more is promised:
/// the value is random.
#[verifier::external_body]
fn new_user_id() -> (r: String)
    ensures
        r@.len() == 36,
{
    uuid::Uuid::new_v4().to_string()
}

/// Registration: when the form passes validation, a new user with a fresh
/// identifier, no second factor, and the submitted credentials is appended
/// to the repository and handed back; otherwise the failed checks come
/// back and the repository is untouched.
pub fn register_user(store: &mut MemoryStore<User>, form: UserCreateForm) -> (r: Result<
    User,
    FormErrors,
>)
    ensures
        r is Ok <==> form.spec_valid(),
        r matches Ok(u) ==> {
            &&& u.username@ == form.username@
            &&& u.password@ == form.password@
            &&& u.totp_enabled == false
            &&& u.totp_secret is None
            &&& u._id@.len() == 36
            &&& final(store).cache@ == old(store).cache@.push(u)
        },
        r matches Err(e) ==> {
            &&& *final(store) == *old(store)
            &&& e.email == !crate::routes::valid_email(form.username@)
            &&& e.length == (form.password@.len() < 10)
            &&& e.must_match == (form.password@ != form.confirm_password@)
        },
{
    match form.validate() {
        Err(e) => Err(e),
        Ok(()) => {
            let id = new_user_id();
            let user = User {
                _id: id,
                username: form.username,
                password: form.password,
                totp_enabled: false,
                totp_secret: None,
            };
            match store.insert(user) {
                Ok(u) => {
                    proof {
                        assert(final(store).cache@ =~= old(store).cache@.push(u));
                    }
                    Ok(u)
                },
                Err(_) => unreached(),
            }
        },
    }
}

/// Login: checks the submitted primary credentials against the repository
/// and, exactly on a match, writes fresh claims for the matched user into
/// the session. On a mismatch or an unknown name the session is untouched
/// and the one generic credential error comes back.
pub fn authenticate(store: &MemoryStore<User>, session: &mut Session, form: UserForm) -> (r: Result<
    (),
    AuthError,
>)
    ensures
        r is Ok <==> stored_user_with_credentials(store.cache@, form.username@, form.password@),
        r is Ok ==> exists|u: User|
            #[trigger] is_first_credential_match(store.cache@, form.username@, form.password@, u)
                && final(session)@ == old(session)@.logged_in(u@),
        r matches Err(e) ==> e == AuthError::InvalidCredentials && final(session)@ == old(session)@,
{
    match store.authenticate(form.username, form.password) {
        Ok(user) => {
            session.login(&user);
            proof {
                assert(is_first_credential_match(
                    store.cache@,
                    form.username@,
                    form.password@,
                    user,
                ));
            }
            Ok(())
        },
        Err(_) => Err(AuthError::InvalidCredentials),
    }
}

/// The stored user the session's claims point at, when the session is not
/// anonymous at `now`. Claims that point at no stored user are stale: the
/// session is logged out and nothing comes back.
pub fn session_user(session: &mut Session, store: &MemoryStore<User>, now: u64) -> (r: Option<
    User,
>)
    ensures
        match r {
            Some(u) => {
                &&& old(session)@.state(now) != AuthState::Anonymous
                &&& old(session)@.claims matches Some(c) && is_first_user_with_id(
                    store.cache@,
                    c.uid,
                    u,
                )
                &&& final(session)@ == old(session)@
            },
            None => {
                ||| (old(session)@.state(now) == AuthState::Anonymous && final(session)@ == old(session)@)
                ||| (old(session)@.state(now) != AuthState::Anonymous && (old(session)@.claims matches Some(c) && !stored_user_with_id(store.cache@, c.uid)) && final(session)@ == SessionView::empty())
            },
        },
{
    if !session.is_authenticated(now) {
        return None;
    }
    let uid = match &session.claims {
        Some(c) => c.uid.clone(),
        None => unreached(),
    };
    match store.get_by_id(uid) {
        Ok(u) => Some(u),
        Err(_) => {
            session.logout();
            None
        },
    }
}

/// What the second-factor submission endpoint did with one request.
#[derive(Clone, Copy, Debug, PartialEq, Eq, Structural)]
pub enum OtpDecision {
    /// The session owes no second factor here (anonymous, already
    /// authenticated, stale claims, or no secret on record): nothing to
    /// verify, the caller redirects home.
    NotRequired,
    /// The code verified: the second factor is now satisfied.
    Verified,
    /// The code did not verify: the attempt was recorded, the factor is
    /// still owed.
    Rejected,
}

/// Applies the outcome of a one-time-code check to the session: a valid
/// code satisfies the second factor, an invalid one records the failed
/// attempt. Either way the attempt counter advances.
pub fn apply_totp_result(session: &mut Session, valid: bool)
    requires
        old(session)@.claims matches Some(c) && c.totp_attempt < u64::MAX,
    ensures
        valid ==> final(session)@ == old(session)@.second_factor_satisfied(),
        !valid ==> final(session)@ == old(session)@.second_factor_failed(),
{
    if valid {
        session.satisfy_second_factor();
    } else {
        session.fail_second_factor();
    }
}

/// Second-factor verification: while the session owes the second factor
/// and its claims point at a stored user with a TOTP secret, the submitted
/// code is checked against that secret; the session records the outcome.
/// In every other state nothing is verified and the session is only
/// touched to discard stale claims.
pub fn authenticate_otp(
    session: &mut Session,
    store: &MemoryStore<User>,
    form: ValidateForm,
    now: u64,
) -> (r: OtpDecision)
    requires
        old(session)@.claims matches Some(c) ==> c.totp_attempt < u64::MAX,
    ensures
        old(session)@.state(now) == AuthState::Anonymous ==> r == OtpDecision::NotRequired && final(session)@ == old(session)@,
        old(session)@.claims matches Some(c) ==> {
            &&& (old(session)@.state(now) != AuthState::Anonymous && !stored_user_with_id(
                store.cache@,
                c.uid,
            ) ==> r == OtpDecision::NotRequired && final(session)@ == SessionView::empty())
            &&& (old(session)@.state(now) == AuthState::Authenticated && stored_user_with_id(
                store.cache@,
                c.uid,
            ) ==> r == OtpDecision::NotRequired && final(session)@ == old(session)@)
            &&& (old(session)@.state(now) == AuthState::NeedsSecondFactor && stored_user_with_id(
                store.cache@,
                c.uid,
            ) ==> forall|u: User|
                #[trigger] is_first_user_with_id(store.cache@, c.uid, u) ==> {
                    if u@.totp_secret is None {
                        r == OtpDecision::NotRequired && final(session)@ == old(session)@
                    } else {
                        ||| (r == OtpDecision::Verified && final(session)@ == old(session)@.second_factor_satisfied())
                        ||| (r == OtpDecision::Rejected && final(session)@ == old(session)@.second_factor_failed())
                    }
                })
        },
{
    match session_user(session, store, now) {
        None => OtpDecision::NotRequired,
        Some(user) => {
            if !session.requires_totp(now) {
                return OtpDecision::NotRequired;
            }
            match &user.totp_secret {
                None => OtpDecision::NotRequired,
                Some(secret) => {
                    let valid = crate::totp::verify_totp(secret.as_str(), form.code.as_str());
                    apply_totp_result(session, valid);
                    if valid {
                        OtpDecision::Verified
                    } else {
                        OtpDecision::Rejected
                    }
                },
            }
        },
    }
}

} // verus!
