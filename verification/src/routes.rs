//! Request-level decisions shared by the routes: the submitted forms,
//! their validation, and what the anonymous entry point shows.

use vstd::prelude::*;

pub mod account;
pub mod auth;

verus! {

use crate::claims::AuthState;
use crate::session::Session;
use vstd::string::StrSliceExecFns;

/// The login form: primary credentials as submitted.
pub struct UserForm {
    pub username: String,
    pub password: String,
}

/// The registration form.
pub struct UserCreateForm {
    pub username: String,
    pub password: String,
    pub confirm_password: String,
}

/// A submitted one-time code.
pub struct ValidateForm {
    pub code: String,
}

/// An authentication failure surfaced to the user. Both variants map to a
/// deliberately generic message: the first never tells an unknown name
/// from a wrong password, the second never reveals remaining attempts.
#[derive(Clone, Copy, Debug, PartialEq, Eq, Structural)]
pub enum AuthError {
    InvalidCredentials,
    InvalidSecondFactor,
}

impl AuthError {
    /// The generic message shown to the user: it never distinguishes an
    /// unknown name from a wrong password, and never reveals how many
    /// second-factor attempts were made.
    pub fn message(&self) -> (r: String)
        ensures
            *self == AuthError::InvalidCredentials ==> r@ == "invalid credentials"@,
            *self == AuthError::InvalidSecondFactor ==> r@ == "invalid otp"@,
    {
        match self {
            AuthError::InvalidCredentials => "invalid credentials".to_owned(),
            AuthError::InvalidSecondFactor => "invalid otp".to_owned(),
        }
    }
}

/// Which checks a registration form failed.
#[derive(Clone, Copy, Debug, PartialEq, Eq, Structural)]
pub struct FormErrors {
    /// The username is not a valid e-mail address.
    pub email: bool,
    /// The password is shorter than ten characters.
    pub length: bool,
    /// Password and confirmation differ.
    pub must_match: bool,
}

/// Whether `s` is a valid e-mail address by the HTML5 definition; the
/// definition is the one validator implements, named rather than restated.
pub uninterp spec fn valid_email(s: Seq<char>) -> bool;

/// Relies on validator's `ValidateEmail` for `&str`: whether `s` is a
/// valid e-mail address by the HTML5 definition. The answer is a function
/// of the characters alone; an empty string is never valid.
#[verifier::external_body]
fn check_email(s: &str) -> (r: bool)
    ensures
        r == valid_email(s@),
        s@.len() == 0 ==> !r,
{
    validator::ValidateEmail::validate_email(&s)
}

impl UserCreateForm {
    /// Whether this form satisfies every registration rule.
    pub open spec fn spec_valid(self) -> bool {
        valid_email(self.username@) && self.password@.len() >= 10 && self.password@
            == self.confirm_password@
    }

    /// Checks the form: the username must be an e-mail address, the
    /// password at least ten characters, and the confirmation equal to the
    /// password. `Ok` exactly when all three hold; otherwise every failed
    /// check is flagged.
    pub fn validate(&self) -> (r: Result<(), FormErrors>)
        ensures
            r is Ok <==> self.spec_valid(),
            r matches Err(e) ==> {
                &&& e.email == !valid_email(self.username@)
                &&& e.length == (self.password@.len() < 10)
                &&& e.must_match == (self.password@ != self.confirm_password@)
            },
    {
        let email_ok = check_email(self.username.as_str());
        let length_ok = self.password.as_str().unicode_len() >= 10;
        let match_ok = self.password == self.confirm_password;
        if email_ok && length_ok && match_ok {
            Ok(())
        } else {
            Err(FormErrors { email: !email_ok, length: !length_ok, must_match: !match_ok })
        }
    }
}

/// What the anonymous entry point renders.
#[derive(Clone, Copy, Debug, PartialEq, Eq, Structural)]
pub enum IndexPage {
    /// No live claims: the login page.
    Login,
    /// The second factor is still owed: the one-time-code prompt.
    OtpPrompt,
    /// Fully authenticated: the home page.
    Home,
}

/// Which page the entry point shows for the session's state at `now`.
pub fn index_page(session: &Session, now: u64) -> (r: IndexPage)
    ensures
        r == (match session@.state(now) {
            AuthState::Anonymous => IndexPage::Login,
            AuthState::NeedsSecondFactor => IndexPage::OtpPrompt,
            AuthState::Authenticated => IndexPage::Home,
        }),
{
    match session.current_state(now) {
        AuthState::Anonymous => IndexPage::Login,
        AuthState::NeedsSecondFactor => IndexPage::OtpPrompt,
        AuthState::Authenticated => IndexPage::Home,
    }
}

} // verus!
