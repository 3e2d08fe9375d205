//! Registration, login, second-factor verification and TOTP enrollment,
//! run against a real in-memory repository and real one-time codes.

use session_auth::claims::AuthState;
use session_auth::repos::user::{User, UserStore};
use session_auth::repos::{MemoryStore, RepoError, Store};
use session_auth::routes::account::{update_otp, validate_otp, EnrollOutcome};
use session_auth::routes::auth::{
    apply_totp_result, authenticate, authenticate_otp, register_user, session_user, OtpDecision,
};
use session_auth::routes::{AuthError, UserCreateForm, UserForm, ValidateForm};
use session_auth::session::Session;

const NOW: u64 = 1000;
const SECRET: &str = "12345678901234567890";

fn current_code(secret: &str) -> String {
    libreauth::oath::TOTPBuilder::new()
        .ascii_key(secret)
        .finalize()
        .unwrap()
        .generate()
}

fn stored_user(totp_enabled: bool, totp_secret: Option<&str>) -> User {
    User {
        _id: String::from("user-1"),
        username: String::from("alice@example.com"),
        password: String::from("hunter2hunter2"),
        totp_enabled,
        totp_secret: totp_secret.map(String::from),
    }
}

fn store_with(user: User) -> MemoryStore<User> {
    let mut store: MemoryStore<User> = MemoryStore::new();
    store.insert(user).unwrap();
    store
}

fn login_form() -> UserForm {
    UserForm {
        username: String::from("alice@example.com"),
        password: String::from("hunter2hunter2"),
    }
}

#[test]
fn register_then_authenticate() {
    let mut store: MemoryStore<User> = MemoryStore::new();
    let form = UserCreateForm {
        username: String::from("alice@example.com"),
        password: String::from("hunter2hunter2"),
        confirm_password: String::from("hunter2hunter2"),
    };
    let user = register_user(&mut store, form).unwrap();
    assert_eq!(user.username, String::from("alice@example.com"));
    assert!(!user.totp_enabled);
    assert!(user.totp_secret.is_none());
    assert_eq!(user._id.chars().count(), 36);

    let mut session = Session::new();
    assert!(authenticate(&store, &mut session, login_form()).is_ok());
    assert_eq!(session.current_state(NOW), AuthState::Authenticated);
    let claims = session.claims().unwrap();
    assert_eq!(claims.uid, user._id);
    assert_eq!(claims.totp_attempt, 0);
}

#[test]
fn wrong_password_and_unknown_name_look_alike() {
    let store = store_with(stored_user(false, None));
    let mut session = Session::new();
    let wrong_password = authenticate(
        &store,
        &mut session,
        UserForm {
            username: String::from("alice@example.com"),
            password: String::from("not-the-password"),
        },
    );
    let unknown_name = authenticate(
        &store,
        &mut session,
        UserForm {
            username: String::from("nobody@example.com"),
            password: String::from("hunter2hunter2"),
        },
    );
    assert_eq!(wrong_password.unwrap_err(), AuthError::InvalidCredentials);
    assert_eq!(unknown_name.unwrap_err(), AuthError::InvalidCredentials);
    assert_eq!(session.current_state(NOW), AuthState::Anonymous);
    assert_eq!(
        AuthError::InvalidCredentials.message(),
        String::from("invalid credentials")
    );
    assert_eq!(AuthError::InvalidSecondFactor.message(), String::from("invalid otp"));
}

#[test]
fn register_rejects_invalid_forms() {
    let mut store: MemoryStore<User> = MemoryStore::new();
    let bad_email = register_user(
        &mut store,
        UserCreateForm {
            username: String::from("not-an-address"),
            password: String::from("hunter2hunter2"),
            confirm_password: String::from("hunter2hunter2"),
        },
    )
    .unwrap_err();
    assert!(bad_email.email);
    assert!(!bad_email.length);
    assert!(!bad_email.must_match);

    let short = register_user(
        &mut store,
        UserCreateForm {
            username: String::from("alice@example.com"),
            password: String::from("short"),
            confirm_password: String::from("short"),
        },
    )
    .unwrap_err();
    assert!(!short.email);
    assert!(short.length);
    assert!(!short.must_match);

    let mismatch = register_user(
        &mut store,
        UserCreateForm {
            username: String::from("alice@example.com"),
            password: String::from("hunter2hunter2"),
            confirm_password: String::from("hunter2hunter3"),
        },
    )
    .unwrap_err();
    assert!(!mismatch.email);
    assert!(!mismatch.length);
    assert!(mismatch.must_match);

    assert_eq!(store.list().unwrap().len(), 0);

    let empty_name = register_user(
        &mut store,
        UserCreateForm {
            username: String::from(""),
            password: String::from("hunter2hunter2"),
            confirm_password: String::from("hunter2hunter2"),
        },
    )
    .unwrap_err();
    assert!(empty_name.email);
}

#[test]
fn second_factor_verifies_with_a_real_code() {
    let store = store_with(stored_user(true, Some(SECRET)));
    let mut session = Session::new();
    assert!(authenticate(&store, &mut session, login_form()).is_ok());
    assert_eq!(session.current_state(NOW), AuthState::NeedsSecondFactor);

    // A code of the wrong length is never valid, whatever the clock says.
    let rejected = authenticate_otp(
        &mut session,
        &store,
        ValidateForm { code: String::from("12345") },
        NOW,
    );
    assert_eq!(rejected, OtpDecision::Rejected);
    assert_eq!(session.current_state(NOW), AuthState::NeedsSecondFactor);
    assert_eq!(session.claims().unwrap().totp_attempt, 1);

    // A freshly generated code verifies; retry across a window boundary.
    let mut verified = false;
    for _ in 0..3 {
        let outcome = authenticate_otp(
            &mut session,
            &store,
            ValidateForm { code: current_code(SECRET) },
            NOW,
        );
        if outcome == OtpDecision::Verified {
            verified = true;
            break;
        }
        assert_eq!(outcome, OtpDecision::Rejected);
    }
    assert!(verified);
    assert_eq!(session.current_state(NOW), AuthState::Authenticated);
    assert!(session.claims().unwrap().totp_attempt >= 2);
}

#[test]
fn second_factor_not_required_when_fully_authenticated() {
    let store = store_with(stored_user(false, None));
    let mut session = Session::new();
    assert!(authenticate(&store, &mut session, login_form()).is_ok());
    let outcome = authenticate_otp(
        &mut session,
        &store,
        ValidateForm { code: String::from("123456") },
        NOW,
    );
    assert_eq!(outcome, OtpDecision::NotRequired);
    assert_eq!(session.current_state(NOW), AuthState::Authenticated);
}

#[test]
fn stale_claims_are_logged_out_on_lookup() {
    let store = store_with(stored_user(true, Some(SECRET)));
    let empty: MemoryStore<User> = MemoryStore::new();
    let mut session = Session::new();
    assert!(authenticate(&store, &mut session, login_form()).is_ok());
    let outcome = authenticate_otp(
        &mut session,
        &empty,
        ValidateForm { code: String::from("123456") },
        NOW,
    );
    assert_eq!(outcome, OtpDecision::NotRequired);
    assert_eq!(session.current_state(NOW), AuthState::Anonymous);

    let mut session2 = Session::new();
    assert!(authenticate(&store, &mut session2, login_form()).is_ok());
    assert!(session_user(&mut session2, &empty, NOW).is_none());
    assert_eq!(session2.current_state(NOW), AuthState::Anonymous);
}

#[test]
fn session_user_finds_the_stored_record() {
    let store = store_with(stored_user(false, None));
    let mut session = Session::new();
    assert!(session_user(&mut session, &store, NOW).is_none());
    assert!(authenticate(&store, &mut session, login_form()).is_ok());
    let found = session_user(&mut session, &store, NOW).unwrap();
    assert_eq!(found._id, String::from("user-1"));
}

#[test]
fn apply_totp_result_records_both_outcomes() {
    let mut session = Session::new();
    session.login(&stored_user(true, Some(SECRET)));
    apply_totp_result(&mut session, false);
    assert_eq!(session.current_state(NOW), AuthState::NeedsSecondFactor);
    assert_eq!(session.claims().unwrap().totp_attempt, 1);
    apply_totp_result(&mut session, true);
    assert_eq!(session.current_state(NOW), AuthState::Authenticated);
    assert_eq!(session.claims().unwrap().totp_attempt, 2);
}

#[test]
fn enrollment_commits_only_after_verification() {
    let mut store = store_with(stored_user(false, None));
    let mut session = Session::new();
    assert!(authenticate(&store, &mut session, login_form()).is_ok());

    let name = update_otp(&mut session, String::from(SECRET), NOW).unwrap();
    assert_eq!(name, String::from("alice@example.com"));
    assert_eq!(session.pending_totp_secret, Some(String::from(SECRET)));

    // A wrong code never persists the secret.
    let rejected = validate_otp(
        &mut session,
        &mut store,
        ValidateForm { code: String::from("12345") },
        NOW,
    );
    assert_eq!(rejected, EnrollOutcome::Rejected);
    assert!(!store.get_by_id(String::from("user-1")).unwrap().totp_enabled);
    assert!(store.get_by_id(String::from("user-1")).unwrap().totp_secret.is_none());

    let mut committed = false;
    for _ in 0..3 {
        let outcome = validate_otp(
            &mut session,
            &mut store,
            ValidateForm { code: current_code(SECRET) },
            NOW,
        );
        if outcome == EnrollOutcome::Committed {
            committed = true;
            break;
        }
        assert_eq!(outcome, EnrollOutcome::Rejected);
    }
    assert!(committed);
    let updated = store.get_by_id(String::from("user-1")).unwrap();
    assert!(updated.totp_enabled);
    assert_eq!(updated.totp_secret, Some(String::from(SECRET)));
    assert!(session.pending_totp_secret.is_none());
    let claims = session.claims().unwrap();
    assert!(claims.totp_enabled);
    assert!(claims.totp.is_some());
    assert_eq!(session.current_state(NOW), AuthState::Authenticated);
}

#[test]
fn enrollment_needs_a_pending_secret_and_a_signed_in_user() {
    let mut store = store_with(stored_user(false, None));
    let mut session = Session::new();
    let anonymous = validate_otp(
        &mut session,
        &mut store,
        ValidateForm { code: String::from("123456") },
        NOW,
    );
    assert_eq!(anonymous, EnrollOutcome::NotSignedIn);
    assert!(update_otp(&mut session, String::from(SECRET), NOW).is_err());

    assert!(authenticate(&store, &mut session, login_form()).is_ok());
    let no_pending = validate_otp(
        &mut session,
        &mut store,
        ValidateForm { code: String::from("123456") },
        NOW,
    );
    assert_eq!(no_pending, EnrollOutcome::NoPendingEnrollment);
}

#[test]
fn store_keeps_records_addressable() {
    let mut store: MemoryStore<User> = MemoryStore::new();
    assert_eq!(
        store.get_by_id(String::from("user-1")).unwrap_err(),
        RepoError::NotFound
    );
    let inserted = store.insert(stored_user(false, None)).unwrap();
    assert_eq!(inserted._id, String::from("user-1"));
    let fetched = store.get_by_id(String::from("user-1")).unwrap();
    assert_eq!(fetched.username, String::from("alice@example.com"));
    assert_eq!(store.list().unwrap().len(), 1);
    assert_eq!(
        store
            .update_totp_enrollment(&String::from("missing"), String::from(SECRET))
            .unwrap_err(),
        RepoError::NotFound
    );
    let updated = store
        .update_totp_enrollment(&String::from("user-1"), String::from(SECRET))
        .unwrap();
    assert!(updated.totp_enabled);
    assert_eq!(updated.totp_secret, Some(String::from(SECRET)));
}
