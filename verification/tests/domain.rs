use auth_service::auth::AuthService;
use auth_service::auth::LoginOutcome;
use auth_service::auth::TwoFactorNotifier;
use auth_service::email::Email;
use auth_service::errors::TokenError;
use auth_service::hashing::ct_bytes_eq;
use auth_service::hashing::digest64;
use auth_service::password::Password;
use auth_service::requests::handle_login;
use auth_service::requests::handle_signup;
use auth_service::requests::BodyField;
use auth_service::requests::LoginBody;
use auth_service::requests::SignupBody;
use auth_service::two_fa::LoginAttemptId;
use auth_service::two_fa::TwoFACode;
use auth_service::user::User;

struct NoopNotifier;

impl TwoFactorNotifier for NoopNotifier {
    fn notify(&mut self, _email: &Email, _code: &TwoFACode) -> bool {
        true
    }
}

#[test]
fn email_accepts_exactly_one_inner_at_sign() {
    assert!(Email::parse("a@b.com").is_ok());
    assert!(Email::parse("a@b").is_ok());
    assert!(Email::parse("").is_err());
    assert!(Email::parse("random_email").is_err());
    assert!(Email::parse("@b.com").is_err());
    assert!(Email::parse("a@").is_err());
    assert!(Email::parse("a@b@c").is_err());
}

#[test]
fn email_keeps_its_byte_value() {
    let email = Email::parse("a@b.com").unwrap();
    assert_eq!(email.as_bytes(), b"a@b.com");
    assert_eq!(email.clone(), email);
}

#[test]
fn password_needs_eight_bytes() {
    assert!(Password::parse("1234567", 1).is_err());
    assert!(Password::parse("12345678", 1).is_ok());
    assert!(Password::parse("password123", 1).is_ok());
}

#[test]
fn password_digest_matches_same_raw_value_only() {
    let password = Password::parse("password123", 42).unwrap();
    assert!(password.matches("password123"));
    assert!(!password.matches("password1234"));
    assert!(!password.matches("Password123"));
}

#[test]
fn two_fa_code_has_at_most_six_digits() {
    assert!(TwoFACode::parse(0).is_ok());
    assert!(TwoFACode::parse(999999).is_ok());
    assert!(TwoFACode::parse(1000000).is_err());
}

#[test]
fn user_keeps_its_parts() {
    let email = Email::parse("a@b.com").unwrap();
    let password = Password::parse("password123", 1).unwrap();
    let user = User::new(email.clone(), password, true);
    assert_eq!(user.email, email);
    assert_eq!(user.password, password);
    assert!(user.requires_2fa);
}

#[test]
fn constant_time_comparison_agrees_with_equality() {
    assert!(ct_bytes_eq(b"", b""));
    assert!(ct_bytes_eq(b"abc", b"abc"));
    assert!(!ct_bytes_eq(b"abc", b"abd"));
    assert!(!ct_bytes_eq(b"abc", b"abcd"));
}

#[test]
fn digest_is_deterministic_and_seed_sensitive() {
    assert_eq!(digest64(1, b"payload"), digest64(1, b"payload"));
    assert_ne!(digest64(1, b"payload"), digest64(2, b"payload"));
    assert_ne!(digest64(1, b"payload"), digest64(1, b"payloae"));
}

#[test]
fn token_service_reports_each_failure_kind() {
    let mut svc = AuthService::new(7);
    let signup = SignupBody {
        email: BodyField::Given("a@b.com".to_string()),
        password: BodyField::Given("password123".to_string()),
        requires_2fa: BodyField::Given(false),
    };
    handle_signup(&mut svc, &signup, 1).unwrap();
    let body = LoginBody {
        email: BodyField::Given("a@b.com".to_string()),
        password: BodyField::Given("password123".to_string()),
    };
    let mut notifier = NoopNotifier;
    let out = handle_login(
        &mut svc,
        &body,
        LoginAttemptId::new(1),
        TwoFACode::parse(1).unwrap(),
        1000,
        &mut notifier,
    )
    .unwrap();
    let token = match out {
        LoginOutcome::LoggedIn(token) => token,
        _ => panic!("expected a session token"),
    };

    let ok = svc
        .token_service
        .validate(&svc.banned_token_store, &token, 1000);
    assert_eq!(ok.unwrap().as_bytes(), b"a@b.com");

    let garbage = svc
        .token_service
        .validate(&svc.banned_token_store, b"invalid", 1000);
    assert_eq!(garbage.unwrap_err(), TokenError::TokenMalformed);

    let expired = svc
        .token_service
        .validate(&svc.banned_token_store, &token, 2000);
    assert_eq!(expired.unwrap_err(), TokenError::TokenExpired);

    assert_eq!(svc.logout(Some(&token), 1000).status_code(), 200);
    let revoked = svc
        .token_service
        .validate(&svc.banned_token_store, &token, 1000);
    assert_eq!(revoked.unwrap_err(), TokenError::TokenRevoked);
}

#[test]
fn signup_login_logout_scenario() {
    // signup(email="a@b.com", password="password123", requires2FA=false),
    // then login, then logout, then logout again with no cookie.
    let mut svc = AuthService::new(7);
    let signup = SignupBody {
        email: BodyField::Given("a@b.com".to_string()),
        password: BodyField::Given("password123".to_string()),
        requires_2fa: BodyField::Given(false),
    };
    assert_eq!(handle_signup(&mut svc, &signup, 1).unwrap().status_code(), 201);
    let body = LoginBody {
        email: BodyField::Given("a@b.com".to_string()),
        password: BodyField::Given("password123".to_string()),
    };
    let mut notifier = NoopNotifier;
    let out = handle_login(
        &mut svc,
        &body,
        LoginAttemptId::new(1),
        TwoFACode::parse(1).unwrap(),
        1000,
        &mut notifier,
    )
    .unwrap();
    assert_eq!(out.status_code(), 200);
    let token = match out {
        LoginOutcome::LoggedIn(token) => token,
        _ => panic!("expected a session token"),
    };
    let out = svc.logout(Some(&token), 1000);
    assert_eq!(out.status_code(), 200);
    assert!(svc.banned_token_store.is_banned(&token));
    let out = svc.logout(None, 1001);
    assert_eq!(out.status_code(), 400);
    assert_eq!(out.message(), "Missing token");
}
