use auth_service::auth::AuthService;
use auth_service::auth::LoginOutcome;
use auth_service::auth::TwoFactorNotifier;
use auth_service::email::Email;
use auth_service::requests::handle_login;
use auth_service::requests::handle_signup;
use auth_service::requests::BodyField;
use auth_service::requests::LoginBody;
use auth_service::requests::SignupBody;
use auth_service::two_fa::LoginAttemptId;
use auth_service::two_fa::TwoFACode;

struct SilentNotifier;

impl TwoFactorNotifier for SilentNotifier {
    fn notify(&mut self, _email: &Email, _code: &TwoFACode) -> bool {
        true
    }
}

fn logged_in_token(svc: &mut AuthService, email: &str, password: &str) -> Vec<u8> {
    let signup = SignupBody {
        email: BodyField::Given(email.to_string()),
        password: BodyField::Given(password.to_string()),
        requires_2fa: BodyField::Given(false),
    };
    let out = handle_signup(svc, &signup, 1).unwrap();
    assert_eq!(out.status_code(), 201);
    let body = LoginBody {
        email: BodyField::Given(email.to_string()),
        password: BodyField::Given(password.to_string()),
    };
    let mut notifier = SilentNotifier;
    let out = handle_login(
        svc,
        &body,
        LoginAttemptId::new(11),
        TwoFACode::parse(123456).unwrap(),
        1000,
        &mut notifier,
    )
    .unwrap();
    assert_eq!(out.status_code(), 200);
    match out {
        LoginOutcome::LoggedIn(token) => {
            assert!(!token.is_empty(), "No auth cookie found");
            token
        }
        _ => panic!("No auth cookie found"),
    }
}

#[test]
fn should_return_200_if_valid_jwt_cookie() {
    let mut svc = AuthService::new(7);
    let token = logged_in_token(&mut svc, "test@example.com", "password123");
    let out = svc.logout(Some(&token), 1000);
    assert_eq!(out.status_code(), 200);
    assert!(
        svc.banned_token_store.is_banned(&token),
        "Failed to check if token is banned"
    );
}

#[test]
fn should_return_400_if_logout_called_twice_in_a_row() {
    let mut svc = AuthService::new(7);
    let token = logged_in_token(&mut svc, "test@example.com", "password123");
    let out = svc.logout(Some(&token), 1000);
    assert_eq!(out.status_code(), 200);
    // The first logout cleared the cookie, so the second call presents none.
    let out = svc.logout(None, 1001);
    assert_eq!(out.status_code(), 400);
    assert_eq!(out.message(), "Missing token");
}

#[test]
fn should_return_400_if_jwt_cookie_missing() {
    let mut svc = AuthService::new(7);
    let out = svc.logout(None, 1000);
    assert_eq!(out.status_code(), 400);
}

#[test]
fn logout_should_return_401_if_invalid_token() {
    let mut svc = AuthService::new(7);
    let cookie = b"invalid".to_vec();
    let out = svc.logout(Some(&cookie), 1000);
    assert_eq!(out.status_code(), 401);
    assert_eq!(out.message(), "Invalid token");
}

#[test]
fn logout_with_stale_banned_cookie_is_unauthorized() {
    let mut svc = AuthService::new(7);
    let token = logged_in_token(&mut svc, "test@example.com", "password123");
    assert_eq!(svc.logout(Some(&token), 1000).status_code(), 200);
    // A stale cookie somehow presented again: the banned token fails
    // validation, which is unauthorized, not a missing token.
    let out = svc.logout(Some(&token), 1001);
    assert_eq!(out.status_code(), 401);
    assert_eq!(out.message(), "Invalid token");
}
