use auth_service::auth::AuthService;
use auth_service::auth::LoginOutcome;
use auth_service::auth::TwoFactorNotifier;
use auth_service::email::Email;
use auth_service::requests::handle_login;
use auth_service::requests::handle_signup;
use auth_service::requests::handle_verify_token;
use auth_service::requests::BodyField;
use auth_service::requests::LoginBody;
use auth_service::requests::SignupBody;
use auth_service::requests::VerifyTokenBody;
use auth_service::two_fa::LoginAttemptId;
use auth_service::two_fa::TwoFACode;

struct QuietNotifier;

impl TwoFactorNotifier for QuietNotifier {
    fn notify(&mut self, _email: &Email, _code: &TwoFACode) -> bool {
        true
    }
}

fn fresh_token(svc: &mut AuthService, email: &str, password: &str) -> Vec<u8> {
    let signup = SignupBody {
        email: BodyField::Given(email.to_string()),
        password: BodyField::Given(password.to_string()),
        requires_2fa: BodyField::Given(false),
    };
    let out = handle_signup(svc, &signup, 1).unwrap();
    assert_eq!(out.status_code(), 201);
    let body = LoginBody {
        email: BodyField::Given(email.to_string()),
        password: BodyField::Given(password.to_string()),
    };
    let mut notifier = QuietNotifier;
    let out = handle_login(
        svc,
        &body,
        LoginAttemptId::new(11),
        TwoFACode::parse(123456).unwrap(),
        1000,
        &mut notifier,
    )
    .unwrap();
    assert_eq!(out.status_code(), 200);
    match out {
        LoginOutcome::LoggedIn(token) => {
            assert!(!token.is_empty(), "No auth cookie found");
            token
        }
        _ => panic!("No auth cookie found"),
    }
}

#[test]
fn should_return_200_valid_token() {
    let mut svc = AuthService::new(7);
    let token = fresh_token(&mut svc, "test@example.com", "password123");
    let body = VerifyTokenBody {
        token: BodyField::Given(token),
    };
    let out = handle_verify_token(&svc, &body, 1000).unwrap();
    assert_eq!(out.status_code(), 200);
}

#[test]
fn verify_token_should_return_401_if_invalid_token() {
    let svc = AuthService::new(7);
    let body = VerifyTokenBody {
        token: BodyField::Given(b"invalid".to_vec()),
    };
    let out = handle_verify_token(&svc, &body, 1000).unwrap();
    assert_eq!(out.status_code(), 401);
}

#[test]
fn should_return_401_if_banned_token() {
    let svc = AuthService::new(7);
    let cases: Vec<&[u8]> = vec![b"nope", b"this shouldn't work", b"or this"];
    for case in cases {
        let body = VerifyTokenBody {
            token: BodyField::Given(case.to_vec()),
        };
        let out = handle_verify_token(&svc, &body, 1000).unwrap();
        assert_eq!(out.status_code(), 401);
        assert_eq!(out.message(), "Invalid token");
    }
}

#[test]
fn verify_token_should_return_422_if_malformed_input() {
    let svc = AuthService::new(7);
    let body = VerifyTokenBody {
        token: BodyField::WrongType,
    };
    let err = handle_verify_token(&svc, &body, 1000).unwrap_err();
    assert_eq!(err.status_code(), 422);
}

#[test]
fn token_banned_by_logout_fails_verification() {
    let mut svc = AuthService::new(7);
    let token = fresh_token(&mut svc, "test@example.com", "password123");
    let body = VerifyTokenBody {
        token: BodyField::Given(token.clone()),
    };
    assert_eq!(handle_verify_token(&svc, &body, 1000).unwrap().status_code(), 200);
    assert_eq!(svc.logout(Some(&token), 1000).status_code(), 200);
    let out = handle_verify_token(&svc, &body, 1000).unwrap();
    assert_eq!(out.status_code(), 401);
    assert_eq!(out.message(), "Invalid token");
}

#[test]
fn expired_token_fails_verification() {
    let mut svc = AuthService::new(7);
    let token = fresh_token(&mut svc, "test@example.com", "password123");
    let body = VerifyTokenBody {
        token: BodyField::Given(token),
    };
    // Issued at 1000 with a 600-second lifetime: usable at 1600, gone at 1601.
    assert_eq!(handle_verify_token(&svc, &body, 1600).unwrap().status_code(), 200);
    assert_eq!(handle_verify_token(&svc, &body, 1601).unwrap().status_code(), 401);
}

#[test]
fn tampered_token_fails_verification() {
    let mut svc = AuthService::new(7);
    let mut token = fresh_token(&mut svc, "test@example.com", "password123");
    let last = token.len() - 1;
    token[last] ^= 1;
    let body = VerifyTokenBody {
        token: BodyField::Given(token),
    };
    assert_eq!(handle_verify_token(&svc, &body, 1000).unwrap().status_code(), 401);
}
