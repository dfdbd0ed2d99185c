use auth_service::auth::AuthService;
use auth_service::auth::LoginOutcome;
use auth_service::auth::TwoFactorNotifier;
use auth_service::email::Email;
use auth_service::requests::handle_login;
use auth_service::requests::handle_signup;
use auth_service::requests::BodyField;
use auth_service::requests::LoginBody;
use auth_service::requests::SignupBody;
use auth_service::two_fa::LoginAttemptId;
use auth_service::two_fa::TwoFACode;

struct CountingNotifier {
    deliveries: usize,
}

impl TwoFactorNotifier for CountingNotifier {
    fn notify(&mut self, _email: &Email, _code: &TwoFACode) -> bool {
        self.deliveries += 1;
        true
    }
}

fn login_signup_body(email: &str, password: &str, requires_2fa: bool) -> SignupBody {
    SignupBody {
        email: BodyField::Given(email.to_string()),
        password: BodyField::Given(password.to_string()),
        requires_2fa: BodyField::Given(requires_2fa),
    }
}

fn login_body(email: &str, password: &str) -> LoginBody {
    LoginBody {
        email: BodyField::Given(email.to_string()),
        password: BodyField::Given(password.to_string()),
    }
}

#[test]
fn should_return_200_if_valid_credentials_and_2fa_disabled() {
    let mut svc = AuthService::new(7);
    let mut notifier = CountingNotifier { deliveries: 0 };
    let signup = login_signup_body("test@example.com", "password123", false);
    let out = handle_signup(&mut svc, &signup, 1).unwrap();
    assert_eq!(out.status_code(), 201);

    let body = login_body("test@example.com", "password123");
    let out = handle_login(
        &mut svc,
        &body,
        LoginAttemptId::new(11),
        TwoFACode::parse(123456).unwrap(),
        1000,
        &mut notifier,
    )
    .unwrap();
    assert_eq!(out.status_code(), 200);
    match out {
        LoginOutcome::LoggedIn(token) => assert!(!token.is_empty(), "No auth cookie found"),
        _ => panic!("No auth cookie found"),
    }
    assert_eq!(notifier.deliveries, 0);
}

#[test]
fn should_return_206_if_valid_credentials_and_2fa_enabled() {
    let mut svc = AuthService::new(7);
    let mut notifier = CountingNotifier { deliveries: 0 };
    let signup = login_signup_body("test@example.com", "password123", true);
    let out = handle_signup(&mut svc, &signup, 1).unwrap();
    assert_eq!(out.status_code(), 201);

    let body = login_body("test@example.com", "password123");
    let out = handle_login(
        &mut svc,
        &body,
        LoginAttemptId::new(11),
        TwoFACode::parse(123456).unwrap(),
        1000,
        &mut notifier,
    )
    .unwrap();
    assert_eq!(out.status_code(), 206);
    assert_eq!(out.message(), "2FA required");

    let returned_id = match out {
        LoginOutcome::TwoFactorRequired(id) => id,
        _ => panic!("expected the two-factor step-up"),
    };
    let email = Email::parse("test@example.com").unwrap();
    let (stored_id, _stored_code) = svc
        .two_fa_code_store
        .get_code(&email)
        .expect("Error getting 2FA code");
    assert_eq!(stored_id, returned_id);
    assert_eq!(notifier.deliveries, 1);
}

#[test]
fn should_return_422_if_malformed_credentials() {
    let mut svc = AuthService::new(7);
    let mut notifier = CountingNotifier { deliveries: 0 };
    let cases = [
        LoginBody {
            email: BodyField::Missing,
            password: BodyField::Given("password123".to_string()),
        },
        LoginBody {
            email: BodyField::Given("password123".to_string()),
            password: BodyField::Missing,
        },
        LoginBody {
            email: BodyField::WrongType,
            password: BodyField::Given("password123".to_string()),
        },
        LoginBody {
            email: BodyField::WrongType,
            password: BodyField::WrongType,
        },
        LoginBody {
            email: BodyField::Given("test@example.com".to_string()),
            password: BodyField::WrongType,
        },
    ];
    for body in cases.iter() {
        let err = handle_login(
            &mut svc,
            body,
            LoginAttemptId::new(11),
            TwoFACode::parse(123456).unwrap(),
            1000,
            &mut notifier,
        )
        .unwrap_err();
        assert_eq!(err.status_code(), 422, "Failed for input: {:?}", body);
    }
}

#[test]
fn login_should_return_400_if_invalid_input() {
    let mut svc = AuthService::new(7);
    let mut notifier = CountingNotifier { deliveries: 0 };
    let signup = login_signup_body("test@example.com", "password123", true);
    handle_signup(&mut svc, &signup, 1).unwrap();
    let cases = [
        login_body("test@example.com", "p23"),
        login_body("", "password123"),
        login_body("random_email", "password123"),
        login_body("random_email", "ord123"),
    ];
    for body in cases.iter() {
        let out = handle_login(
            &mut svc,
            body,
            LoginAttemptId::new(11),
            TwoFACode::parse(123456).unwrap(),
            1000,
            &mut notifier,
        )
        .unwrap();
        assert_eq!(out.status_code(), 400, "Failed for input: {:?}", body);
        assert_eq!(out.message(), "Invalid credentials");
    }
}

#[test]
fn should_return_401_if_incorrect_credentials() {
    let mut svc = AuthService::new(7);
    let mut notifier = CountingNotifier { deliveries: 0 };
    let signup = login_signup_body("test@example.com", "password123", true);
    handle_signup(&mut svc, &signup, 1).unwrap();
    let body = login_body("test@example.com", "password1234");
    let out = handle_login(
        &mut svc,
        &body,
        LoginAttemptId::new(11),
        TwoFACode::parse(123456).unwrap(),
        1000,
        &mut notifier,
    )
    .unwrap();
    assert_eq!(out.status_code(), 401);
}
