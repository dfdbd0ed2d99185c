//! The orchestrator: five flows over the shared stores.
//!
//! Signup, login with an optional two-factor step-up, challenge
//! verification, logout, and token introspection.  Each flow's behaviour is
//! captured by a transition predicate relating the state before the call,
//! the state after it, the inputs, and the outcome; the flow's `ensures`
//! states exactly that predicate, and the law lemmas build on the
//! predicates alone.
//!
//! Randomness and the clock enter as plain arguments: the caller supplies
//! the per-user salt, the attempt identifier, the fresh code, and the
//! current instant, and every flow is verified for all values of them.

use vstd::prelude::*;

use crate::banned_store::BannedTokenStore;
use crate::email::valid_email;
use crate::email::Email;
use crate::password::password_digest;
use crate::password::Password;
use crate::password::MIN_PASSWORD_BYTES;
use crate::token::spec_token_bytes;
use crate::token::spec_token_expiry;
use crate::token::spec_token_subject;
use crate::token::token_wf;
use crate::token::TokenService;
use crate::two_fa::LoginAttemptId;
use crate::two_fa::TwoFACode;
use crate::two_fa::TwoFACodeStore;
use crate::user::User;
use crate::user_store::UserStore;
use vstd::string::StringSliceAdditionalSpecFns;

verus! {

/// Delivery capability for a freshly stored two-factor code.  The
/// orchestrator invokes it after the challenge is already persisted and
/// swallows a failed delivery: the challenge stays verifiable either way.
pub trait TwoFactorNotifier {
    /// Delivers the code to the address; reports whether delivery worked.
    fn notify(&mut self, email: &Email, code: &TwoFACode) -> bool;
}

/// Outcome of the signup flow.
#[derive(Clone, Copy, Debug, PartialEq, Eq, Structural)]
pub enum SignupOutcome {
    /// The account was created.
    Created,
    /// The email shape or the password strength was rejected.
    InvalidCredentials,
    /// The email is already registered.
    UserAlreadyExists,
}

/// Outcome of the login flow.
#[derive(Debug)]
pub enum LoginOutcome {
    /// Credentials accepted, no step-up required: a session token.
    LoggedIn(Vec<u8>),
    /// Credentials accepted, step-up required: the attempt identifier of
    /// the stored challenge, and never the code.
    TwoFactorRequired(LoginAttemptId),
    /// The email shape or the password strength was rejected.
    InvalidCredentials,
    /// The credentials do not match a registered account.
    IncorrectCredentials,
}

/// Outcome of the two-factor verification flow.
#[derive(Debug)]
pub enum TwoFactorOutcome {
    /// Challenge redeemed: a session token.
    LoggedIn(Vec<u8>),
    /// No challenge under the email, or a mismatching identifier or code;
    /// a stored challenge is left intact for a legitimate retry.
    Unauthorized,
}

/// Outcome of the logout flow.
#[derive(Clone, Copy, Debug, PartialEq, Eq, Structural)]
pub enum LogoutOutcome {
    /// The presented token was banned.
    LoggedOut,
    /// No cookie was presented.
    MissingToken,
    /// The presented token does not validate.
    InvalidToken,
}

/// Outcome of the token introspection flow.
#[derive(Clone, Copy, Debug, PartialEq, Eq, Structural)]
pub enum VerifyTokenOutcome {
    /// The token is usable.
    Valid,
    /// The token is malformed, expired, or revoked.
    InvalidToken,
}

/// The five flows composed over the shared stores.
#[derive(Debug)]
pub struct AuthService {
    pub user_store: UserStore,
    pub two_fa_code_store: TwoFACodeStore,
    pub banned_token_store: BannedTokenStore,
    pub token_service: TokenService,
}

/// Both keyed stores hold at most one record per email.
pub open spec fn service_wf(s: AuthService) -> bool {
    s.user_store.wf() && s.two_fa_code_store.wf()
}

/// How signup relates the state before the call, the state after it, the
/// raw inputs, and the outcome.
pub open spec fn signup_transition(
    pre: AuthService,
    post: AuthService,
    eb: Seq<u8>,
    pb: Seq<u8>,
    requires_2fa: bool,
    salt: u64,
    out: SignupOutcome,
) -> bool {
    match out {
        SignupOutcome::Created => {
            &&& valid_email(eb)
            &&& pb.len() >= MIN_PASSWORD_BYTES
            &&& !pre.user_store.spec_contains(eb)
            &&& forall|e: Seq<u8>|
                post.user_store.spec_contains(e) <==> (pre.user_store.spec_contains(e) || e == eb)
            &&& post.user_store.spec_user(eb).email@ == eb
            &&& post.user_store.spec_user(eb).password.spec_salt() == salt
            &&& post.user_store.spec_user(eb).password.spec_digest() == password_digest(salt, pb)
            &&& post.user_store.spec_user(eb).requires_2fa == requires_2fa
            &&& forall|e: Seq<u8>|
                e != eb && pre.user_store.spec_contains(e) ==> post.user_store.spec_user(e)
                    == pre.user_store.spec_user(e)
            &&& post.two_fa_code_store == pre.two_fa_code_store
            &&& post.banned_token_store == pre.banned_token_store
            &&& post.token_service == pre.token_service
        },
        SignupOutcome::InvalidCredentials => {
            &&& !valid_email(eb) || pb.len() < MIN_PASSWORD_BYTES
            &&& post == pre
        },
        SignupOutcome::UserAlreadyExists => {
            &&& valid_email(eb)
            &&& pb.len() >= MIN_PASSWORD_BYTES
            &&& pre.user_store.spec_contains(eb)
            &&& post == pre
        },
    }
}

/// Whether the stored credentials accept the raw password.
pub open spec fn credentials_ok(pre: AuthService, eb: Seq<u8>, pb: Seq<u8>) -> bool {
    pre.user_store.spec_contains(eb) && pre.user_store.spec_user(eb).password.spec_matches(pb)
}

/// How login relates the state before the call, the state after it, the
/// inputs, and the outcome.
pub open spec fn login_transition(
    pre: AuthService,
    post: AuthService,
    eb: Seq<u8>,
    pb: Seq<u8>,
    attempt_id: LoginAttemptId,
    code: TwoFACode,
    now: u64,
    out: LoginOutcome,
) -> bool {
    match out {
        LoginOutcome::LoggedIn(token) => {
            &&& valid_email(eb)
            &&& pb.len() >= MIN_PASSWORD_BYTES
            &&& credentials_ok(pre, eb, pb)
            &&& !pre.user_store.spec_user(eb).requires_2fa
            &&& token@ == spec_token_bytes(
                pre.token_service.spec_secret(),
                (now + pre.token_service.spec_ttl()) as u64,
                eb,
            )
            &&& token_wf(pre.token_service.spec_secret(), token@)
            &&& spec_token_expiry(token@) == now + pre.token_service.spec_ttl()
            &&& spec_token_subject(token@) == eb
            &&& post == pre
        },
        LoginOutcome::TwoFactorRequired(id) => {
            &&& valid_email(eb)
            &&& pb.len() >= MIN_PASSWORD_BYTES
            &&& credentials_ok(pre, eb, pb)
            &&& pre.user_store.spec_user(eb).requires_2fa
            &&& id == attempt_id
            &&& forall|e: Seq<u8>|
                post.two_fa_code_store.spec_contains(e) <==> (
                pre.two_fa_code_store.spec_contains(e) || e == eb)
            &&& post.two_fa_code_store.spec_attempt_id(eb) == attempt_id
            &&& post.two_fa_code_store.spec_code(eb) == code
            &&& forall|e: Seq<u8>|
                e != eb && pre.two_fa_code_store.spec_contains(e)
                    ==> post.two_fa_code_store.spec_attempt_id(e)
                    == pre.two_fa_code_store.spec_attempt_id(e) && post.two_fa_code_store.spec_code(
                    e,
                ) == pre.two_fa_code_store.spec_code(e)
            &&& post.user_store == pre.user_store
            &&& post.banned_token_store == pre.banned_token_store
            &&& post.token_service == pre.token_service
        },
        LoginOutcome::InvalidCredentials => {
            &&& !valid_email(eb) || pb.len() < MIN_PASSWORD_BYTES
            &&& post == pre
        },
        LoginOutcome::IncorrectCredentials => {
            &&& valid_email(eb)
            &&& pb.len() >= MIN_PASSWORD_BYTES
            &&& !credentials_ok(pre, eb, pb)
            &&& post == pre
        },
    }
}

/// How two-factor verification relates the state before the call, the
/// state after it, the inputs, and the outcome.
pub open spec fn verify_2fa_transition(
    pre: AuthService,
    post: AuthService,
    eb: Seq<u8>,
    attempt_id: LoginAttemptId,
    code: TwoFACode,
    now: u64,
    out: TwoFactorOutcome,
) -> bool {
    match out {
        TwoFactorOutcome::LoggedIn(token) => {
            &&& valid_email(eb)
            &&& pre.two_fa_code_store.spec_contains(eb)
            &&& pre.two_fa_code_store.spec_attempt_id(eb) == attempt_id
            &&& pre.two_fa_code_store.spec_code(eb) == code
            &&& forall|e: Seq<u8>|
                post.two_fa_code_store.spec_contains(e) <==> (
                pre.two_fa_code_store.spec_contains(e) && e != eb)
            &&& forall|e: Seq<u8>|
                e != eb && pre.two_fa_code_store.spec_contains(e)
                    ==> post.two_fa_code_store.spec_attempt_id(e)
                    == pre.two_fa_code_store.spec_attempt_id(e) && post.two_fa_code_store.spec_code(
                    e,
                ) == pre.two_fa_code_store.spec_code(e)
            &&& token@ == spec_token_bytes(
                pre.token_service.spec_secret(),
                (now + pre.token_service.spec_ttl()) as u64,
                eb,
            )
            &&& token_wf(pre.token_service.spec_secret(), token@)
            &&& spec_token_expiry(token@) == now + pre.token_service.spec_ttl()
            &&& spec_token_subject(token@) == eb
            &&& post.user_store == pre.user_store
            &&& post.banned_token_store == pre.banned_token_store
            &&& post.token_service == pre.token_service
        },
        TwoFactorOutcome::Unauthorized => {
            &&& !(valid_email(eb) && pre.two_fa_code_store.spec_contains(eb)
                && pre.two_fa_code_store.spec_attempt_id(eb) == attempt_id
                && pre.two_fa_code_store.spec_code(eb) == code)
            &&& post == pre
        },
    }
}

/// Whether a token value is usable against a state at an instant: it
/// decodes under the secret, is unexpired, and is not banned.
pub open spec fn token_usable(s: AuthService, t: Seq<u8>, now: u64) -> bool {
    &&& token_wf(s.token_service.spec_secret(), t)
    &&& now <= spec_token_expiry(t)
    &&& !s.banned_token_store.spec_is_banned(t)
}

/// How logout relates the state before the call, the state after it, the
/// presented cookie, and the outcome.
pub open spec fn logout_transition(
    pre: AuthService,
    post: AuthService,
    cookie: Option<Seq<u8>>,
    now: u64,
    out: LogoutOutcome,
) -> bool {
    match out {
        LogoutOutcome::LoggedOut => {
            &&& cookie matches Some(t) && token_usable(pre, t, now) && (forall|x: Seq<u8>|
                post.banned_token_store.spec_is_banned(x) <==> (
                pre.banned_token_store.spec_is_banned(x) || x == t))
            &&& post.user_store == pre.user_store
            &&& post.two_fa_code_store == pre.two_fa_code_store
            &&& post.token_service == pre.token_service
        },
        LogoutOutcome::MissingToken => {
            &&& cookie is None
            &&& post == pre
        },
        LogoutOutcome::InvalidToken => {
            &&& cookie matches Some(t) && !token_usable(pre, t, now)
            &&& post == pre
        },
    }
}

impl SignupOutcome {
    /// Outward status class of the outcome.
    pub fn status_code(&self) -> (s: u16)
        ensures
            s == (match self {
                SignupOutcome::Created => 201u16,
                SignupOutcome::InvalidCredentials => 400u16,
                SignupOutcome::UserAlreadyExists => 409u16,
            }),
    {
        match self {
            SignupOutcome::Created => 201,
            SignupOutcome::InvalidCredentials => 400,
            SignupOutcome::UserAlreadyExists => 409,
        }
    }

    /// Outward error message of the outcome; empty on success.
    pub fn message(&self) -> (m: &'static str)
        ensures
            match self {
                SignupOutcome::Created => m@ == ""@,
                SignupOutcome::InvalidCredentials => m@ == "Invalid credentials"@,
                SignupOutcome::UserAlreadyExists => m@ == "User already exists"@,
            },
    {
        match self {
            SignupOutcome::Created => "",
            SignupOutcome::InvalidCredentials => "Invalid credentials",
            SignupOutcome::UserAlreadyExists => "User already exists",
        }
    }
}

impl LoginOutcome {
    /// Outward status class of the outcome.
    pub fn status_code(&self) -> (s: u16)
        ensures
            s == (match self {
                LoginOutcome::LoggedIn(_) => 200u16,
                LoginOutcome::TwoFactorRequired(_) => 206u16,
                LoginOutcome::InvalidCredentials => 400u16,
                LoginOutcome::IncorrectCredentials => 401u16,
            }),
    {
        match self {
            LoginOutcome::LoggedIn(_) => 200,
            LoginOutcome::TwoFactorRequired(_) => 206,
            LoginOutcome::InvalidCredentials => 400,
            LoginOutcome::IncorrectCredentials => 401,
        }
    }

    /// Outward message of the outcome; empty on a plain success.
    pub fn message(&self) -> (m: &'static str)
        ensures
            match self {
                LoginOutcome::LoggedIn(_) => m@ == ""@,
                LoginOutcome::TwoFactorRequired(_) => m@ == "2FA required"@,
                LoginOutcome::InvalidCredentials => m@ == "Invalid credentials"@,
                LoginOutcome::IncorrectCredentials => m@ == "Incorrect credentials"@,
            },
    {
        match self {
            LoginOutcome::LoggedIn(_) => "",
            LoginOutcome::TwoFactorRequired(_) => "2FA required",
            LoginOutcome::InvalidCredentials => "Invalid credentials",
            LoginOutcome::IncorrectCredentials => "Incorrect credentials",
        }
    }
}

impl TwoFactorOutcome {
    /// Outward status class of the outcome.
    pub fn status_code(&self) -> (s: u16)
        ensures
            s == (match self {
                TwoFactorOutcome::LoggedIn(_) => 200u16,
                TwoFactorOutcome::Unauthorized => 401u16,
            }),
    {
        match self {
            TwoFactorOutcome::LoggedIn(_) => 200,
            TwoFactorOutcome::Unauthorized => 401,
        }
    }

    /// Outward error message of the outcome; empty on success.
    pub fn message(&self) -> (m: &'static str)
        ensures
            match self {
                TwoFactorOutcome::LoggedIn(_) => m@ == ""@,
                TwoFactorOutcome::Unauthorized => m@ == "Incorrect credentials"@,
            },
    {
        match self {
            TwoFactorOutcome::LoggedIn(_) => "",
            TwoFactorOutcome::Unauthorized => "Incorrect credentials",
        }
    }
}

impl LogoutOutcome {
    /// Outward status class of the outcome.
    pub fn status_code(&self) -> (s: u16)
        ensures
            s == (match self {
                LogoutOutcome::LoggedOut => 200u16,
                LogoutOutcome::MissingToken => 400u16,
                LogoutOutcome::InvalidToken => 401u16,
            }),
    {
        match self {
            LogoutOutcome::LoggedOut => 200,
            LogoutOutcome::MissingToken => 400,
            LogoutOutcome::InvalidToken => 401,
        }
    }

    /// Outward error message of the outcome; empty on success.
    pub fn message(&self) -> (m: &'static str)
        ensures
            match self {
                LogoutOutcome::LoggedOut => m@ == ""@,
                LogoutOutcome::MissingToken => m@ == "Missing token"@,
                LogoutOutcome::InvalidToken => m@ == "Invalid token"@,
            },
    {
        match self {
            LogoutOutcome::LoggedOut => "",
            LogoutOutcome::MissingToken => "Missing token",
            LogoutOutcome::InvalidToken => "Invalid token",
        }
    }
}

impl VerifyTokenOutcome {
    /// Outward status class of the outcome.
    pub fn status_code(&self) -> (s: u16)
        ensures
            s == (match self {
                VerifyTokenOutcome::Valid => 200u16,
                VerifyTokenOutcome::InvalidToken => 401u16,
            }),
    {
        match self {
            VerifyTokenOutcome::Valid => 200,
            VerifyTokenOutcome::InvalidToken => 401,
        }
    }

    /// Outward error message of the outcome; empty on success.
    pub fn message(&self) -> (m: &'static str)
        ensures
            match self {
                VerifyTokenOutcome::Valid => m@ == ""@,
                VerifyTokenOutcome::InvalidToken => m@ == "Invalid token"@,
            },
    {
        match self {
            VerifyTokenOutcome::Valid => "",
            VerifyTokenOutcome::InvalidToken => "Invalid token",
        }
    }
}

impl AuthService {
    /// A fresh service: empty stores, tokens signed under the secret.
    pub fn new(secret: u64) -> (s: AuthService)
        ensures
            service_wf(s),
            forall|e: Seq<u8>| !s.user_store.spec_contains(e),
            forall|e: Seq<u8>| !s.two_fa_code_store.spec_contains(e),
            forall|t: Seq<u8>| !s.banned_token_store.spec_is_banned(t),
            s.token_service.spec_secret() == secret,
            s.token_service.spec_ttl() == crate::token::TOKEN_TTL_SECONDS,
    {
        AuthService {
            user_store: UserStore::new(),
            two_fa_code_store: TwoFACodeStore::new(),
            banned_token_store: BannedTokenStore::new(),
            token_service: TokenService::new(secret),
        }
    }

    /// Signup: parse the credentials, digest the password under the salt,
    /// and insert the new account.
    pub fn signup(
        &mut self,
        email_raw: &str,
        password_raw: &str,
        requires_2fa: bool,
        salt: u64,
    ) -> (r: SignupOutcome)
        requires
            service_wf(*old(self)),
        ensures
            service_wf(*final(self)),
            signup_transition(
                *old(self),
                *final(self),
                email_raw.spec_bytes(),
                password_raw.spec_bytes(),
                requires_2fa,
                salt,
                r,
            ),
    {
        let email = match Email::parse(email_raw) {
            Ok(e) => e,
            Err(_) => {
                return SignupOutcome::InvalidCredentials;
            },
        };
        let password = match Password::parse(password_raw, salt) {
            Ok(p) => p,
            Err(_) => {
                return SignupOutcome::InvalidCredentials;
            },
        };
        let user = User::new(email, password, requires_2fa);
        match self.user_store.add(user) {
            Ok(_) => SignupOutcome::Created,
            Err(_) => SignupOutcome::UserAlreadyExists,
        }
    }

    /// Login: parse the credentials, validate them against the user store,
    /// then either issue a session token at once, or store a fresh
    /// challenge and hand out only its attempt identifier.  The delivery
    /// capability is invoked after the challenge is persisted and its
    /// failure is swallowed.
    pub fn login<N: TwoFactorNotifier>(
        &mut self,
        email_raw: &str,
        password_raw: &str,
        attempt_id: LoginAttemptId,
        code: TwoFACode,
        now: u64,
        notifier: &mut N,
    ) -> (r: LoginOutcome)
        requires
            service_wf(*old(self)),
            now + old(self).token_service.spec_ttl() <= u64::MAX,
        ensures
            service_wf(*final(self)),
            login_transition(
                *old(self),
                *final(self),
                email_raw.spec_bytes(),
                password_raw.spec_bytes(),
                attempt_id,
                code,
                now,
                r,
            ),
    {
        let email = match Email::parse(email_raw) {
            Ok(e) => e,
            Err(_) => {
                return LoginOutcome::InvalidCredentials;
            },
        };
        if !Password::valid_raw(password_raw) {
            return LoginOutcome::InvalidCredentials;
        }
        let requires_2fa = match self.user_store.validate(&email, password_raw) {
            Ok(user) => user.requires_2fa,
            Err(_) => {
                return LoginOutcome::IncorrectCredentials;
            },
        };
        if requires_2fa {
            self.two_fa_code_store.add_code(email.clone(), attempt_id, code);
            let _delivered = notifier.notify(&email, &code);
            LoginOutcome::TwoFactorRequired(attempt_id)
        } else {
            let token = self.token_service.issue(&email, now);
            LoginOutcome::LoggedIn(token)
        }
    }

    /// Two-factor verification: a token is issued and the challenge removed
    /// exactly when the email, the attempt identifier, and the code all
    /// match the stored challenge; any mismatch leaves the challenge intact
    /// for a legitimate retry.
    pub fn verify_2fa(
        &mut self,
        email_raw: &str,
        attempt_id: LoginAttemptId,
        code: TwoFACode,
        now: u64,
    ) -> (r: TwoFactorOutcome)
        requires
            service_wf(*old(self)),
            now + old(self).token_service.spec_ttl() <= u64::MAX,
        ensures
            service_wf(*final(self)),
            verify_2fa_transition(
                *old(self),
                *final(self),
                email_raw.spec_bytes(),
                attempt_id,
                code,
                now,
                r,
            ),
    {
        let email = match Email::parse(email_raw) {
            Ok(e) => e,
            Err(_) => {
                return TwoFactorOutcome::Unauthorized;
            },
        };
        let (stored_id, stored_code) = match self.two_fa_code_store.get_code(&email) {
            Ok(pair) => pair,
            Err(_) => {
                return TwoFactorOutcome::Unauthorized;
            },
        };
        if stored_id.as_u128() != attempt_id.as_u128() || stored_code.as_u32() != code.as_u32() {
            return TwoFactorOutcome::Unauthorized;
        }
        self.two_fa_code_store.remove_code(&email);
        let token = self.token_service.issue(&email, now);
        TwoFactorOutcome::LoggedIn(token)
    }

    /// Logout: an absent cookie is a missing token; a presented token that
    /// does not validate is rejected; a valid token is banned, and exactly
    /// that token.
    pub fn logout(&mut self, cookie: Option<&Vec<u8>>, now: u64) -> (r: LogoutOutcome)
        requires
            service_wf(*old(self)),
        ensures
            service_wf(*final(self)),
            logout_transition(
                *old(self),
                *final(self),
                match cookie {
                    Some(c) => Some(c@),
                    None => None,
                },
                now,
                r,
            ),
    {
        let token = match cookie {
            None => {
                return LogoutOutcome::MissingToken;
            },
            Some(t) => t,
        };
        match self.token_service.validate(&self.banned_token_store, token.as_slice(), now) {
            Err(_) => LogoutOutcome::InvalidToken,
            Ok(_subject) => {
                let banned_value = vstd::slice::slice_to_vec(token.as_slice());
                self.banned_token_store.ban(banned_value);
                LogoutOutcome::LoggedOut
            },
        }
    }

    /// Token introspection: read-only by construction, the state is
    /// untouched.
    pub fn verify_token(&self, token: &[u8], now: u64) -> (r: VerifyTokenOutcome)
        ensures
            r == (if token_usable(*self, token@, now) {
                VerifyTokenOutcome::Valid
            } else {
                VerifyTokenOutcome::InvalidToken
            }),
    {
        match self.token_service.validate(&self.banned_token_store, token, now) {
            Ok(_) => VerifyTokenOutcome::Valid,
            Err(_) => VerifyTokenOutcome::InvalidToken,
        }
    }
}

} // verus!
