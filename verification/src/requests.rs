//! The structural shape of each request body.
//!
//! Transport hands every field over as present with the right type, present
//! with a wrong type, or missing.  A handler first checks the shape and
//! rejects a malformed body with `StructuralError` — provably before any
//! domain check runs and with the state untouched — and only then extracts
//! the plain values and calls the flow.

use vstd::prelude::*;

use crate::auth::login_transition;
use crate::auth::service_wf;
use crate::auth::signup_transition;
use crate::auth::token_usable;
use crate::auth::verify_2fa_transition;
use crate::auth::AuthService;
use crate::auth::LoginOutcome;
use crate::auth::SignupOutcome;
use crate::auth::TwoFactorNotifier;
use crate::auth::TwoFactorOutcome;
use crate::auth::VerifyTokenOutcome;
use crate::errors::StructuralError;
use crate::two_fa::LoginAttemptId;
use crate::two_fa::TwoFACode;
use crate::two_fa::TWO_FA_CODE_BOUND;
use vstd::string::StringSliceAdditionalSpecFns;

verus! {

/// One field of a request body, as transport saw it.
#[derive(Debug)]
pub enum BodyField<T> {
    /// The field is absent.
    Missing,
    /// The field is present but its value has the wrong type.
    WrongType,
    /// The field is present with a value of the right type.
    Given(T),
}

/// Whether the field is present with the right type.
pub open spec fn is_given<T>(f: &BodyField<T>) -> bool {
    f matches BodyField::Given(_)
}

/// The signup request body.
#[derive(Debug)]
pub struct SignupBody {
    pub email: BodyField<String>,
    pub password: BodyField<String>,
    pub requires_2fa: BodyField<bool>,
}

/// The login request body.
#[derive(Debug)]
pub struct LoginBody {
    pub email: BodyField<String>,
    pub password: BodyField<String>,
}

/// The two-factor verification request body.
#[derive(Debug)]
pub struct TwoFactorBody {
    pub email: BodyField<String>,
    pub login_attempt_id: BodyField<u128>,
    pub two_fa_code: BodyField<u32>,
}

/// The token introspection request body.
#[derive(Debug)]
pub struct VerifyTokenBody {
    pub token: BodyField<Vec<u8>>,
}

/// All fields of the signup body are present with the right types.
pub open spec fn signup_body_wellformed(b: &SignupBody) -> bool {
    is_given(&b.email) && is_given(&b.password) && is_given(&b.requires_2fa)
}

/// All fields of the login body are present with the right types.
pub open spec fn login_body_wellformed(b: &LoginBody) -> bool {
    is_given(&b.email) && is_given(&b.password)
}

/// All fields of the verification body are present with the right types.
pub open spec fn two_factor_body_wellformed(b: &TwoFactorBody) -> bool {
    is_given(&b.email) && is_given(&b.login_attempt_id) && is_given(&b.two_fa_code)
}

/// The introspection body's token field is present with the right type.
pub open spec fn verify_token_body_wellformed(b: &VerifyTokenBody) -> bool {
    is_given(&b.token)
}

/// Signup over a raw body: a malformed body is rejected with the state
/// untouched; a well-formed one runs the signup flow on its field values.
pub fn handle_signup(svc: &mut AuthService, body: &SignupBody, salt: u64) -> (r: Result<
    SignupOutcome,
    StructuralError,
>)
    requires
        service_wf(*old(svc)),
    ensures
        service_wf(*final(svc)),
        match r {
            Err(_) => !signup_body_wellformed(body) && *final(svc) == *old(svc),
            Ok(out) => signup_body_wellformed(body) && signup_transition(
                *old(svc),
                *final(svc),
                vstd::utf8::encode_utf8(body.email->Given_0@),
                vstd::utf8::encode_utf8(body.password->Given_0@),
                body.requires_2fa->Given_0,
                salt,
                out,
            ),
        },
{
    let email = match &body.email {
        BodyField::Given(v) => v,
        _ => {
            return Err(StructuralError);
        },
    };
    let password = match &body.password {
        BodyField::Given(v) => v,
        _ => {
            return Err(StructuralError);
        },
    };
    let requires_2fa = match &body.requires_2fa {
        BodyField::Given(v) => *v,
        _ => {
            return Err(StructuralError);
        },
    };
    Ok(svc.signup(email.as_str(), password.as_str(), requires_2fa, salt))
}

/// Login over a raw body: a malformed body is rejected with the state
/// untouched; a well-formed one runs the login flow on its field values.
pub fn handle_login<N: TwoFactorNotifier>(
    svc: &mut AuthService,
    body: &LoginBody,
    attempt_id: LoginAttemptId,
    code: TwoFACode,
    now: u64,
    notifier: &mut N,
) -> (r: Result<LoginOutcome, StructuralError>)
    requires
        service_wf(*old(svc)),
        now + old(svc).token_service.spec_ttl() <= u64::MAX,
    ensures
        service_wf(*final(svc)),
        match r {
            Err(_) => !login_body_wellformed(body) && *final(svc) == *old(svc),
            Ok(out) => login_body_wellformed(body) && login_transition(
                *old(svc),
                *final(svc),
                vstd::utf8::encode_utf8(body.email->Given_0@),
                vstd::utf8::encode_utf8(body.password->Given_0@),
                attempt_id,
                code,
                now,
                out,
            ),
        },
{
    let email = match &body.email {
        BodyField::Given(v) => v,
        _ => {
            return Err(StructuralError);
        },
    };
    let password = match &body.password {
        BodyField::Given(v) => v,
        _ => {
            return Err(StructuralError);
        },
    };
    Ok(svc.login(email.as_str(), password.as_str(), attempt_id, code, now, notifier))
}

/// Two-factor verification over a raw body: a malformed body is rejected
/// with the state untouched; a code value with more than six digits can
/// match no stored challenge and is unauthorized.
pub fn handle_verify_2fa(svc: &mut AuthService, body: &TwoFactorBody, now: u64) -> (r: Result<
    TwoFactorOutcome,
    StructuralError,
>)
    requires
        service_wf(*old(svc)),
        now + old(svc).token_service.spec_ttl() <= u64::MAX,
    ensures
        service_wf(*final(svc)),
        match r {
            Err(_) => !two_factor_body_wellformed(body) && *final(svc) == *old(svc),
            Ok(out) => two_factor_body_wellformed(body) && {
                if body.two_fa_code->Given_0 < TWO_FA_CODE_BOUND {
                    verify_2fa_transition(
                        *old(svc),
                        *final(svc),
                        vstd::utf8::encode_utf8(body.email->Given_0@),
                        (LoginAttemptId { value: body.login_attempt_id->Given_0 }),
                        (TwoFACode { value: body.two_fa_code->Given_0 }),
                        now,
                        out,
                    )
                } else {
                    out is Unauthorized && *final(svc) == *old(svc)
                }
            },
        },
{
    let email = match &body.email {
        BodyField::Given(v) => v,
        _ => {
            return Err(StructuralError);
        },
    };
    let id_value = match &body.login_attempt_id {
        BodyField::Given(v) => *v,
        _ => {
            return Err(StructuralError);
        },
    };
    let code_value = match &body.two_fa_code {
        BodyField::Given(v) => *v,
        _ => {
            return Err(StructuralError);
        },
    };
    let code = match TwoFACode::parse(code_value) {
        Ok(c) => c,
        Err(_) => {
            return Ok(TwoFactorOutcome::Unauthorized);
        },
    };
    Ok(svc.verify_2fa(email.as_str(), LoginAttemptId::new(id_value), code, now))
}

/// Token introspection over a raw body: a malformed body is rejected; the
/// flow itself is read-only.
pub fn handle_verify_token(svc: &AuthService, body: &VerifyTokenBody, now: u64) -> (r: Result<
    VerifyTokenOutcome,
    StructuralError,
>)
    ensures
        match r {
            Err(_) => !verify_token_body_wellformed(body),
            Ok(out) => verify_token_body_wellformed(body) && out == (if token_usable(
                *svc,
                body.token->Given_0@,
                now,
            ) {
                VerifyTokenOutcome::Valid
            } else {
                VerifyTokenOutcome::InvalidToken
            }),
        },
{
    let token = match &body.token {
        BodyField::Given(v) => v,
        _ => {
            return Err(StructuralError);
        },
    };
    Ok(svc.verify_token(token.as_slice(), now))
}

} // verus!
