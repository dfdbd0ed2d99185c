//! Laws of the five flows, proved from the transition predicates alone.
//!
//! Each lemma quantifies over the states and inputs of one or two calls and
//! derives what the outcome must have been; nothing here inspects the
//! implementation.

use vstd::prelude::*;

use crate::auth::login_transition;
use crate::auth::logout_transition;
use crate::auth::signup_transition;
use crate::auth::token_usable;
use crate::auth::verify_2fa_transition;
use crate::auth::AuthService;
use crate::auth::LoginOutcome;
use crate::auth::LogoutOutcome;
use crate::auth::SignupOutcome;
use crate::auth::TwoFactorOutcome;
use crate::email::valid_email;
use crate::password::MIN_PASSWORD_BYTES;
use crate::two_fa::LoginAttemptId;
use crate::two_fa::TwoFACode;

verus! {

/// Law: for every email of valid shape and every password of accepted
/// length, signing the pair up on a service that does not know the email
/// and holds no banned tokens, and then logging in without the two-factor
/// step-up, creates the account and yields a session token that is usable
/// against the resulting state.
pub proof fn lemma_signup_then_login_yields_usable_token(
    pre: AuthService,
    mid: AuthService,
    post: AuthService,
    eb: Seq<u8>,
    pb: Seq<u8>,
    salt: u64,
    attempt_id: LoginAttemptId,
    code: TwoFACode,
    now: u64,
    out1: SignupOutcome,
    out2: LoginOutcome,
)
    requires
        valid_email(eb),
        pb.len() >= MIN_PASSWORD_BYTES,
        !pre.user_store.spec_contains(eb),
        forall|t: Seq<u8>| !pre.banned_token_store.spec_is_banned(t),
        signup_transition(pre, mid, eb, pb, false, salt, out1),
        login_transition(mid, post, eb, pb, attempt_id, code, now, out2),
    ensures
        out1 == SignupOutcome::Created,
        out2 matches LoginOutcome::LoggedIn(token) && token_usable(post, token@, now),
{
    assert(out1 == SignupOutcome::Created);
    assert(mid.user_store.spec_contains(eb));
    assert(mid.user_store.spec_user(eb).password.spec_matches(pb));
    assert(!mid.user_store.spec_user(eb).requires_2fa);
    match out2 {
        LoginOutcome::LoggedIn(token) => {
            assert(post == mid);
            assert(!post.banned_token_store.spec_is_banned(token@));
        },
        LoginOutcome::TwoFactorRequired(_) => {
            assert(false);
        },
        LoginOutcome::InvalidCredentials => {
            assert(false);
        },
        LoginOutcome::IncorrectCredentials => {
            assert(false);
        },
    }
}

/// Law: signing up the same email twice answers the second call with the
/// conflict outcome and leaves the state untouched, whatever the other
/// fields of the second call are.
pub proof fn lemma_duplicate_signup_conflicts(
    pre: AuthService,
    mid: AuthService,
    post: AuthService,
    eb: Seq<u8>,
    pb1: Seq<u8>,
    pb2: Seq<u8>,
    requires_2fa_1: bool,
    requires_2fa_2: bool,
    salt1: u64,
    salt2: u64,
    out1: SignupOutcome,
    out2: SignupOutcome,
)
    requires
        signup_transition(pre, mid, eb, pb1, requires_2fa_1, salt1, out1),
        out1 == SignupOutcome::Created,
        pb2.len() >= MIN_PASSWORD_BYTES,
        signup_transition(mid, post, eb, pb2, requires_2fa_2, salt2, out2),
    ensures
        out2 == SignupOutcome::UserAlreadyExists,
        post == mid,
{
    assert(mid.user_store.spec_contains(eb));
}

/// Law: a login that requires the step-up hands out exactly the attempt
/// identifier of the challenge it stored — and, by the shape of the
/// outcome, nothing else: the code is not part of it.
pub proof fn lemma_two_factor_login_reveals_only_attempt_id(
    pre: AuthService,
    post: AuthService,
    eb: Seq<u8>,
    pb: Seq<u8>,
    attempt_id: LoginAttemptId,
    code: TwoFACode,
    now: u64,
    out: LoginOutcome,
)
    requires
        login_transition(pre, post, eb, pb, attempt_id, code, now, out),
        out matches LoginOutcome::TwoFactorRequired(_),
    ensures
        out matches LoginOutcome::TwoFactorRequired(id) && id
            == post.two_fa_code_store.spec_attempt_id(eb),
{
}

/// Law: a challenge is redeemed at most once: after a successful
/// verification, replaying the very same email, attempt identifier, and
/// code is unauthorized and changes nothing.
pub proof fn lemma_challenge_redeemed_once(
    pre: AuthService,
    mid: AuthService,
    post: AuthService,
    eb: Seq<u8>,
    attempt_id: LoginAttemptId,
    code: TwoFACode,
    now1: u64,
    now2: u64,
    out1: TwoFactorOutcome,
    out2: TwoFactorOutcome,
)
    requires
        verify_2fa_transition(pre, mid, eb, attempt_id, code, now1, out1),
        out1 matches TwoFactorOutcome::LoggedIn(_),
        verify_2fa_transition(mid, post, eb, attempt_id, code, now2, out2),
    ensures
        out2 == TwoFactorOutcome::Unauthorized,
        post == mid,
{
    assert(!mid.two_fa_code_store.spec_contains(eb));
}

/// Law: a completed logout bans exactly the presented token: that token is
/// banned, no other token's standing changes, and the banned token is
/// usable at no later instant.
pub proof fn lemma_logout_bans_exactly_presented_token(
    pre: AuthService,
    post: AuthService,
    t: Seq<u8>,
    now: u64,
    out: LogoutOutcome,
)
    requires
        logout_transition(pre, post, Some(t), now, out),
        out == LogoutOutcome::LoggedOut,
    ensures
        post.banned_token_store.spec_is_banned(t),
        forall|x: Seq<u8>|
            x != t ==> (post.banned_token_store.spec_is_banned(x)
                == pre.banned_token_store.spec_is_banned(x)),
        forall|later: u64| !token_usable(post, t, later),
{
}

/// Law: a token already banned is rejected by a later logout, which then
/// changes nothing.
pub proof fn lemma_banned_token_rejected_at_logout(
    pre: AuthService,
    post: AuthService,
    t: Seq<u8>,
    now: u64,
    out: LogoutOutcome,
)
    requires
        logout_transition(pre, post, Some(t), now, out),
        pre.banned_token_store.spec_is_banned(t),
    ensures
        out == LogoutOutcome::InvalidToken,
        post == pre,
{
}

/// Law: a banned token is usable at no instant, so introspection rejects
/// it.
pub proof fn lemma_banned_token_never_usable(s: AuthService, t: Seq<u8>, now: u64)
    requires
        s.banned_token_store.spec_is_banned(t),
    ensures
        !token_usable(s, t, now),
{
}

} // verus!
