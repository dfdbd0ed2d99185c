//! The token service: issuing and validating signed, time-bound session
//! tokens.
//!
//! A token is self-contained: eight bytes of expiry instant, eight bytes of
//! keyed tag over the expiry and the subject, then the subject email.  The
//! format is opaque to callers; a token is usable exactly when its tag
//! recomputes under the service secret, its expiry instant has not passed,
//! and it is absent from the banned-token store.

use vstd::prelude::*;

use crate::banned_store::BannedTokenStore;
use crate::email::valid_email;
use crate::email::Email;
use crate::errors::TokenError;
use crate::hashing::digest64;
use crate::hashing::digest64_spec;
use vstd::bytes::lemma_auto_spec_u64_to_from_le_bytes;
use vstd::bytes::spec_u64_from_le_bytes;
use vstd::bytes::spec_u64_to_le_bytes;
use vstd::bytes::u64_from_le_bytes;
use vstd::bytes::u64_to_le_bytes;
use vstd::slice::slice_subrange;
use vstd::slice::slice_to_vec;

verus! {

/// Fixed lifetime of an issued token, in seconds.
pub const TOKEN_TTL_SECONDS: u64 = 600;

/// The keyed tag of a token: the expiry bytes and then the subject bytes,
/// folded into the secret.
pub open spec fn spec_token_mac(secret: u64, expiry: u64, subject: Seq<u8>) -> u64 {
    digest64_spec(digest64_spec(secret, spec_u64_to_le_bytes(expiry)), subject)
}

/// The byte value of an issued token.
pub open spec fn spec_token_bytes(secret: u64, expiry: u64, subject: Seq<u8>) -> Seq<u8> {
    spec_u64_to_le_bytes(expiry) + spec_u64_to_le_bytes(spec_token_mac(secret, expiry, subject))
        + subject
}

/// The expiry instant a token value claims.
pub open spec fn spec_token_expiry(t: Seq<u8>) -> u64 {
    spec_u64_from_le_bytes(t.subrange(0, 8))
}

/// The subject a token value claims.
pub open spec fn spec_token_subject(t: Seq<u8>) -> Seq<u8> {
    t.subrange(16, t.len() as int)
}

/// A token value decodes under the secret: it is long enough, its tag
/// recomputes, and its subject has the valid email shape.
pub open spec fn token_wf(secret: u64, t: Seq<u8>) -> bool {
    &&& t.len() > 16
    &&& spec_u64_from_le_bytes(t.subrange(8, 16)) == spec_token_mac(
        secret,
        spec_token_expiry(t),
        spec_token_subject(t),
    )
    &&& valid_email(spec_token_subject(t))
}

/// Issues and validates session tokens under a service secret, with a fixed
/// time-to-live.
#[derive(Debug)]
pub struct TokenService {
    secret: u64,
    ttl: u64,
}

impl TokenService {
    /// The signing secret.
    pub closed spec fn spec_secret(&self) -> u64 {
        self.secret
    }

    /// The fixed token lifetime in seconds.
    pub closed spec fn spec_ttl(&self) -> u64 {
        self.ttl
    }

    /// A service signing under the given secret with the fixed lifetime.
    pub fn new(secret: u64) -> (s: TokenService)
        ensures
            s.spec_secret() == secret,
            s.spec_ttl() == TOKEN_TTL_SECONDS,
    {
        TokenService { secret, ttl: TOKEN_TTL_SECONDS }
    }

    /// Issues a token for the subject, expiring one lifetime after `now`.
    pub fn issue(&self, email: &Email, now: u64) -> (r: Vec<u8>)
        requires
            now + self.spec_ttl() <= u64::MAX,
        ensures
            r@ == spec_token_bytes(self.spec_secret(), (now + self.spec_ttl()) as u64, email@),
            token_wf(self.spec_secret(), r@),
            spec_token_expiry(r@) == now + self.spec_ttl(),
            spec_token_subject(r@) == email@,
    {
        proof {
            use_type_invariant(email);
            lemma_auto_spec_u64_to_from_le_bytes();
        }
        let expiry = now + self.ttl;
        let expiry_bytes = u64_to_le_bytes(expiry);
        let tag = digest64(digest64(self.secret, expiry_bytes.as_slice()), email.as_bytes());
        let mut out = expiry_bytes;
        let mut tag_bytes = u64_to_le_bytes(tag);
        out.append(&mut tag_bytes);
        let mut subject = slice_to_vec(email.as_bytes());
        out.append(&mut subject);
        proof {
            let t = out@;
            assert(t =~= spec_token_bytes(self.spec_secret(), expiry, email@));
            assert(t.subrange(0, 8) =~= spec_u64_to_le_bytes(expiry));
            assert(t.subrange(8, 16) =~= spec_u64_to_le_bytes(tag));
            assert(t.subrange(16, t.len() as int) =~= email@);
        }
        out
    }

    /// Validates a token value at instant `now` against the banned-token
    /// store.  The tag comparison is branch-free in the token bytes.
    pub fn validate(&self, banned: &BannedTokenStore, token: &[u8], now: u64) -> (r: Result<
        Email,
        TokenError,
    >)
        ensures
            match r {
                Ok(e) => token_wf(self.spec_secret(), token@) && now <= spec_token_expiry(token@)
                    && !banned.spec_is_banned(token@) && e@ == spec_token_subject(token@),
                Err(TokenError::TokenMalformed) => !token_wf(self.spec_secret(), token@),
                Err(TokenError::TokenExpired) => token_wf(self.spec_secret(), token@) && now
                    > spec_token_expiry(token@),
                Err(TokenError::TokenRevoked) => token_wf(self.spec_secret(), token@) && now
                    <= spec_token_expiry(token@) && banned.spec_is_banned(token@),
            },
    {
        if token.len() <= 16 {
            return Err(TokenError::TokenMalformed);
        }
        proof {
            lemma_auto_spec_u64_to_from_le_bytes();
        }
        let expiry = u64_from_le_bytes(slice_subrange(token, 0, 8));
        let tag = u64_from_le_bytes(slice_subrange(token, 8, 16));
        let subject = slice_subrange(token, 16, token.len());
        let expiry_bytes = u64_to_le_bytes(expiry);
        let expected = digest64(digest64(self.secret, expiry_bytes.as_slice()), subject);
        proof {
            assert((tag ^ expected) == 0 <==> tag == expected) by (bit_vector);
        }
        if (tag ^ expected) != 0 {
            return Err(TokenError::TokenMalformed);
        }
        match Email::parse_bytes(slice_to_vec(subject)) {
            Err(_) => Err(TokenError::TokenMalformed),
            Ok(email) => {
                if now > expiry {
                    Err(TokenError::TokenExpired)
                } else if banned.is_banned(token) {
                    Err(TokenError::TokenRevoked)
                } else {
                    Ok(email)
                }
            },
        }
    }
}

} // verus!
