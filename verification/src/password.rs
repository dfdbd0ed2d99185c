//! The password value object.
//!
//! A raw password is accepted only when it is at least eight bytes long.
//! The accepted value is folded at once into a salted one-way digest and the
//! raw bytes are discarded: a `Password` carries nothing but the salt and
//! the digest.  Matching a candidate against a stored password recomputes
//! the digest under the stored salt and compares the two digests in one
//! branch-free word comparison.

use vstd::prelude::*;

use crate::errors::ValidationError;
use crate::hashing::digest64;
use crate::hashing::digest64_spec;
use crate::hashing::DIGEST_OFFSET;
use vstd::string::StrSliceExecFns;
use vstd::string::StringSliceAdditionalSpecFns;

verus! {

/// The least number of bytes an accepted password holds.
pub const MIN_PASSWORD_BYTES: usize = 8;

/// The salted one-way digest of a raw password.
pub open spec fn password_digest(salt: u64, raw: Seq<u8>) -> u64 {
    digest64_spec(salt ^ DIGEST_OFFSET, raw)
}

/// A validated password, stored only as a salted one-way digest.
#[derive(Clone, Copy, Debug, PartialEq, Eq, Structural)]
pub struct Password {
    salt: u64,
    digest: u64,
}

impl Password {
    /// The salt the digest was computed under.
    pub closed spec fn spec_salt(&self) -> u64 {
        self.salt
    }

    /// The stored digest.
    pub closed spec fn spec_digest(&self) -> u64 {
        self.digest
    }

    /// Whether a raw candidate would digest to the stored value.
    pub open spec fn spec_matches(&self, raw: Seq<u8>) -> bool {
        self.spec_digest() == password_digest(self.spec_salt(), raw)
    }

    /// Whether a raw password meets the strength rule.
    pub fn valid_raw(raw: &str) -> (r: bool)
        ensures
            r == (raw.spec_bytes().len() >= MIN_PASSWORD_BYTES),
    {
        raw.as_bytes().len() >= MIN_PASSWORD_BYTES
    }

    /// Validates a raw password and digests it under the given salt; the raw
    /// value is not retained.
    pub fn parse(raw: &str, salt: u64) -> (r: Result<Password, ValidationError>)
        ensures
            match r {
                Ok(p) => raw.spec_bytes().len() >= MIN_PASSWORD_BYTES && p.spec_salt() == salt
                    && p.spec_digest() == password_digest(salt, raw.spec_bytes()),
                Err(_) => raw.spec_bytes().len() < MIN_PASSWORD_BYTES,
            },
    {
        if !Password::valid_raw(raw) {
            return Err(ValidationError);
        }
        let digest = digest64(salt ^ DIGEST_OFFSET, raw.as_bytes());
        Ok(Password { salt, digest })
    }

    /// Compares a raw candidate against the stored digest, in a single
    /// branch-free word comparison of the two digests.
    pub fn matches(&self, raw: &str) -> (r: bool)
        ensures
            r == self.spec_matches(raw.spec_bytes()),
    {
        let candidate = digest64(self.salt ^ DIGEST_OFFSET, raw.as_bytes());
        let stored = self.digest;
        proof {
            assert((candidate ^ stored) == 0 <==> candidate == stored) by (bit_vector);
        }
        (candidate ^ stored) == 0
    }
}

} // verus!
