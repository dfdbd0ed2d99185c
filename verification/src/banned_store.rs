//! The banned-token store: the set of session-token values revoked before
//! their natural expiry.
//!
//! Banning is an idempotent insert and there is no un-ban: an entry stays
//! for the token's remaining lifetime.

use vstd::prelude::*;

use crate::hashing::ct_bytes_eq;

verus! {

/// Revoked session-token values.
#[derive(Debug)]
pub struct BannedTokenStore {
    tokens: Vec<Vec<u8>>,
}

impl BannedTokenStore {
    /// Whether the token value is recorded as revoked.
    pub closed spec fn spec_is_banned(&self, token: Seq<u8>) -> bool {
        exists|i: int| 0 <= i < self.tokens@.len() && self.tokens@[i]@ == token
    }

    /// An empty store.
    pub fn new() -> (s: BannedTokenStore)
        ensures
            forall|t: Seq<u8>| !s.spec_is_banned(t),
    {
        BannedTokenStore { tokens: Vec::new() }
    }

    /// Whether the token value is recorded as revoked.
    pub fn is_banned(&self, token: &[u8]) -> (r: bool)
        ensures
            r == self.spec_is_banned(token@),
    {
        let mut i: usize = 0;
        while i < self.tokens.len()
            invariant
                0 <= i <= self.tokens@.len(),
                forall|j: int| 0 <= j < i ==> self.tokens@[j]@ != token@,
            decreases self.tokens@.len() - i,
        {
            if ct_bytes_eq(self.tokens[i].as_slice(), token) {
                return true;
            }
            i = i + 1;
        }
        false
    }

    /// Records the token value as revoked; inserting an already-banned value
    /// changes nothing.
    pub fn ban(&mut self, token: Vec<u8>)
        ensures
            forall|t: Seq<u8>|
                final(self).spec_is_banned(t) <==> (old(self).spec_is_banned(t) || t == token@),
    {
        if !self.is_banned(token.as_slice()) {
            let ghost s = self.tokens@;
            self.tokens.push(token);
            proof {
                let t = self.tokens@;
                assert forall|x: Seq<u8>| (*self).spec_is_banned(x) <==> (old(
                    self,
                ).spec_is_banned(x) || x == token@) by {
                    if (*self).spec_is_banned(x) {
                        let i = choose|i: int| 0 <= i < t.len() && t[i]@ == x;
                        if i < s.len() {
                            assert(old(self).spec_is_banned(x));
                        }
                    }
                    if old(self).spec_is_banned(x) {
                        let i = choose|i: int| 0 <= i < s.len() && s[i]@ == x;
                        assert(t[i]@ == x);
                    }
                    if x == token@ {
                        assert(t[s.len() as int]@ == x);
                    }
                }
            }
        }
    }
}

} // verus!
