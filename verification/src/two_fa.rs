//! The two-factor step-up: attempt identifiers, six-digit codes, and the
//! store of pending challenges.
//!
//! At most one challenge is live per email.  A new login for the same email
//! unconditionally replaces the stored challenge, and a successful
//! verification removes it, so a code can be redeemed at most once.

use vstd::prelude::*;

use crate::email::Email;
use crate::errors::ChallengeNotFound;
use crate::errors::ValidationError;
use crate::hashing::ct_bytes_eq;

verus! {

/// The exclusive upper bound of a six-digit code.
pub const TWO_FA_CODE_BOUND: u32 = 1_000_000;

/// Opaque identifier of one login attempt that requires the step-up; the
/// caller supplies a high-entropy value.
#[derive(Clone, Copy, Debug, PartialEq, Eq, Structural)]
pub struct LoginAttemptId {
    pub value: u128,
}

impl LoginAttemptId {
    /// The identifier value.
    pub open spec fn spec_value(&self) -> u128 {
        self.value
    }

    /// Wraps a high-entropy value as an attempt identifier.
    pub fn new(value: u128) -> (r: LoginAttemptId)
        ensures
            r.spec_value() == value,
    {
        LoginAttemptId { value }
    }

    /// The identifier value.
    pub fn as_u128(&self) -> (r: u128)
        ensures
            r == self.spec_value(),
    {
        self.value
    }
}

/// A six-digit one-time code, random per attempt.
#[derive(Clone, Copy, Debug, PartialEq, Eq, Structural)]
pub struct TwoFACode {
    pub value: u32,
}

impl TwoFACode {
    /// The code value.
    pub open spec fn spec_value(&self) -> u32 {
        self.value
    }

    /// Accepts a value with at most six decimal digits.
    pub fn parse(value: u32) -> (r: Result<TwoFACode, ValidationError>)
        ensures
            match r {
                Ok(c) => value < TWO_FA_CODE_BOUND && c.spec_value() == value,
                Err(_) => value >= TWO_FA_CODE_BOUND,
            },
    {
        if value < TWO_FA_CODE_BOUND {
            Ok(TwoFACode { value })
        } else {
            Err(ValidationError)
        }
    }

    /// The code value.
    pub fn as_u32(&self) -> (r: u32)
        ensures
            r == self.spec_value(),
    {
        self.value
    }
}

/// One pending challenge: the attempt identifier and the code, keyed by the
/// email they were issued for.
#[derive(Debug)]
pub struct PendingChallenge {
    pub email: Email,
    pub attempt_id: LoginAttemptId,
    pub code: TwoFACode,
}

/// Pending challenges, at most one per email.
#[derive(Debug)]
pub struct TwoFACodeStore {
    challenges: Vec<PendingChallenge>,
}

impl TwoFACodeStore {
    /// Emails are unique across stored challenges.
    pub closed spec fn wf(&self) -> bool {
        forall|i: int, j: int|
            0 <= i < j < self.challenges@.len() ==> self.challenges@[i].email@
                != self.challenges@[j].email@
    }

    /// Whether a challenge is pending for the email.
    pub closed spec fn spec_contains(&self, email: Seq<u8>) -> bool {
        exists|i: int| 0 <= i < self.challenges@.len() && self.challenges@[i].email@ == email
    }

    spec fn spec_index_of(&self, email: Seq<u8>) -> int {
        choose|i: int| 0 <= i < self.challenges@.len() && self.challenges@[i].email@ == email
    }

    /// The attempt identifier of the pending challenge; meaningful when
    /// `spec_contains` holds.
    pub closed spec fn spec_attempt_id(&self, email: Seq<u8>) -> LoginAttemptId {
        self.challenges@[self.spec_index_of(email)].attempt_id
    }

    /// The code of the pending challenge; meaningful when `spec_contains`
    /// holds.
    pub closed spec fn spec_code(&self, email: Seq<u8>) -> TwoFACode {
        self.challenges@[self.spec_index_of(email)].code
    }

    proof fn lemma_index_unique(&self, i: int, j: int)
        requires
            self.wf(),
            0 <= i < self.challenges@.len(),
            0 <= j < self.challenges@.len(),
            self.challenges@[i].email@ == self.challenges@[j].email@,
        ensures
            i == j,
    {
        if i < j {
            assert(self.challenges@[i].email@ != self.challenges@[j].email@);
        } else if j < i {
            assert(self.challenges@[j].email@ != self.challenges@[i].email@);
        }
    }

    /// An empty store.
    pub fn new() -> (s: TwoFACodeStore)
        ensures
            s.wf(),
            forall|e: Seq<u8>| !s.spec_contains(e),
    {
        TwoFACodeStore { challenges: Vec::new() }
    }

    fn index_of(&self, email: &[u8]) -> (r: Option<usize>)
        requires
            self.wf(),
        ensures
            match r {
                Some(i) => self.spec_contains(email@) && i < self.challenges@.len()
                    && self.challenges@[i as int].email@ == email@ && self.spec_index_of(email@)
                    == i as int,
                None => !self.spec_contains(email@),
            },
    {
        let mut i: usize = 0;
        while i < self.challenges.len()
            invariant
                self.wf(),
                0 <= i <= self.challenges@.len(),
                forall|j: int| 0 <= j < i ==> self.challenges@[j].email@ != email@,
            decreases self.challenges@.len() - i,
        {
            if ct_bytes_eq(self.challenges[i].email.as_bytes(), email) {
                proof {
                    assert(self.spec_contains(email@));
                    self.lemma_index_unique(self.spec_index_of(email@), i as int);
                }
                return Some(i);
            }
            i = i + 1;
        }
        None
    }

    /// Drops the pending challenge for the email, if any; idempotent.  It is
    /// called after a successful verification, so that replaying the same
    /// code afterwards finds no challenge.
    pub fn remove_code(&mut self, email: &Email)
        requires
            old(self).wf(),
        ensures
            final(self).wf(),
            forall|e: Seq<u8>|
                final(self).spec_contains(e) <==> (old(self).spec_contains(e) && e != email@),
            forall|e: Seq<u8>|
                e != email@ && old(self).spec_contains(e) ==> final(self).spec_attempt_id(e)
                    == old(self).spec_attempt_id(e) && final(self).spec_code(e) == old(
                    self,
                ).spec_code(e),
    {
        let ghost eb = email@;
        match self.index_of(email.as_bytes()) {
            None => {
            },
            Some(i) => {
                let ghost s = self.challenges@;
                self.challenges.swap_remove(i);
                proof {
                    let t = self.challenges@;
                    assert(t.len() == s.len() - 1);
                    assert forall|j: int| 0 <= j < t.len() implies t[j] == (if j == i as int {
                        s[s.len() - 1]
                    } else {
                        s[j]
                    }) by {
                        assert(t == s.update(i as int, s.last()).drop_last());
                    }
                    assert forall|a: int, b: int| 0 <= a < b < t.len() implies t[a].email@
                        != t[b].email@ by {
                        let sa = if a == i as int {
                            s.len() - 1
                        } else {
                            a
                        };
                        let sb = if b == i as int {
                            s.len() - 1
                        } else {
                            b
                        };
                        assert(sa != sb);
                        if sa < sb {
                            assert(s[sa].email@ != s[sb].email@);
                        } else {
                            assert(s[sb].email@ != s[sa].email@);
                        }
                    }
                    assert forall|e: Seq<u8>| (*self).spec_contains(e) <==> (old(
                        self,
                    ).spec_contains(e) && e != eb) by {
                        if (*self).spec_contains(e) {
                            let j = choose|j: int| 0 <= j < t.len() && t[j].email@ == e;
                            let sj = if j == i as int {
                                s.len() - 1
                            } else {
                                j
                            };
                            assert(s[sj].email@ == e);
                            assert(old(self).spec_contains(e));
                            if e == eb {
                                old(self).lemma_index_unique(sj, i as int);
                            }
                        }
                        if old(self).spec_contains(e) && e != eb {
                            let j = choose|j: int| 0 <= j < s.len() && s[j].email@ == e;
                            assert(j != i as int);
                            if j == s.len() - 1 {
                                assert((i as int) < t.len());
                                assert(t[i as int].email@ == e);
                            } else {
                                assert(t[j].email@ == e);
                            }
                        }
                    }
                    assert forall|e: Seq<u8>|
                        e != eb && old(self).spec_contains(e) implies (*self).spec_attempt_id(e) == old(self).spec_attempt_id(e) && (*self).spec_code(
                        e,
                    ) == old(self).spec_code(e) by {
                        let j0 = old(self).spec_index_of(e);
                        assert(s[j0].email@ == e);
                        let j1 = (*self).spec_index_of(e);
                        assert((*self).spec_contains(e));
                        assert(t[j1].email@ == e);
                        let sj1 = if j1 == i as int {
                            s.len() - 1
                        } else {
                            j1
                        };
                        assert(s[sj1].email@ == e);
                        old(self).lemma_index_unique(j0, sj1);
                        assert(t[j1] == s[sj1]);
                    }
                }
            },
        }
    }

    /// Stores a challenge for the email, unconditionally replacing any
    /// existing one.
    pub fn add_code(&mut self, email: Email, attempt_id: LoginAttemptId, code: TwoFACode)
        requires
            old(self).wf(),
        ensures
            final(self).wf(),
            forall|e: Seq<u8>|
                final(self).spec_contains(e) <==> (old(self).spec_contains(e) || e == email@),
            final(self).spec_attempt_id(email@) == attempt_id,
            final(self).spec_code(email@) == code,
            forall|e: Seq<u8>|
                e != email@ && old(self).spec_contains(e) ==> final(self).spec_attempt_id(e)
                    == old(self).spec_attempt_id(e) && final(self).spec_code(e) == old(
                    self,
                ).spec_code(e),
    {
        let ghost eb = email@;
        self.remove_code(&email);
        let ghost mid = *self;
        self.challenges.push(PendingChallenge { email, attempt_id, code });
        proof {
            let s = mid.challenges@;
            let t = self.challenges@;
            assert(!mid.spec_contains(eb));
            assert forall|i: int, j: int| 0 <= i < j < t.len() implies t[i].email@
                != t[j].email@ by {
                if j < s.len() {
                    assert(s[i].email@ != s[j].email@);
                } else {
                    assert(t[j].email@ == eb);
                    if t[i].email@ == eb {
                        assert(mid.spec_contains(eb));
                    }
                }
            }
            assert forall|e: Seq<u8>| (*self).spec_contains(e) <==> (mid.spec_contains(e) || e
                == eb) by {
                if (*self).spec_contains(e) {
                    let i = choose|i: int| 0 <= i < t.len() && t[i].email@ == e;
                    if i < s.len() {
                        assert(mid.spec_contains(e));
                    }
                }
                if mid.spec_contains(e) {
                    let i = choose|i: int| 0 <= i < s.len() && s[i].email@ == e;
                    assert(t[i].email@ == e);
                }
                if e == eb {
                    assert(t[s.len() as int].email@ == e);
                }
            }
            let inew = (*self).spec_index_of(eb);
            assert(t[inew].email@ == eb);
            if inew < s.len() {
                assert(mid.spec_contains(eb));
            }
            assert forall|e: Seq<u8>|
                e != eb && mid.spec_contains(e) implies (*self).spec_attempt_id(e)
                == mid.spec_attempt_id(e) && (*self).spec_code(e) == mid.spec_code(e) by {
                let i0 = mid.spec_index_of(e);
                assert(s[i0].email@ == e);
                let i1 = (*self).spec_index_of(e);
                assert((*self).spec_contains(e));
                assert(t[i1].email@ == e);
                assert(i1 != s.len() as int);
                assert(t[i1] == s[i1]);
                mid.lemma_index_unique(i0, i1);
            }
        }
    }

    /// Reads the pending challenge for the email.
    pub fn get_code(&self, email: &Email) -> (r: Result<
        (LoginAttemptId, TwoFACode),
        ChallengeNotFound,
    >)
        requires
            self.wf(),
        ensures
            match r {
                Ok(pair) => self.spec_contains(email@) && pair.0 == self.spec_attempt_id(email@)
                    && pair.1 == self.spec_code(email@),
                Err(_) => !self.spec_contains(email@),
            },
    {
        match self.index_of(email.as_bytes()) {
            Some(i) => {
                let c = &self.challenges[i];
                Ok((c.attempt_id, c.code))
            },
            None => Err(ChallengeNotFound),
        }
    }
}

} // verus!
