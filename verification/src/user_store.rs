//! The user store: account records keyed by unique email.
//!
//! The store supports create, read, and credential validation.  An absent
//! user and a mismatching password both surface as the same
//! `InvalidCredentials` value, so a caller cannot tell which of the two
//! failed, and the password comparison runs in constant time.

use vstd::prelude::*;

use crate::email::Email;
use crate::errors::UserStoreError;
use crate::hashing::ct_bytes_eq;
use crate::user::User;
use vstd::string::StringSliceAdditionalSpecFns;

verus! {

/// User aggregates keyed by email.
#[derive(Debug)]
pub struct UserStore {
    users: Vec<User>,
}

impl UserStore {
    /// Emails are unique across stored users.
    pub closed spec fn wf(&self) -> bool {
        forall|i: int, j: int|
            0 <= i < j < self.users@.len() ==> self.users@[i].email@ != self.users@[j].email@
    }

    /// Whether some user is stored under the email.
    pub closed spec fn spec_contains(&self, email: Seq<u8>) -> bool {
        exists|i: int| 0 <= i < self.users@.len() && self.users@[i].email@ == email
    }

    spec fn spec_index_of(&self, email: Seq<u8>) -> int {
        choose|i: int| 0 <= i < self.users@.len() && self.users@[i].email@ == email
    }

    /// The user stored under the email; meaningful when `spec_contains` holds.
    pub closed spec fn spec_user(&self, email: Seq<u8>) -> User {
        self.users@[self.spec_index_of(email)]
    }

    proof fn lemma_index_unique(&self, i: int, j: int)
        requires
            self.wf(),
            0 <= i < self.users@.len(),
            0 <= j < self.users@.len(),
            self.users@[i].email@ == self.users@[j].email@,
        ensures
            i == j,
    {
        if i < j {
            assert(self.users@[i].email@ != self.users@[j].email@);
        } else if j < i {
            assert(self.users@[j].email@ != self.users@[i].email@);
        }
    }

    /// An empty store.
    pub fn new() -> (s: UserStore)
        ensures
            s.wf(),
            forall|e: Seq<u8>| !s.spec_contains(e),
    {
        UserStore { users: Vec::new() }
    }

    fn index_of(&self, email: &[u8]) -> (r: Option<usize>)
        requires
            self.wf(),
        ensures
            match r {
                Some(i) => self.spec_contains(email@) && i < self.users@.len()
                    && self.users@[i as int].email@ == email@ && self.spec_index_of(email@)
                    == i as int,
                None => !self.spec_contains(email@),
            },
    {
        let mut i: usize = 0;
        while i < self.users.len()
            invariant
                self.wf(),
                0 <= i <= self.users@.len(),
                forall|j: int| 0 <= j < i ==> self.users@[j].email@ != email@,
            decreases self.users@.len() - i,
        {
            if ct_bytes_eq(self.users[i].email.as_bytes(), email) {
                proof {
                    assert(self.spec_contains(email@));
                    self.lemma_index_unique(self.spec_index_of(email@), i as int);
                }
                return Some(i);
            }
            i = i + 1;
        }
        None
    }

    /// Inserts a user; fails when the email is already registered, in which
    /// case the store is left unchanged.
    pub fn add(&mut self, user: User) -> (r: Result<(), UserStoreError>)
        requires
            old(self).wf(),
        ensures
            final(self).wf(),
            match r {
                Ok(_) => !old(self).spec_contains(user.email@) && (forall|e: Seq<u8>|
                    final(self).spec_contains(e) <==> (old(self).spec_contains(e) || e
                        == user.email@)) && final(self).spec_user(user.email@) == user && (forall|
                    e: Seq<u8>,
                |
                    e != user.email@ && old(self).spec_contains(e) ==> final(self).spec_user(e)
                        == old(self).spec_user(e)),
                Err(err) => err == UserStoreError::UserAlreadyExists && old(self).spec_contains(
                    user.email@,
                ) && *final(self) == *old(self),
            },
    {
        match self.index_of(user.email.as_bytes()) {
            Some(_) => Err(UserStoreError::UserAlreadyExists),
            None => {
                let ghost s = self.users@;
                let ghost eb = user.email@;
                self.users.push(user);
                proof {
                    let t = self.users@;
                    assert forall|i: int, j: int| 0 <= i < j < t.len() implies t[i].email@
                        != t[j].email@ by {
                        if j < s.len() {
                            assert(s[i].email@ != s[j].email@);
                        } else {
                            assert(t[j].email@ == eb);
                            if t[i].email@ == eb {
                                assert(old(self).spec_contains(eb));
                            }
                        }
                    }
                    assert forall|e: Seq<u8>| final(self).spec_contains(e) <==> (old(
                        self,
                    ).spec_contains(e) || e == eb) by {
                        if final(self).spec_contains(e) {
                            let i = choose|i: int| 0 <= i < t.len() && t[i].email@ == e;
                            if i < s.len() {
                                assert(old(self).spec_contains(e));
                            }
                        }
                        if old(self).spec_contains(e) {
                            let i = choose|i: int| 0 <= i < s.len() && s[i].email@ == e;
                            assert(t[i].email@ == e);
                        }
                        if e == eb {
                            assert(t[s.len() as int].email@ == e);
                        }
                    }
                    let inew = final(self).spec_index_of(eb);
                    assert(t[inew].email@ == eb);
                    if inew < s.len() {
                        assert(old(self).spec_contains(eb));
                    }
                    assert(final(self).spec_user(eb) == user);
                    assert forall|e: Seq<u8>|
                        e != eb && old(self).spec_contains(e) implies final(self).spec_user(e)
                        == old(self).spec_user(e) by {
                        let i0 = old(self).spec_index_of(e);
                        assert(s[i0].email@ == e);
                        let i1 = final(self).spec_index_of(e);
                        assert(final(self).spec_contains(e));
                        assert(t[i1].email@ == e);
                        assert(i1 != s.len() as int);
                        assert(t[i1] == s[i1]);
                        old(self).lemma_index_unique(i0, i1);
                    }
                }
                Ok(())
            },
        }
    }

    /// Looks a user up by email.
    pub fn get(&self, email: &Email) -> (r: Result<&User, UserStoreError>)
        requires
            self.wf(),
        ensures
            match r {
                Ok(u) => self.spec_contains(email@) && *u == self.spec_user(email@),
                Err(err) => err == UserStoreError::UserNotFound && !self.spec_contains(email@),
            },
    {
        match self.index_of(email.as_bytes()) {
            Some(i) => Ok(&self.users[i]),
            None => Err(UserStoreError::UserNotFound),
        }
    }

    /// Validates an email/password pair.  An unknown email and a wrong
    /// password both yield `InvalidCredentials`, and the password check is a
    /// constant-time digest comparison.
    pub fn validate(&self, email: &Email, raw_password: &str) -> (r: Result<
        &User,
        UserStoreError,
    >)
        requires
            self.wf(),
        ensures
            match r {
                Ok(u) => self.spec_contains(email@) && *u == self.spec_user(email@)
                    && u.password.spec_matches(raw_password.spec_bytes()),
                Err(err) => err == UserStoreError::InvalidCredentials && !(self.spec_contains(
                    email@,
                ) && self.spec_user(email@).password.spec_matches(raw_password.spec_bytes())),
            },
    {
        match self.index_of(email.as_bytes()) {
            Some(i) => {
                let user = &self.users[i];
                if user.password.matches(raw_password) {
                    Ok(user)
                } else {
                    Err(UserStoreError::InvalidCredentials)
                }
            },
            None => Err(UserStoreError::InvalidCredentials),
        }
    }
}

} // verus!
