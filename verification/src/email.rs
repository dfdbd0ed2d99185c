//! The email value object.
//!
//! An `Email` exists only for byte strings of a valid shape: exactly one
//! `@`, with a non-empty local part before it and a non-empty domain part
//! after it.  The shape is a type invariant, so every `Email` value in the
//! system is valid by construction and equality is equality of the
//! underlying bytes.

use vstd::prelude::*;

use crate::errors::ValidationError;
use vstd::string::StrSliceExecFns;
use vstd::string::StringSliceAdditionalSpecFns;

verus! {

/// The byte value of `@`.
pub const AT_SIGN: u8 = 64;

/// A byte string is a valid email shape when it holds exactly one `@`,
/// placed strictly inside the string.
pub open spec fn valid_email(s: Seq<u8>) -> bool {
    exists|i: int|
        0 < i < s.len() - 1 && s[i] == AT_SIGN && (forall|j: int|
            0 <= j < s.len() && s[j] == AT_SIGN ==> j == i)
}

/// A validated email address; immutable, compared by value.
#[derive(Debug)]
pub struct Email {
    bytes: Vec<u8>,
}

impl Clone for Email {
    /// The clone carries the same byte value.
    fn clone(&self) -> (r: Email)
        ensures
            r@ == self@,
    {
        proof {
            use_type_invariant(self);
        }
        let bytes = self.bytes.clone();
        proof {
            assert(bytes@ =~= self.bytes@);
        }
        Email { bytes }
    }
}

impl View for Email {
    type V = Seq<u8>;

    closed spec fn view(&self) -> Seq<u8> {
        self.bytes@
    }
}

impl Email {
    #[verifier::type_invariant]
    pub(crate) open spec fn shape_invariant(self) -> bool {
        valid_email(self@)
    }

    /// Validates a byte string as an email address.
    pub fn parse_bytes(bytes: Vec<u8>) -> (r: Result<Email, ValidationError>)
        ensures
            match r {
                Ok(e) => valid_email(bytes@) && e@ == bytes@,
                Err(_) => !valid_email(bytes@),
            },
    {
        let len = bytes.len();
        let mut i: usize = 0;
        let mut found = false;
        let mut pos: usize = 0;
        let mut dup = false;
        while i < len
            invariant
                len == bytes@.len(),
                0 <= i <= len,
                !found ==> (forall|j: int| 0 <= j < i ==> bytes@[j] != AT_SIGN),
                found ==> 0 <= pos < i && bytes@[pos as int] == AT_SIGN,
                dup ==> (exists|j: int, k: int|
                    0 <= j < k < i && bytes@[j] == AT_SIGN && bytes@[k] == AT_SIGN),
                !dup && found ==> (forall|j: int|
                    0 <= j < i && bytes@[j] == AT_SIGN ==> j == pos),
            decreases len - i,
        {
            if bytes[i] == AT_SIGN {
                if found {
                    dup = true;
                } else {
                    found = true;
                    pos = i;
                }
            }
            i = i + 1;
        }
        if found && !dup && pos > 0 && pos + 1 < len {
            proof {
                assert(valid_email(bytes@)) by {
                    assert(0 < pos < bytes@.len() - 1 && bytes@[pos as int] == AT_SIGN
                        && (forall|j: int|
                        0 <= j < bytes@.len() && bytes@[j] == AT_SIGN ==> j == pos as int));
                }
            }
            Ok(Email { bytes })
        } else {
            proof {
                if valid_email(bytes@) {
                    let w = choose|i0: int|
                        0 < i0 < bytes@.len() - 1 && bytes@[i0] == AT_SIGN && (forall|j: int|
                            0 <= j < bytes@.len() && bytes@[j] == AT_SIGN ==> j == i0);
                    assert(bytes@[w] == AT_SIGN);
                    assert(found);
                    assert(pos as int == w);
                    assert(!dup);
                }
            }
            Err(ValidationError)
        }
    }

    /// Validates a string as an email address; the value is its UTF-8 bytes.
    pub fn parse(raw: &str) -> (r: Result<Email, ValidationError>)
        ensures
            match r {
                Ok(e) => valid_email(raw.spec_bytes()) && e@ == raw.spec_bytes(),
                Err(_) => !valid_email(raw.spec_bytes()),
            },
    {
        Email::parse_bytes(raw.as_bytes_vec())
    }

    /// The underlying bytes of the address.
    pub fn as_bytes(&self) -> (r: &[u8])
        ensures
            r@ == self@,
    {
        self.bytes.as_slice()
    }
}

impl PartialEq for Email {
    /// Equality by value: the two byte strings are equal.
    fn eq(&self, other: &Email) -> (r: bool) {
        crate::hashing::ct_bytes_eq(self.bytes.as_slice(), other.bytes.as_slice())
    }
}

impl vstd::std_specs::cmp::PartialEqSpecImpl for Email {
    open spec fn obeys_eq_spec() -> bool {
        true
    }

    open spec fn eq_spec(&self, other: &Email) -> bool {
        self@ == other@
    }
}

} // verus!
