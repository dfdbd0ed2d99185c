//! Verified core of a credential-management service.
//!
//! The crate covers registration, password login with an optional two-factor
//! step-up, session-token issuance, global token revocation on logout, and
//! token validity introspection.  Every data structure and every decision is
//! stated in contracts and proved: the credential value objects, the three
//! stateful stores (users, pending two-factor challenges, banned tokens), the
//! token service, and the orchestrator that composes them into five flows.
//!
//! Wire transport stays outside the crate.  Callers hand the library plain
//! values (strings, bytes, integers) and receive typed outcomes; the
//! `requests` module additionally models the structural shape of each request
//! body so that a malformed body is provably rejected before any domain check
//! runs.  The stores are owned values constructed once and passed explicitly
//! into the request-handling context; the surrounding layer serialises
//! access to them (one writer in mutual exclusion with all other access,
//! writes atomic), which an ordinary in-process lock provides.  Randomness
//! and the clock enter as arguments, so every flow is proved for all their
//! values.

pub mod auth;
pub mod banned_store;
pub mod email;
pub mod errors;
pub mod hashing;
pub mod laws;
pub mod password;
pub mod requests;
pub mod token;
pub mod two_fa;
pub mod user;
pub mod user_store;
