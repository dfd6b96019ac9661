//! Error taxonomy of the store and credential layer.
use vstd::prelude::*;

verus! {

/// What can go wrong in the store and credential layer.
///
/// A failed login (wrong password or unknown user) is deliberately *not* an
/// error: it is the normal `false` result of a verification, so that the
/// error channel leaks nothing about which usernames exist.
#[derive(Debug, PartialEq, Eq, Structural, Clone, Copy)]
pub enum SqlError {
    /// The backing store could not be opened or reached.
    StoreUnavailable,
    /// A query or statement failed to execute.
    StoreError,
    /// A user with the requested username already exists.
    DuplicateUser,
    /// The password hash function itself failed.
    HashingError,
    /// A persisted row could not be decoded into a record.
    DecodeError,
    /// No row carries the id that an update targeted.
    NotFound,
    /// The two interactively entered passwords disagree.
    PasswordMismatch,
}

} // verus!
