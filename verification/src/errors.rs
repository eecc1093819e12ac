//! Errors of the service and of the store behind it.
use vstd::prelude::*;

use crate::text::{has_substring, contains, same_text};

verus! {

/// What a failed store operation reported.
#[derive(Clone, Debug, PartialEq, Eq)]
pub enum StoreError {
    /// The database refused the statement, with its SQLSTATE code and message.
    Database { code: Option<String>, message: String },
    /// Any other failure (connection, protocol, decoding).
    Other,
}

/// Errors that a request can end in.
#[derive(Clone, Debug, PartialEq, Eq)]
pub enum ServiceError {
    /// The path does not hold a UUID.
    NotAnId,
    /// The page URL is longer than the limit.
    URLTooLong,
    /// The page URL is not an absolute URL.
    NotAUrl,
    /// The password given does not match the account's.
    WrongPassword,
    /// No account has the name given.
    AccountNotFound,
    /// The store failed.
    Store(StoreError),
}

/// The SQLSTATE code of a unique-constraint violation.
pub open spec fn unique_violation_code() -> Seq<char> {
    seq!['2', '3', '5', '0', '5']
}

/// `e` is a unique-constraint violation whose message names `constraint`.
pub open spec fn is_unique_violation(e: StoreError, constraint: Seq<char>) -> bool {
    match e {
        StoreError::Database { code, message } => {
            &&& code matches Some(c)
            &&& c@ == unique_violation_code()
            &&& has_substring(message@, constraint)
        },
        StoreError::Other => false,
    }
}

/// Whether `e` is a unique-constraint violation on `constraint`.
pub fn unique_violation(e: &StoreError, constraint: &str) -> (b: bool)
    ensures
        b == is_unique_violation(*e, constraint@),
{
    match e {
        StoreError::Database { code, message } => match code {
            Some(c) => {
                let expected = "23505";
                proof {
                    reveal_strlit("23505");
                }
                assert(expected@ =~= unique_violation_code());
                same_text(c.as_str(), expected) && contains(message.as_str(), constraint)
            },
            None => false,
        },
        StoreError::Other => false,
    }
}

} // verus!
