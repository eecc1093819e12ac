//! Campaign and feedback identifiers: 128-bit UUIDs, written in their
//! hyphenated lower-case form.
use vstd::prelude::*;
use vstd::string::StringSliceAdditionalSpecFns;

use crate::errors::ServiceError;

verus! {

/// The lower-case hexadecimal digit for `d` (0 to 15).
pub open spec fn hex_digit(d: int) -> char {
    if d < 10 {
        (d + 48) as char
    } else {
        (d + 87) as char
    }
}

/// The last `n` hexadecimal digits of `x`, most significant first.
pub open spec fn hex_digits(x: nat, n: nat) -> Seq<char>
    decreases n,
{
    if n == 0 {
        Seq::empty()
    } else {
        hex_digits(x / 16, (n - 1) as nat).push(hex_digit((x % 16) as int))
    }
}

/// The hyphenated form of a UUID: its 32 hexadecimal digits in groups of
/// 8, 4, 4, 4 and 12, joined by `-`.
pub open spec fn hyphenated(id: u128) -> Seq<char> {
    let d = hex_digits(id as nat, 32);
    d.subrange(0, 8) + seq!['-'] + d.subrange(8, 12) + seq!['-'] + d.subrange(12, 16) + seq!['-']
        + d.subrange(16, 20) + seq!['-'] + d.subrange(20, 32)
}

/// `hex_digits(x, n)` has `n` digits.
pub proof fn lemma_hex_digits_len(x: nat, n: nat)
    ensures
        hex_digits(x, n).len() == n,
    decreases n,
{
    if n > 0 {
        lemma_hex_digits_len(x / 16, (n - 1) as nat);
    }
}

/// Every identifier's text form has 36 characters: 32 digits and 4 hyphens.
pub proof fn lemma_hyphenated_len(id: u128)
    ensures
        hyphenated(id).len() == 36,
{
    lemma_hex_digits_len(id as nat, 32);
}

/// A byte length that some textual form of a UUID has (simple, hyphenated,
/// braced, URN).
pub open spec fn uuid_text_len(n: nat) -> bool {
    n == 32 || n == 36 || n == 38 || n == 45
}

/// The UUID that `uuid::Uuid::parse_str` reads from `s`, if it reads one.
pub uninterp spec fn uuid_parse(s: Seq<char>) -> Option<u128>;

/// Calls `uuid::Uuid::from_u128(id).to_string()`: the `Display` of a UUID is
/// its hyphenated lower-case form, most significant digit first.
#[verifier::external_body]
fn uuid_to_string(id: u128) -> (s: String)
    ensures
        s@ == hyphenated(id),
{
    uuid::Uuid::from_u128(id).to_string()
}

/// Calls `uuid::Uuid::parse_str(s)` and takes the UUID as a `u128`. What it
/// accepts is named by `uuid_parse`; the contract adds two facts that the
/// crate's parser shows: an input whose byte length is none of 32, 36, 38, 45
/// is refused, and the hyphenated form of a UUID reads back as that UUID.
#[verifier::external_body]
fn uuid_parse_str(s: &str) -> (r: Option<u128>)
    ensures
        r == uuid_parse(s@),
        !uuid_text_len(s.spec_bytes().len()) ==> r is None,
        forall|x: u128| #[trigger] hyphenated(x) == s@ ==> r == Some(x),
{
    match uuid::Uuid::parse_str(s) {
        Ok(u) => Some(u.as_u128()),
        Err(_) => None,
    }
}

/// The text form in which an identifier is handed out.
pub fn id_text(id: u128) -> (s: String)
    ensures
        s@ == hyphenated(id),
{
    uuid_to_string(id)
}

/// The identifier that a path segment names, or `NotAnId`, given what the
/// UUID parser read from it.
pub fn id_or_not_an_id(parsed: Option<u128>) -> (r: Result<u128, ServiceError>)
    ensures
        r == match parsed {
            Some(x) => Ok::<u128, ServiceError>(x),
            None => Err(ServiceError::NotAnId),
        },
{
    match parsed {
        Some(x) => Ok(x),
        None => Err(ServiceError::NotAnId),
    }
}

/// Reads a campaign identifier from a path segment; anything that is not a
/// UUID is `NotAnId`. Every identifier handed out by `id_text` is read back.
pub fn parse_campaign_id(s: &str) -> (r: Result<u128, ServiceError>)
    ensures
        r == match uuid_parse(s@) {
            Some(x) => Ok::<u128, ServiceError>(x),
            None => Err(ServiceError::NotAnId),
        },
        !uuid_text_len(s.spec_bytes().len()) ==> r == Err::<u128, ServiceError>(ServiceError::NotAnId),
        forall|x: u128| #[trigger] hyphenated(x) == s@ ==> r == Ok::<u128, ServiceError>(x),
{
    id_or_not_an_id(uuid_parse_str(s))
}

} // verus!
