use vstd::prelude::*;
use vstd::string::*;
use crate::error::VaultError;

verus! {

/// Shortest inactivity timeout a vault may have, in days.
pub const MIN_TIMEOUT_DAYS: u64 = 1;

/// Longest inactivity timeout a vault may have, in days (ten years).
pub const MAX_TIMEOUT_DAYS: u64 = 3650;

/// Longest destination address accepted, in characters.
pub const MAX_ADDRESS_CHARS: usize = 100;

/// Whether `char::is_alphanumeric` holds of `c` (Unicode Alphabetic or Numeric).
pub uninterp spec fn unicode_alphanumeric(c: char) -> bool;

/// An ASCII letter or digit.
pub open spec fn ascii_alphanumeric(c: char) -> bool {
    ('a' <= c <= 'z') || ('A' <= c <= 'Z') || ('0' <= c <= '9')
}

/// Relies on `char::is_alphanumeric`: true exactly for the characters with the
/// Unicode Alphabetic or Numeric property; among ASCII characters those are
/// the letters and digits.
#[verifier::external_body]
fn is_alphanumeric(c: char) -> (r: bool)
    ensures
        (c as u32) < 128 ==> r == ascii_alphanumeric(c),
        (c as u32) >= 128 ==> r == unicode_alphanumeric(c),
{
    c.is_alphanumeric()
}

/// The characters that look alike and are never part of an address.
pub open spec fn ambiguous_char(c: char) -> bool {
    c == '0' || c == 'O' || c == 'I' || c == 'l'
}

/// What `char::is_alphanumeric` returns: on ASCII the letters and digits,
/// beyond it the Unicode property.
pub open spec fn alphanumeric(c: char) -> bool {
    if (c as u32) < 128 {
        ascii_alphanumeric(c)
    } else {
        unicode_alphanumeric(c)
    }
}

pub open spec fn address_char(c: char) -> bool {
    alphanumeric(c) && !ambiguous_char(c)
}

/// A syntactically acceptable destination address: one to a hundred
/// characters, each alphanumeric and none of the ambiguous ones. This is a
/// sanity filter, not a checksum.
pub open spec fn valid_destination(s: Seq<char>) -> bool {
    &&& 0 < s.len() <= MAX_ADDRESS_CHARS
    &&& forall|i: int| 0 <= i < s.len() ==> address_char(#[trigger] s[i])
}

/// Checks the form of a destination address.
pub fn validate_bitcoin_address(address: &str) -> (r: bool)
    ensures
        r == valid_destination(address@),
{
    let n = address.unicode_len();
    if n == 0 || n > MAX_ADDRESS_CHARS {
        return false;
    }
    let mut i: usize = 0;
    while i < n
        invariant
            n == address@.len(),
            n <= MAX_ADDRESS_CHARS,
            i <= n,
            forall|j: int| 0 <= j < i ==> address_char(#[trigger] address@[j]),
        decreases n - i,
    {
        let c = address.get_char(i);
        let ambiguous = c == '0' || c == 'O' || c == 'I' || c == 'l';
        if ambiguous || !is_alphanumeric(c) {
            assert(!address_char(address@[i as int]));
            return false;
        }
        i = i + 1;
    }
    true
}

pub open spec fn valid_timeout(days: u64) -> bool {
    MIN_TIMEOUT_DAYS <= days <= MAX_TIMEOUT_DAYS
}

/// Checks that a timeout lies within the accepted bounds.
pub fn validate_timeout(timeout_days: u64) -> (r: Result<(), VaultError>)
    ensures
        timeout_days < MIN_TIMEOUT_DAYS <==> r == Err::<(), VaultError>(VaultError::TimeoutTooShort),
        timeout_days > MAX_TIMEOUT_DAYS <==> r == Err::<(), VaultError>(VaultError::TimeoutTooLong),
        valid_timeout(timeout_days) <==> r is Ok,
{
    if timeout_days < MIN_TIMEOUT_DAYS {
        return Err(VaultError::TimeoutTooShort);
    }
    if timeout_days > MAX_TIMEOUT_DAYS {
        return Err(VaultError::TimeoutTooLong);
    }
    Ok(())
}

} // verus!
