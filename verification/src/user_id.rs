//! The identity of the user who makes a request, read from the `x-user-id` header.

use vstd::prelude::*;
use crate::decimal::{parse_u32, parse_u32_spec, ascii_bytes, decimal, lemma_decimal_digits, is_digit,
    unsigned_digits};
use crate::errors::CustomError;

verus! {

/// The user on whose behalf a request is made.
#[derive(Debug, PartialEq, Eq)]
pub struct UserId {
    pub user_id: u32,
}

/// The bytes that a header value may hold to be read as text: visible ASCII and tab.
pub open spec fn is_visible_ascii(b: u8) -> bool {
    (32 <= b && b < 127) || b == 9
}

/// The user id that the `x-user-id` header gives, if any: the header is present,
/// holds only visible ASCII, and reads as a `u32`.
pub open spec fn header_user_id(value: Option<Seq<u8>>) -> Option<u32> {
    match value {
        Some(v) => if forall|i: int| 0 <= i < v.len() ==> is_visible_ascii(#[trigger] v[i]) {
            parse_u32_spec(v)
        } else {
            None
        },
        None => None,
    }
}

/// The message of the refusal when the header is missing or unreadable.
pub open spec fn unauthorized_message() -> Seq<char> {
    "x-user-id not found or unparseable"@
}

/// Whether every byte of a header value is visible ASCII (or a tab).
fn all_visible_ascii(v: &[u8]) -> (res: bool)
    ensures
        res == forall|i: int| 0 <= i < v@.len() ==> is_visible_ascii(#[trigger] v@[i]),
{
    let mut i: usize = 0;
    while i < v.len()
        invariant
            i <= v@.len(),
            forall|k: int| 0 <= k < i ==> is_visible_ascii(#[trigger] v@[k]),
        decreases v@.len() - i,
    {
        let b = v[i];
        if !((32u8 <= b && b < 127u8) || b == 9u8) {
            assert(!is_visible_ascii(v@[i as int]));
            return false;
        }
        i = i + 1;
    }
    true
}

impl UserId {
    /// Reads the user id from the value of the `x-user-id` header (`None` when
    /// the request has no such header). A missing or unreadable header is refused
    /// as unauthorized.
    pub fn from_request(x_user_id: Option<&[u8]>) -> (res: Result<UserId, CustomError>)
        ensures
            match header_user_id(
                match x_user_id {
                    Some(v) => Some(v@),
                    None => None,
                },
            ) {
                Some(n) => res matches Ok(u) && u.user_id == n,
                None => res matches Err(CustomError::Unauthorized(m)) && m@ == unauthorized_message(),
            },
    {
        if let Some(v) = x_user_id {
            if all_visible_ascii(v) {
                if let Some(user_id) = parse_u32(v) {
                    return Ok(UserId { user_id });
                }
            }
        }
        Err(CustomError::Unauthorized(String::from_str("x-user-id not found or unparseable")))
    }
}

/// Any user id written in decimal in the `x-user-id` header is read back as
/// that same id.
pub proof fn law_header_decimal_round_trip(n: u32)
    ensures
        header_user_id(Some(ascii_bytes(decimal(n as nat)))) == Some(n),
{
    let b = ascii_bytes(decimal(n as nat));
    lemma_decimal_digits(n as nat);
    assert(is_digit(b[0]));
    assert(unsigned_digits(b) == b);
    assert forall|i: int| 0 <= i < b.len() implies is_visible_ascii(#[trigger] b[i]) by {
        assert(is_digit(b[i]));
    }
}

} // verus!
