//! Row level security: every query of a transaction runs as the requesting user.

use vstd::prelude::*;
use crate::decimal::{push_signed_decimal, signed_decimal};

verus! {

/// The statement that makes the policies of the current transaction see `user_id`.
pub open spec fn row_level_security_sql(user_id: int) -> Seq<char> {
    "SET LOCAL row_level_security.user_id = "@ + signed_decimal(user_id)
}

/// Builds the statement that sets the row level security user of a transaction.
pub fn row_level_security_statement(user_id: i32) -> (res: String)
    ensures
        res@ == row_level_security_sql(user_id as int),
{
    let mut s = String::from_str("SET LOCAL row_level_security.user_id = ");
    push_signed_decimal(&mut s, user_id as i64);
    s
}

} // verus!
