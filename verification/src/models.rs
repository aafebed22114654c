//! Records that the handlers read from and write to the database.

use vstd::prelude::*;

verus! {

/// A user.
#[derive(Debug, PartialEq, Eq)]
pub struct User {
    pub id: i32,
    pub email: String,
    pub first_name: Option<String>,
    pub last_name: Option<String>,
}

/// A user's copy of a vault key, encrypted for that user.
#[derive(Debug, PartialEq, Eq)]
pub struct UserVault {
    pub vault_id: i32,
    pub user_id: i32,
    pub encrypted_vault_key: String,
}

/// A secret shared with a service account.
#[derive(Debug, PartialEq, Eq)]
pub struct ServiceAccountSecret {
    pub id: i32,
    pub service_account_id: i32,
    pub name: String,
    pub secret: String,
}

/// An optional text by its characters.
pub open spec fn opt_view(o: Option<String>) -> Option<Seq<char>> {
    match o {
        Some(s) => Some(s@),
        None => None,
    }
}

/// The database key that a `u32` id is stored under: the `i32` with the same
/// 32 bits, so ids above `i32::MAX` wrap to negative keys.
pub open spec fn query_id_spec(id: u32) -> int {
    if id <= i32::MAX {
        id as int
    } else {
        id - 0x1_0000_0000
    }
}

/// Converts an id of a request into the `i32` that the queries bind.
pub fn query_id(id: u32) -> (res: i32)
    ensures
        res as int == query_id_spec(id),
{
    let res = id as i32;
    assert(res as int == if id <= 0x7fff_ffff { id as int } else { id - 0x1_0000_0000 })
        by (bit_vector)
        requires
            res == id as i32,
    ;
    res
}

} // verus!
