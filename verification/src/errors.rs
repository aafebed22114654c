//! Errors that the handlers report to the user.

use vstd::prelude::*;

verus! {

/// An error answered to a request.
#[derive(Debug, PartialEq, Eq)]
pub enum CustomError {
    /// The service is set up wrongly, or a link does not carry what it should.
    FaultySetup(String),
    /// The request does not say who is asking.
    Unauthorized(String),
}

} // verus!
