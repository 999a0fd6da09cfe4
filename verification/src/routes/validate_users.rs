//! The body of the credentials check, which only logs what it receives.
use vstd::prelude::*;

verus! {
#[derive(Debug, PartialEq, Eq)]
pub struct RequestUser {
    pub user: String,
    pub pass: String,
}

} // verus!
