//! Echo of a path segment read as an integer.
use crate::text::{push_signed_decimal, signed_decimal};
use vstd::prelude::*;

verus! {

/// The decimal text of the id.
pub fn path_vars(id: i32) -> (text: String)
    ensures
        text@ == signed_decimal(id as int),
{
    let mut text = String::new();
    push_signed_decimal(&mut text, id as i64);
    text
}

} // verus!
