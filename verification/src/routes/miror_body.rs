//! Echo of a JSON body.
use vstd::prelude::*;

verus! {
#[derive(Debug, PartialEq, Eq)]
pub struct RequestBody {
    pub message: String,
}

/// Answers with the body it was sent.
pub fn miror_body(body: RequestBody) -> (echo: RequestBody)
    ensures
        echo == body,
{
    body
}

} // verus!
