//! Echo of query parameters, with the id moved on by ten.
use vstd::prelude::*;

verus! {
#[derive(Debug, PartialEq, Eq)]
pub struct QueryParams {
    pub message: String,
    pub id: i16,
}

/// Answers with the message it was sent and the id plus ten. An id above
/// `i16::MAX - 10` overflows, on which the handler panics; it is left out.
pub fn query_params(query: QueryParams) -> (response: QueryParams)
    requires
        query.id + 10 <= i16::MAX,
    ensures
        response.message == query.message,
        response.id == query.id + 10,
{
    QueryParams { message: query.message, id: query.id + 10 }
}

} // verus!
