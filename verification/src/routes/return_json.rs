//! A fixed JSON answer.
use vstd::prelude::*;

verus! {
#[derive(Debug, PartialEq, Eq)]
pub struct JsonRes {
    pub message: String,
    pub count: i16,
    pub user: String,
}

/// The fixed answer.
pub fn return_json() -> (data: JsonRes)
    ensures
        data.message@ == "helllo mr.Json"@,
        data.count == 14,
        data.user@ == "dabest"@,
{
    JsonRes { message: "helllo mr.Json".to_owned(), count: 14, user: "dabest".to_owned() }
}

} // verus!
