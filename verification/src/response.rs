//! The error body that the API answers a refused request with.

use vstd::prelude::*;

verus! {

/// The body of a refused request: what failed and where.
#[derive(Clone, Debug)]
pub struct RequestError {
    pub message: String,
    pub description: String,
}

impl RequestError {
    /// An error body with the given texts.
    pub fn new(message: &str, description: &str) -> (r: RequestError)
        ensures
            r.message@ == message@,
            r.description@ == description@,
    {
        RequestError { message: String::from_str(message), description: String::from_str(description) }
    }
}

} // verus!
