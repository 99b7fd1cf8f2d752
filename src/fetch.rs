//! What a fetch can end in, and the rule on the response status.
use vstd::prelude::*;

verus! {

/// Why the one fetch failed. The view does not tell these apart: each ends
/// in the same failed state with the same alert.
#[derive(Debug, Clone, Copy, PartialEq, Eq, Structural)]
pub enum FetchError {
    /// The request never got a response (connection, DNS, timeout).
    Transport,
    /// The response came with a status outside 200..=299.
    Status(u16),
    /// The body is not a JSON array of records with `id`, `title` and `body`.
    Decode,
}

/// A response status counts as success when it is a 2xx code.
pub open spec fn is_success_status(status: u16) -> bool {
    200 <= status <= 299
}

/// Accepts a 2xx status and turns any other into `FetchError::Status`.
pub fn check_status(status: u16) -> (r: Result<(), FetchError>)
    ensures
        r is Ok <==> is_success_status(status),
        !is_success_status(status) ==> r == Err::<(), FetchError>(FetchError::Status(status)),
{
    if 200 <= status && status <= 299 {
        Ok(())
    } else {
        Err(FetchError::Status(status))
    }
}

} // verus!
