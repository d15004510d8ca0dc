//! The liveness probe.

use crate::response::{success, Response};
use vstd::prelude::*;

verus! {

/// Answers the liveness probe: success with an empty body. It takes nothing
/// and looks at nothing, so the answer is the same whatever state the store
/// is in.
pub fn health_check() -> (response: Response)
    ensures
        response@ == success(),
{
    Response::ok()
}

} // verus!
