//! The answer to requests that no endpoint handles.

use vstd::prelude::*;

verus! {

/// The status of a request no endpoint handles: `OPTIONS` on a known path is
/// answered 200, another method on a known path 405, and an unknown path 418.
pub fn default_response_status(has_resource: bool, is_options: bool) -> (status: u16)
    ensures
        status == if !has_resource {
            418u16
        } else if is_options {
            200u16
        } else {
            405u16
        },
{
    if has_resource {
        if is_options {
            return 200;
        }
        405
    } else {
        418
    }
}

} // verus!
