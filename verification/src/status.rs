//! Status codes of the engine's C interface.

use vstd::prelude::*;

verus! {

/// What a status code means: zero is success, anything else is the failure
/// itself, kept as the engine returned it.
pub open spec fn status_result(code: i32) -> Result<(), i32> {
    if code == 0 {
        Ok(())
    } else {
        Err(code)
    }
}

/// Turns the status code of a native call into a `Result`.
pub fn check_error_code(code: i32) -> (r: Result<(), i32>)
    ensures
        r == status_result(code),
{
    if code == 0 {
        Ok(())
    } else {
        Err(code)
    }
}

} // verus!
