//! Constants of the engine's C interface.

use vstd::prelude::*;

verus! {

/// The status code for an argument that cannot be handed to the engine.
pub const ERROR_INVALID_ARGUMENT: i32 = 10003;

/// The capacity, in bytes, of the buffer into which the engine writes the
/// value of a string parameter.
pub const GRB_MAX_STRLEN: usize = 512;

} // verus!
