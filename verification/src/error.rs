//! The ways in which preparing or executing a statement fails.

use vstd::prelude::*;
use crate::types::FailedToLookupTypeError;
use crate::wire::NulError;

verus! {

/// A failure of a statement operation. `E` is the connection's own error
/// type, which is passed on as it came.
#[derive(Debug)]
pub enum Error<E> {
    /// The SQL text or the statement name holds a zero byte and cannot be
    /// sent as a null-terminated string.
    InvalidCString(NulError),
    /// The type of a parameter could not be resolved to an oid.
    SerializationError(FailedToLookupTypeError),
    /// The connection or the server refused a call.
    DatabaseError(E),
}

} // verus!
