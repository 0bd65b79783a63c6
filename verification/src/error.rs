//! The failure classes a bridge call can surface.

use vstd::prelude::*;

verus! {

/// Why a bridge call failed.
///
/// Empty host output is not an error: it is a legitimate "no value" result
/// for single-property reads and "zero lines" for batch reads, and is
/// absorbed into the normal return value.
#[derive(Clone, Copy, Debug, PartialEq, Eq, Structural)]
pub enum BridgeError {
    /// The scripting host could not be started or crashed.
    SpawnFailure,
    /// The host ran and signaled an error exit status.
    ExecutionError,
    /// A batch response carried a different number of lines than requested
    /// expressions; attributing lines positionally would cross-wire them.
    MisalignedResponse,
    /// A property value could not be read as the expected number.
    Coercion,
}

impl BridgeError {
    /// The two failure classes that running a script itself can raise.
    pub open spec fn is_host_error(self) -> bool {
        self == BridgeError::SpawnFailure || self == BridgeError::ExecutionError
    }
}

} // verus!
