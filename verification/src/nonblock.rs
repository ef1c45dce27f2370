//! The non-blocking result vocabulary shared by every peripheral.
//!
//! A poll either completes, fails with a peripheral-specific error, or
//! reports that the hardware is not ready yet (`WouldBlock`). `WouldBlock`
//! is not an error condition: the caller is expected to retry later under
//! its own scheduling policy.

use vstd::prelude::*;

verus! {

/// The ways a single non-blocking poll can fall short.
#[derive(Clone, Copy, Debug, PartialEq, Eq, Structural)]
pub enum NbError<E> {
    /// The operation failed with a peripheral error.
    Other(E),
    /// The hardware is not ready; retry later.
    WouldBlock,
}

/// Result of one non-blocking poll.
pub type NbResult<T, E> = Result<T, NbError<E>>;

} // verus!
