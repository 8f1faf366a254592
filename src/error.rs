//! The ways a benchmark run can fail.
use vstd::prelude::*;

verus! {

/// Why a channel could not be set up or a run was stopped.
#[derive(Debug, Clone, Copy, PartialEq, Eq, Structural)]
pub enum IpcError {
    /// The backing store could not be created or opened.
    ResourceError,
    /// The region that was attached does not have the layout that the payload size needs.
    LayoutMismatch,
    /// A received payload is not the one the protocol expects.
    ProtocolViolation,
    /// Waiting for the peer's signal failed or ran past its bound.
    TimeoutError,
    /// The consumer process could not be started.
    ChildProcessError,
}

} // verus!
