//! What can go wrong in a run, and what each failure means for the process.

use vstd::prelude::*;

verus! {

/// Why a backend could not turn a probe's output into a capture.
#[derive(Clone, Copy, Debug, PartialEq, Eq, Structural)]
pub enum ProbeFault {
    /// The probe could not be run, or the router did not answer it.
    Unreachable,
    /// The output is not UTF-8 text.
    Encoding,
    /// A line pattern was not accepted by the pattern engine.
    Pattern,
    /// The output is not a well-formed document.
    Document,
    /// The output lacks a field that every answer must carry.
    MissingField,
    /// A peer's address is not a dotted IPv4 address.
    Address,
    /// An update count is not a decimal number within range.
    Count,
    /// Update counts came without a peer to which they could belong.
    Orphan,
    /// The output is of a kind that the backend does not read.
    WrongInput,
}

/// The failures of a run.
#[derive(Clone, Copy, Debug, PartialEq, Eq, Structural)]
pub enum WatchError {
    /// The backend could not produce a capture at this tick.
    ProbeFailed(ProbeFault),
    /// Inbound BGP traffic could not be unblocked before polling.
    PreflightFailed,
    /// The requested target names no backend.
    UnrecognizedBackend,
}

impl WatchError {
    /// Whether the failure ends the run. Only an unrecognized target does
    /// not: it is answered with a hint.
    pub open spec fn spec_is_fatal(&self) -> bool {
        !(self is UnrecognizedBackend)
    }

    /// Whether the failure ends the run.
    #[verifier::when_used_as_spec(spec_is_fatal)]
    pub fn is_fatal(&self) -> (r: bool)
        ensures
            r == self.spec_is_fatal(),
    {
        match self {
            WatchError::UnrecognizedBackend => false,
            _ => true,
        }
    }

    /// The status with which the process leaves on this failure: non-zero
    /// exactly for the fatal ones.
    pub fn exit_status(&self) -> (r: u8)
        ensures
            r == (if self.is_fatal() { 1u8 } else { 0u8 }),
    {
        if self.is_fatal() {
            1
        } else {
            0
        }
    }
}

/// The verdict on the step that unblocks BGP traffic, from whether the
/// command that does it succeeded.
pub fn preflight_outcome(succeeded: bool) -> (r: Result<(), WatchError>)
    ensures
        r == (if succeeded {
            Ok::<(), WatchError>(())
        } else {
            Err::<(), WatchError>(WatchError::PreflightFailed)
        }),
{
    if succeeded {
        Ok(())
    } else {
        Err(WatchError::PreflightFailed)
    }
}

} // verus!
