//! Status codes and errors surfaced by the engine boundary.

use vstd::prelude::*;

verus! {

/// A status code returned by every native creation call.  The set is closed:
/// these four values are the whole ABI contract for failure reporting.
#[derive(Debug, Clone, Copy, PartialEq, Eq, Structural)]
pub enum IplError {
    /// The operation succeeded.
    Success,
    /// Unspecified failure inside the engine.
    Failure,
    /// The engine could not allocate memory.
    OutOfMemory,
    /// An external dependency failed to initialize.
    Initialization,
}

/// Errors reported by this layer: any non-success status from a native
/// creation call, carrying the status code, never silently ignored.
#[derive(Debug, Clone, Copy, PartialEq, Eq, Structural)]
pub enum SteamAudioError {
    /// A native call returned the carried non-success status code.
    IPLError(IplError),
}

impl IplError {
    /// The integer status code this value takes on the ABI.
    pub fn code(self) -> (r: i32)
        ensures
            r == self.code_spec(),
    {
        match self {
            IplError::Success => 0,
            IplError::Failure => 1,
            IplError::OutOfMemory => 2,
            IplError::Initialization => 3,
        }
    }

    /// ABI encoding of the status code.
    pub open spec fn code_spec(self) -> i32 {
        match self {
            IplError::Success => 0,
            IplError::Failure => 1,
            IplError::OutOfMemory => 2,
            IplError::Initialization => 3,
        }
    }

    /// A human-readable description of the status.
    pub fn description(&self) -> (r: &'static str)
        ensures
            r@ == self.description_spec(),
    {
        match self {
            IplError::Success => "ipl status success",
            IplError::Failure => "ipl status failure",
            IplError::OutOfMemory => "ipl status out of memory",
            IplError::Initialization => "ipl status initialization: An error occurred while initializing an external dependency.",
        }
    }

    /// The description text of each status.
    pub open spec fn description_spec(self) -> Seq<char> {
        match self {
            IplError::Success => "ipl status success"@,
            IplError::Failure => "ipl status failure"@,
            IplError::OutOfMemory => "ipl status out of memory"@,
            IplError::Initialization => "ipl status initialization: An error occurred while initializing an external dependency."@,
        }
    }
}

impl SteamAudioError {
    /// The status code carried by this error.
    pub fn status(&self) -> (r: IplError)
        ensures
            self matches SteamAudioError::IPLError(s) && r == s,
    {
        match self {
            SteamAudioError::IPLError(s) => *s,
        }
    }

    /// A human-readable description of the error.
    pub fn description(&self) -> (r: &'static str)
        ensures
            self matches SteamAudioError::IPLError(s) && r@ == s.description_spec(),
    {
        match self {
            SteamAudioError::IPLError(s) => s.description(),
        }
    }
}

} // verus!
