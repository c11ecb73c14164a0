//! Errors reported by the runtime's initialization and interface lookup.
use vstd::prelude::*;

verus! {

/// The code that means no error.
pub const INIT_ERROR_NONE: u32 = 0;

/// The code for an interface that the runtime does not provide.
pub const INIT_ERROR_INTERFACE_NOT_FOUND: u32 = 105;

/// The code for a use of the runtime before it was initialized.
pub const INIT_ERROR_NOT_INITIALIZED: u32 = 109;

/// The code for an initialization while the runtime is already running.
pub const INIT_ERROR_ALREADY_RUNNING: u32 = 143;

/// One of the runtime's initialization error codes.
#[derive(Clone, Copy, Debug, PartialEq, Eq, Structural)]
pub struct Error {
    pub code: u32,
}

impl Error {
    /// Wraps a native error code.
    pub fn from_raw(code: u32) -> (r: Error)
        ensures
            r.code == code,
    {
        Error { code }
    }

    /// The wrapped native code.
    pub fn to_raw(&self) -> (r: u32)
        ensures
            r == self.code,
    {
        self.code
    }
}

} // verus!
