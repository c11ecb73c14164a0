//! The process-wide lifecycle of the runtime: initialized once, then shut down.
use vstd::prelude::*;

use crate::error::{
    Error,
    INIT_ERROR_ALREADY_RUNNING,
    INIT_ERROR_INTERFACE_NOT_FOUND,
    INIT_ERROR_NONE,
    INIT_ERROR_NOT_INITIALIZED,
};
use crate::system::IVRSystem;

verus! {

/// Where the runtime stands. Interfaces may be used only while it is
/// initialized.
#[derive(Clone, Copy, Debug, PartialEq, Eq, Structural)]
pub enum Lifecycle {
    Uninitialized,
    Initialized,
    ShutDown,
}

/// Whether a subsystem handle may be used.
pub open spec fn usable(s: Lifecycle) -> bool {
    s == Lifecycle::Initialized
}

/// What the native initializer's result code makes of an uninitialized runtime.
pub open spec fn init_result(code: u32) -> Result<(), Error> {
    if code == INIT_ERROR_NONE {
        Ok(())
    } else {
        Err(Error { code })
    }
}

/// The state after the native initializer returned `code`.
pub open spec fn after_init(code: u32) -> Lifecycle {
    if code == INIT_ERROR_NONE {
        Lifecycle::Initialized
    } else {
        Lifecycle::Uninitialized
    }
}

/// The state after a shutdown.
pub open spec fn after_shutdown(s: Lifecycle) -> Lifecycle {
    if s == Lifecycle::Initialized {
        Lifecycle::ShutDown
    } else {
        s
    }
}

/// What a lookup of the System interface gives in state `s`, when the runtime
/// reported `code` and the address `handle`.
pub open spec fn system_result(s: Lifecycle, code: u32, handle: usize) -> Result<usize, Error> {
    if !usable(s) {
        Err(Error { code: INIT_ERROR_NOT_INITIALIZED })
    } else if code != INIT_ERROR_NONE {
        Err(Error { code })
    } else if handle == 0 {
        Err(Error { code: INIT_ERROR_INTERFACE_NOT_FOUND })
    } else {
        Ok(handle)
    }
}

/// The single owner of the runtime within a process.
pub struct Runtime {
    state: Lifecycle,
}

impl View for Runtime {
    type V = Lifecycle;

    closed spec fn view(&self) -> Lifecycle {
        self.state
    }
}

impl Runtime {
    /// A runtime that was never initialized.
    pub fn new() -> (r: Runtime)
        ensures
            r@ == Lifecycle::Uninitialized,
    {
        Runtime { state: Lifecycle::Uninitialized }
    }

    /// Where the runtime stands.
    pub fn state(&self) -> (r: Lifecycle)
        ensures
            r == self@,
    {
        self.state
    }

    /// Whether subsystem handles may be used now.
    pub fn is_usable(&self) -> (r: bool)
        ensures
            r == usable(self@),
    {
        self.state == Lifecycle::Initialized
    }

    /// Whether the native initializer may be called: only on a runtime that
    /// was never initialized.
    pub fn check_init(&self) -> (r: Result<(), Error>)
        ensures
            r is Ok <==> self@ == Lifecycle::Uninitialized,
            r is Err ==> r == Err::<(), Error>(Error { code: INIT_ERROR_ALREADY_RUNNING }),
    {
        if self.state == Lifecycle::Uninitialized {
            Ok(())
        } else {
            Err(Error::from_raw(INIT_ERROR_ALREADY_RUNNING))
        }
    }

    /// Takes the native initializer's result code: the runtime is initialized
    /// when it is the code for no error, and the code comes back as an error
    /// otherwise.
    pub fn init(&mut self, code: u32) -> (r: Result<(), Error>)
        requires
            old(self)@ == Lifecycle::Uninitialized,
        ensures
            r == init_result(code),
            final(self)@ == after_init(code),
    {
        if code == INIT_ERROR_NONE {
            self.state = Lifecycle::Initialized;
            Ok(())
        } else {
            Err(Error::from_raw(code))
        }
    }

    /// Takes the result of a lookup of the System interface: the code the
    /// runtime reported and the function table's address.
    pub fn system(&self, code: u32, handle: usize) -> (r: Result<IVRSystem, Error>)
        ensures
            r is Ok <==> system_result(self@, code, handle) is Ok,
            r matches Ok(s) ==> s.wf() && system_result(self@, code, handle) == Ok::<usize, Error>(s@),
            r matches Err(e) ==> system_result(self@, code, handle) == Err::<usize, Error>(e),
    {
        if self.state != Lifecycle::Initialized {
            Err(Error::from_raw(INIT_ERROR_NOT_INITIALIZED))
        } else if code != INIT_ERROR_NONE {
            Err(Error::from_raw(code))
        } else {
            match IVRSystem::from_raw(handle) {
                Some(s) => Ok(s),
                None => Err(Error::from_raw(INIT_ERROR_INTERFACE_NOT_FOUND)),
            }
        }
    }

    /// Ends the session. Returns whether the native teardown is to be called,
    /// which is exactly when the runtime was initialized.
    pub fn shutdown(&mut self) -> (r: bool)
        ensures
            r == usable(old(self)@),
            final(self)@ == after_shutdown(old(self)@),
            !usable(final(self)@),
    {
        if self.state == Lifecycle::Initialized {
            self.state = Lifecycle::ShutDown;
            true
        } else {
            false
        }
    }
}

/// Every native code but the one for no error makes initialization fail with
/// an error that carries that very code, and leaves the runtime uninitialized.
pub proof fn lemma_init_error_carries_code(code: u32)
    requires
        code != INIT_ERROR_NONE,
    ensures
        init_result(code) == Err::<(), Error>(Error { code }),
        after_init(code) == Lifecycle::Uninitialized,
{
}

/// After a successful initialization and a shutdown, no subsystem handle is
/// usable and no lookup yields one, whatever the runtime would report.
pub proof fn lemma_init_then_shutdown(code: u32, handle: usize)
    ensures
        !usable(after_shutdown(after_init(INIT_ERROR_NONE))),
        system_result(after_shutdown(after_init(INIT_ERROR_NONE)), code, handle) is Err,
{
}

} // verus!
