//! The handle of the runtime's System interface.
use vstd::prelude::*;

verus! {

/// The address of the System interface's function table, which is never zero.
#[derive(Debug, PartialEq, Eq, Structural)]
pub struct IVRSystem {
    handle: usize,
}

impl View for IVRSystem {
    type V = usize;

    closed spec fn view(&self) -> usize {
        self.handle
    }
}

impl IVRSystem {
    /// Every handle points somewhere.
    pub open spec fn wf(&self) -> bool {
        self@ != 0
    }

    /// The handle for a function table address, if the address is not zero.
    pub fn from_raw(handle: usize) -> (r: Option<IVRSystem>)
        ensures
            r is None <==> handle == 0,
            r matches Some(s) ==> s@ == handle && s.wf(),
    {
        if handle == 0 {
            None
        } else {
            Some(IVRSystem { handle })
        }
    }

    /// The function table address.
    pub fn handle(&self) -> (r: usize)
        ensures
            r == self@,
    {
        self.handle
    }
}

} // verus!
