//! The address window of the kernel CPU.

use vstd::prelude::*;

verus! {

/// Where the kernel CPU's memory lies. Images are linked for `exec_address`;
/// their file headers, `header_size` bytes, sit directly below it.
#[derive(Debug, Clone, Copy, PartialEq, Eq, Structural)]
pub struct AddressWindow {
    pub exec_address: usize,
    pub last_address: usize,
    pub header_size: usize,
}

impl AddressWindow {
    /// Whether `ptr` lies in the window, both ends included.
    pub open spec fn contains(self, ptr: usize) -> bool {
        self.exec_address <= ptr <= self.last_address
    }

    /// The address at which an image file is placed, so that its text comes to
    /// lie at the execution address.
    pub open spec fn target(self) -> int {
        self.exec_address - self.header_size
    }

    /// Whether a pointer received from the kernel CPU can be followed.
    pub fn validate(&self, ptr: usize) -> (valid: bool)
        ensures
            valid == self.contains(ptr),
    {
        ptr >= self.exec_address && ptr <= self.last_address
    }
}

} // verus!
