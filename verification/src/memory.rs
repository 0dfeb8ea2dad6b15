//! Address types.
//!
//! Addresses handled by the symbolication code are virtual addresses: what
//! the code sees once (or as if) address translation is active.  Tagging
//! them with their own type keeps them from ever being confused with
//! physical addresses.

use vstd::prelude::*;

verus! {

/// A virtual address.
#[derive(Clone, Copy, PartialEq, Eq, Structural, Debug)]
pub struct VirtualAddress {
    addr: usize,
}

impl VirtualAddress {
    /// The raw address value, for use in specifications.
    pub closed spec fn spec_as_usize(self) -> usize {
        self.addr
    }

    /// Tag a raw address value as virtual.
    pub fn new(addr: usize) -> (r: VirtualAddress)
        ensures
            r.spec_as_usize() == addr,
    {
        VirtualAddress { addr }
    }

    /// The raw address value.
    pub fn as_usize(&self) -> (r: usize)
        ensures
            r == self.spec_as_usize(),
    {
        self.addr
    }
}

} // verus!
