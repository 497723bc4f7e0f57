//! Device properties.
use vstd::prelude::*;

verus! {

/// A device address.
///
/// The ordering of the address bytes is always high, middle, low.
#[derive(Clone, Copy, Debug, PartialEq, Eq, Hash)]
pub struct Address(pub [u8; 3]);

/// The numeric value of three address bytes, high byte first.
pub open spec fn reduced(high: u8, middle: u8, low: u8) -> int {
    high as int * 0x1_0000 + middle as int * 0x100 + low as int
}

impl Address {
    /// Returns the (left-padded) combination of the three address bytes.
    pub fn reduce(self) -> (r: u32)
        ensures
            r == reduced(self.0[0], self.0[1], self.0[2]),
    {
        let high = self.0[0] as u32;
        let middle = self.0[1] as u32;
        let low = self.0[2] as u32;
        high * 0x1_0000 + middle * 0x100 + low
    }

    /// Returns one of the three address bytes (0 is the high byte).
    pub fn byte(&self, index: usize) -> (r: u8)
        requires
            index < 3,
        ensures
            r == self.0[index as int],
    {
        self.0[index]
    }
}

impl From<[u8; 3]> for Address {
    fn from(bytes: [u8; 3]) -> (r: Address)
        ensures
            r == Address(bytes),
    {
        Address(bytes)
    }
}

impl vstd::std_specs::convert::FromSpecImpl<[u8; 3]> for Address {
    open spec fn obeys_from_spec() -> bool {
        true
    }

    open spec fn from_spec(bytes: [u8; 3]) -> Address {
        Address(bytes)
    }
}

} // verus!
