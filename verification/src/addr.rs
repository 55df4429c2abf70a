//! The library's model of a 32-byte on-chain address.

use vstd::prelude::*;

verus! {

/// A 32-byte on-chain address (a public key), stored as four 64-bit words
/// in little-endian order: word `w0` holds bytes 0..8, and so on.
#[derive(Clone, Copy, PartialEq, Eq, Structural, Debug)]
pub struct Address {
    pub w0: u64,
    pub w1: u64,
    pub w2: u64,
    pub w3: u64,
}

impl View for Address {
    type V = (u64, u64, u64, u64);

    open spec fn view(&self) -> (u64, u64, u64, u64) {
        (self.w0, self.w1, self.w2, self.w3)
    }
}

impl Address {
    /// Builds an address from its four words.
    pub fn new(w0: u64, w1: u64, w2: u64, w3: u64) -> (a: Address)
        ensures
            a == (Address { w0, w1, w2, w3 }),
    {
        Address { w0, w1, w2, w3 }
    }
}

/// The token program's well-known address.
pub open spec fn token_program() -> Address {
    Address {
        w0: 0x93a165d7e1f6dd06,
        w1: 0xac79ebce46e1cbd9,
        w2: 0x91375b5fed85b41c,
        w3: 0xa900ff7e85f58c3a,
    }
}

/// The token program's well-known address, for building plans. New token
/// backing accounts are created owned by this program so it may initialize
/// and manage them.
pub fn token_program_address() -> (a: Address)
    ensures
        a == token_program(),
{
    Address {
        w0: 0x93a165d7e1f6dd06,
        w1: 0xac79ebce46e1cbd9,
        w2: 0x91375b5fed85b41c,
        w3: 0xa900ff7e85f58c3a,
    }
}

} // verus!
