//! Participant identities. The host ledger addresses accounts by a 256-bit
//! public key; here an identity is that key held as four plain 64-bit words,
//! compared structurally. The all-zero identity is the reserved null value
//! that registration rejects.

use vstd::prelude::*;

verus! {

/// A 256-bit account identity, as four little-endian 64-bit words.
#[derive(Clone, Copy, PartialEq, Eq, Structural, Debug, Hash)]
pub struct Identity {
    pub w0: u64,
    pub w1: u64,
    pub w2: u64,
    pub w3: u64,
}

impl Identity {
    /// True of the reserved null identity.
    pub open spec fn spec_is_zero(self) -> bool {
        self.w0 == 0 && self.w1 == 0 && self.w2 == 0 && self.w3 == 0
    }

    /// The reserved null identity.
    pub fn zero() -> (r: Identity)
        ensures
            r.spec_is_zero(),
    {
        Identity { w0: 0, w1: 0, w2: 0, w3: 0 }
    }

    /// Tests whether this is the reserved null identity.
    pub fn is_zero(&self) -> (r: bool)
        ensures
            r == self.spec_is_zero(),
    {
        self.w0 == 0 && self.w1 == 0 && self.w2 == 0 && self.w3 == 0
    }
}

} // verus!
