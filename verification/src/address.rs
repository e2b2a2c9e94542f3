//! Ledger addresses: 32-byte identities for parties, asset types and
//! protocol-derived accounts.

use vstd::prelude::*;

verus! {

/// Number of bytes in a ledger address.
pub const ADDRESS_LEN: usize = 32;

/// A 32-byte identity in the ledger's address space.  The same type names a
/// party (a maker), an asset-type descriptor, and a derived account address.
#[derive(Clone, Copy, Debug, PartialEq, Eq, Hash)]
pub struct Address {
    pub bytes: [u8; 32],
}

impl View for Address {
    type V = Seq<u8>;

    open spec fn view(&self) -> Seq<u8> {
        self.bytes@
    }
}

impl Address {
    /// Wraps raw bytes as an address.
    pub fn new(bytes: [u8; 32]) -> (a: Address)
        ensures
            a@ == bytes@,
    {
        Address { bytes }
    }

    /// Reads an address out of a 32-byte slice.
    pub fn from_slice(s: &[u8]) -> (a: Address)
        requires
            s@.len() == ADDRESS_LEN,
        ensures
            a@ == s@,
    {
        let mut bytes: [u8; 32] = [0u8; 32];
        let mut i: usize = 0;
        while i < 32
            invariant
                i <= 32,
                s@.len() == 32,
                forall|j: int| 0 <= j < i ==> bytes@[j] == s@[j],
            decreases 32 - i,
        {
            bytes[i] = *vstd::slice::slice_index_get(s, i);
            i += 1;
        }
        let a = Address { bytes };
        proof {
            assert(a@ =~= s@);
        }
        a
    }

    /// Byte-for-byte equality of two addresses.
    pub fn eq_bytes(&self, other: &Address) -> (r: bool)
        ensures
            r <==> self@ == other@,
    {
        let mut i: usize = 0;
        while i < 32
            invariant
                i <= 32,
                forall|j: int| 0 <= j < i ==> self.bytes@[j] == other.bytes@[j],
            decreases 32 - i,
        {
            if self.bytes[i] != other.bytes[i] {
                return false;
            }
            i += 1;
        }
        proof {
            assert(self.bytes@ =~= other.bytes@);
        }
        true
    }
}

} // verus!
