//! Account addresses.
use vstd::prelude::*;

verus! {

/// A 32-byte account address.
#[derive(Clone, Copy, Debug, PartialEq, Eq)]
pub struct Pubkey {
    pub bytes: [u8; 32],
}

/// The bytes of this program's own address.
pub const PROGRAM_ID_BYTES: [u8; 32] = [
    185, 37, 255, 51, 81, 176, 126, 242, 248, 46, 152, 49, 40, 253, 146, 90,
    255, 153, 235, 203, 98, 108, 98, 64, 60, 185, 5, 54, 224, 147, 249, 192,
];

impl Pubkey {
    /// Wraps 32 bytes as an address.
    pub fn new_from_array(bytes: [u8; 32]) -> (k: Pubkey)
        ensures
            k.bytes == bytes,
    {
        Pubkey { bytes }
    }

    /// The 32 bytes of the address.
    pub fn to_bytes(&self) -> (b: [u8; 32])
        ensures
            b == self.bytes,
    {
        self.bytes
    }

    /// Whether two addresses are the same, byte for byte.
    pub fn same(&self, other: &Pubkey) -> (r: bool)
        ensures
            r == (*self == *other),
    {
        let mut i: usize = 0;
        while i < 32
            invariant
                i <= 32,
                forall|j: int| 0 <= j < i ==> self.bytes[j] == other.bytes[j],
            decreases 32 - i,
        {
            if self.bytes[i] != other.bytes[i] {
                return false;
            }
            i = i + 1;
        }
        assert(self.bytes =~= other.bytes);
        true
    }
}

/// This program's own address.
pub open spec fn program_key() -> Pubkey {
    Pubkey { bytes: PROGRAM_ID_BYTES }
}

/// This program's own address.
pub fn program_id() -> (k: Pubkey)
    ensures
        k == program_key(),
{
    Pubkey { bytes: PROGRAM_ID_BYTES }
}

} // verus!
