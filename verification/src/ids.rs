//! Principal and token identifiers: fixed 32-byte values whose only
//! operation inside the core is equality.

use vstd::prelude::*;

verus! {

/// Number of bytes in a principal or token identifier.
pub const ID_LEN: usize = 32;

/// A 32-byte identifier, naming either a principal (a caller identity) or a
/// fungible-token type. The core never interprets the bytes; it only
/// compares identifiers for equality.
#[derive(Clone, Copy, Debug, PartialEq, Eq)]
pub struct AccountId {
    pub bytes: [u8; 32],
}

impl View for AccountId {
    type V = Seq<u8>;

    open spec fn view(&self) -> Seq<u8> {
        self.bytes@
    }
}

impl AccountId {
    /// Wraps raw bytes as an identifier.
    pub fn new(bytes: [u8; 32]) -> (r: AccountId)
        ensures
            r@ == bytes@,
    {
        AccountId { bytes }
    }

    /// Byte-wise equality of two identifiers.
    pub fn eq_id(&self, other: &AccountId) -> (r: bool)
        ensures
            r == (self@ == other@),
    {
        let mut i: usize = 0;
        while i < 32
            invariant
                i <= 32,
                forall|k: int| 0 <= k < i ==> self.bytes@[k] == other.bytes@[k],
            decreases 32 - i,
        {
            if self.bytes[i] != other.bytes[i] {
                proof {
                    assert(self@[i as int] != other@[i as int]);
                }
                return false;
            }
            i += 1;
        }
        proof {
            assert(self@ =~= other@);
        }
        true
    }
}

} // verus!
