//! The ledger accounts as this instruction sees them: plain values for the
//! fields the handler's constraints read, resolved per invocation by the
//! host platform.

use vstd::prelude::*;

verus! {

/// A 32-byte address on the host ledger.
#[derive(Clone, Copy, Debug, PartialEq, Eq)]
pub struct Pubkey {
    pub bytes: [u8; 32],
}

impl View for Pubkey {
    type V = Seq<u8>;

    open spec fn view(&self) -> Seq<u8> {
        self.bytes@
    }
}

/// The canonical identity of the platform's system-transfer program:
/// the all-zero address.
pub open spec fn is_system_key(k: Seq<u8>) -> bool {
    k.len() == 32 && forall|i: int| 0 <= i < k.len() ==> k[i] == 0u8
}

impl Pubkey {
    /// True exactly when this address is the canonical system-program
    /// identity.
    pub fn is_system_program(&self) -> (r: bool)
        ensures
            r == is_system_key(self@),
    {
        let mut i: usize = 0;
        while i < 32
            invariant
                i <= 32,
                forall|j: int| 0 <= j < i ==> self.bytes@[j] == 0u8,
            decreases 32 - i,
        {
            if self.bytes[i] != 0 {
                assert(self.bytes@[i as int] != 0u8);
                return false;
            }
            i += 1;
        }
        true
    }
}

/// One account reference of an invocation: its address, the program that
/// owns it, its balance in the smallest currency unit, and the two flags
/// the host's account-resolution layer establishes for the enclosing
/// transaction.
#[derive(Clone, Copy, Debug, PartialEq, Eq)]
pub struct Account {
    pub key: Pubkey,
    pub owner: Pubkey,
    pub lamports: u64,
    pub is_signer: bool,
    pub is_writable: bool,
}

} // verus!
